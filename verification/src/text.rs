//! Text helpers shared by the rest of the library: building strings character
//! by character, ASCII case folding, and quoting for a POSIX shell.

use vstd::prelude::*;

verus! {

/// `String::push` of the standard library: the character is appended at the
/// end and nothing else changes. Trusted, not proved.
#[verifier::external_body]
pub(crate) fn push_char(s: &mut String, c: char)
    ensures
        final(s)@ == old(s)@.push(c),
{
    s.push(c)
}

/// `==` on string slices, `PartialEq::eq` of `str` in the standard library.
/// Trusted: two slices are equal exactly when they hold the same characters
/// in the same order.
pub assume_specification[ <str as PartialEq>::eq ](a: &str, b: &str) -> (same: bool)
    ensures
        same == (a@ == b@),
;

/// The characters of `s`, in order.
pub fn chars_of(s: &str) -> (chars: Vec<char>)
    ensures
        chars@ == s@,
{
    let mut chars: Vec<char> = Vec::new();
    for c in it: s.chars()
        invariant
            it.seq() == s@,
            chars@ == s@.take(it.index() as int),
    {
        chars.push(c);
        assert(s@.take(it.index() + 1) == s@.take(it.index() as int).push(c));
    }
    assert(s@.take(s@.len() as int) == s@);
    chars
}

/// The lower-case form of an ASCII capital letter; every other character
/// stands for itself.
pub open spec fn ascii_lower(c: char) -> char {
    if 'A' <= c && c <= 'Z' {
        ((c as u8) + 32u8) as char
    } else {
        c
    }
}

/// `s` with every ASCII capital letter replaced by its lower-case form.
pub open spec fn lower(s: Seq<char>) -> Seq<char> {
    Seq::new(s.len(), |i: int| ascii_lower(s[i]))
}

/// Whether two texts are equal up to the case of their ASCII letters.
pub open spec fn same_ignoring_case(a: Seq<char>, b: Seq<char>) -> bool {
    lower(a) == lower(b)
}

pub fn lower_char(c: char) -> (l: char)
    ensures
        l == ascii_lower(c),
{
    if 'A' <= c && c <= 'Z' {
        let code: u8 = c as u8;
        (code + 32) as char
    } else {
        c
    }
}

/// `s` folded to lower case, ASCII letters only.
pub fn to_lower(s: &str) -> (folded: String)
    ensures
        folded@ == lower(s@),
{
    let mut folded = String::new();
    for c in it: s.chars()
        invariant
            it.seq() == s@,
            folded@ == lower(s@.take(it.index() as int)),
    {
        push_char(&mut folded, lower_char(c));
        assert(lower(s@.take(it.index() + 1)) =~= lower(s@.take(it.index() as int)).push(
            ascii_lower(c),
        ));
    }
    assert(s@.take(s@.len() as int) == s@);
    folded
}

/// Whether `a` and `b` are equal up to the case of their ASCII letters.
pub fn eq_ignore_case(a: &str, b: &str) -> (same: bool)
    ensures
        same == same_ignoring_case(a@, b@),
{
    let left = to_lower(a);
    let right = to_lower(b);
    left == right
}

/// The four characters that stand for one single quote inside a
/// single-quoted shell word: close the word, an escaped quote, open it again.
pub open spec fn quote_escape() -> Seq<char> {
    seq!['\'', '\\', '\'', '\'']
}

/// `s` with every single quote replaced by [`quote_escape`], so that the
/// result can stand between single quotes in a shell command line.
pub open spec fn escaped(s: Seq<char>) -> Seq<char>
    decreases s.len(),
{
    if s.len() == 0 {
        Seq::<char>::empty()
    } else if s.last() == '\'' {
        escaped(s.drop_last()) + quote_escape()
    } else {
        escaped(s.drop_last()).push(s.last())
    }
}

/// Where the reading of a shell word stands: outside quotes, between
/// single quotes, or behind a backslash.
#[derive(Debug, Clone, Copy, PartialEq, Eq, Structural)]
pub enum Quoting {
    Plain,
    Quoted,
    Escaped,
}

/// How a shell reads one more character of a word, given where the reading
/// stands and the text read so far. Outside quotes a single quote opens a
/// quoted part and a backslash makes the next character stand for itself;
/// between single quotes every character but the closing quote stands for
/// itself. Characters with a meaning of their own outside quotes are not
/// told apart here: the words that this library writes have none there.
pub open spec fn read_char(at: (Quoting, Seq<char>), c: char) -> (Quoting, Seq<char>) {
    match at.0 {
        Quoting::Plain => if c == '\'' {
            (Quoting::Quoted, at.1)
        } else if c == '\\' {
            (Quoting::Escaped, at.1)
        } else {
            (Quoting::Plain, at.1.push(c))
        },
        Quoting::Quoted => if c == '\'' {
            (Quoting::Plain, at.1)
        } else {
            (Quoting::Quoted, at.1.push(c))
        },
        Quoting::Escaped => (Quoting::Plain, at.1.push(c)),
    }
}

/// How a shell reads the characters of `s`, from `at` on.
pub open spec fn read_from(at: (Quoting, Seq<char>), s: Seq<char>) -> (Quoting, Seq<char>)
    decreases s.len(),
{
    if s.len() == 0 {
        at
    } else {
        read_char(read_from(at, s.drop_last()), s.last())
    }
}

/// The text that a shell takes the word `s` for; none where a quote is
/// left open or a backslash is left hanging.
pub open spec fn word_value(s: Seq<char>) -> Option<Seq<char>> {
    let end = read_from((Quoting::Plain, Seq::<char>::empty()), s);
    if end.0 == Quoting::Plain {
        Some(end.1)
    } else {
        None
    }
}

/// `s` between single quotes, with its own single quotes escaped.
pub open spec fn quoted(s: Seq<char>) -> Seq<char> {
    seq!['\''] + escaped(s) + seq!['\'']
}

/// Reading two texts in turn is reading their concatenation.
proof fn lemma_read_concat(at: (Quoting, Seq<char>), a: Seq<char>, b: Seq<char>)
    ensures
        read_from(at, a + b) == read_from(read_from(at, a), b),
    decreases b.len(),
{
    if b.len() == 0 {
        assert(a + b == a);
    } else {
        lemma_read_concat(at, a, b.drop_last());
        assert((a + b).drop_last() == a + b.drop_last());
        assert((a + b).last() == b.last());
    }
}

/// Between quotes, the escaped form of `s` reads as `s` and leaves the
/// reading between quotes.
proof fn lemma_read_escaped(read: Seq<char>, s: Seq<char>)
    ensures
        read_from((Quoting::Quoted, read), escaped(s)) == (Quoting::Quoted, read + s),
    decreases s.len(),
{
    let start = (Quoting::Quoted, read);
    if s.len() == 0 {
        assert(read + s == read);
    } else {
        let front = s.drop_last();
        lemma_read_escaped(read, front);
        assert(read + s == (read + front).push(s.last()));
        if s.last() == '\'' {
            lemma_read_concat(start, escaped(front), quote_escape());
            let q = quote_escape();
            let at0 = (Quoting::Quoted, read + front);
            let q1 = q.drop_last();
            let q2 = q1.drop_last();
            let q3 = q2.drop_last();
            assert(q3.drop_last() == Seq::<char>::empty());
            assert(read_from(at0, q3.drop_last()) == at0);
            assert(read_from(at0, q3) == (Quoting::Plain, read + front));
            assert(read_from(at0, q2) == (Quoting::Escaped, read + front));
            assert(read_from(at0, q1) == (Quoting::Plain, (read + front).push('\'')));
            assert(read_from(at0, q) == (Quoting::Quoted, (read + front).push('\'')));
        } else {
            assert(escaped(s).drop_last() == escaped(front));
        }
    }
}

/// A quoted text survives the shell: the shell takes the quoted form of
/// `s` for `s`, whatever `s` holds.
pub proof fn lemma_quoted_survives(s: Seq<char>)
    ensures
        word_value(quoted(s)) == Some(s),
{
    let start = (Quoting::Plain, Seq::<char>::empty());
    let open = seq!['\''];
    assert(open.drop_last() == Seq::<char>::empty());
    assert(read_from(start, open.drop_last()) == start);
    assert(read_from(start, open) == (Quoting::Quoted, Seq::<char>::empty()));
    lemma_read_concat(start, open, escaped(s));
    lemma_read_escaped(Seq::<char>::empty(), s);
    assert(Seq::<char>::empty() + s == s);
    assert(quoted(s).drop_last() == open + escaped(s));
    assert(quoted(s).last() == '\'');
}

/// `s` made safe for the inside of a single-quoted shell word.
pub fn escape_single_quotes(s: &str) -> (quoted: String)
    ensures
        quoted@ == escaped(s@),
{
    let mut quoted = String::new();
    for c in it: s.chars()
        invariant
            it.seq() == s@,
            quoted@ == escaped(s@.take(it.index() as int)),
    {
        assert(s@.take(it.index() + 1).drop_last() == s@.take(it.index() as int));
        if c == '\'' {
            push_char(&mut quoted, '\'');
            push_char(&mut quoted, '\\');
            push_char(&mut quoted, '\'');
            push_char(&mut quoted, '\'');
            assert(quoted@ == escaped(s@.take(it.index() as int)) + quote_escape());
        } else {
            push_char(&mut quoted, c);
        }
    }
    assert(s@.take(s@.len() as int) == s@);
    quoted
}

/// `s` as one word for a shell: between single quotes, with its own single
/// quotes escaped.
pub fn quote(s: &str) -> (word: String)
    ensures
        word@ == quoted(s@),
{
    let mut word = String::new();
    push_char(&mut word, '\'');
    word.append(escape_single_quotes(s).as_str());
    push_char(&mut word, '\'');
    word
}

/// The sixteen lower-case hexadecimal digits, by value.
pub open spec fn hex_digits() -> Seq<char> {
    seq!['0', '1', '2', '3', '4', '5', '6', '7', '8', '9', 'a', 'b', 'c', 'd', 'e', 'f']
}

/// Lower-case hexadecimal text of `bytes`: two digits for each byte, the
/// high half first.
pub open spec fn hex_lower(bytes: Seq<u8>) -> Seq<char> {
    Seq::new(
        2 * bytes.len(),
        |i: int|
            if i % 2 == 0 {
                hex_digits()[bytes[i / 2] as int / 16]
            } else {
                hex_digits()[bytes[i / 2] as int % 16]
            },
    )
}

/// The ten decimal digits, by value.
pub open spec fn decimal_digits() -> Seq<char> {
    seq!['0', '1', '2', '3', '4', '5', '6', '7', '8', '9']
}

/// The decimal text of `n`, without leading zeros.
pub open spec fn decimal(n: nat) -> Seq<char>
    decreases n,
{
    if n < 10 {
        seq![decimal_digits()[n as int]]
    } else {
        decimal(n / 10).push(decimal_digits()[(n % 10) as int])
    }
}

/// The character of one decimal digit.
pub fn digit_char(d: u64) -> (c: char)
    requires
        d < 10,
    ensures
        c == decimal_digits()[d as int],
{
    if d == 0 {
        '0'
    } else if d == 1 {
        '1'
    } else if d == 2 {
        '2'
    } else if d == 3 {
        '3'
    } else if d == 4 {
        '4'
    } else if d == 5 {
        '5'
    } else if d == 6 {
        '6'
    } else if d == 7 {
        '7'
    } else if d == 8 {
        '8'
    } else {
        '9'
    }
}

/// The decimal text of `n`.
pub fn decimal_text(n: u64) -> (text: String)
    ensures
        text@ == decimal(n as nat),
    decreases n,
{
    if n < 10 {
        let mut text = String::new();
        push_char(&mut text, digit_char(n));
        text
    } else {
        let mut text = decimal_text(n / 10);
        push_char(&mut text, digit_char(n % 10));
        text
    }
}

} // verus!
