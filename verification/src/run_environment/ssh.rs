//! Running in a remote shell session: where to connect, in which order to
//! try the ways of authenticating, how each failure is reported, and how a
//! command is run and cancelled once the session stands.

use super::emit_all;
use super::emits;
use super::exit_code_of;
use super::kill_notice;
use super::BackgroundHandle;
use super::Decision;
use super::DecisionView;
use super::FileWrite;
use super::FileWriteView;
use super::Launch;
use super::LaunchView;
use super::Observation;
use super::ObservationView;
use super::Outcome;
use super::OutputChunk;
use super::OutputChunkView;
use super::ProcessStatus;
use super::RunEnvironment;
use super::RunEnvironmentError;
use super::RunEnvironmentErrorView;
use super::RunStep;
use super::RunStepView;
use crate::models::Host;
use crate::models::HostView;
use crate::text::decimal;
use crate::text::decimal_text;
use vstd::prelude::*;
use vstd::slice::slice_to_vec;

verus! {

/// The byte that interrupts the remote command: ETX, what Ctrl-C sends.
pub const INTERRUPT_BYTE: u8 = 0x03;

/// How long the remote command is given to react to the interrupt before
/// the channel is torn down, in milliseconds.
pub const KILL_GRACE_MS: u64 = 200;

/// How long to wait between two looks at the channel, in milliseconds.
pub const POLL_INTERVAL_MS: u64 = 10;

/// The texts of `parts` in order, with `separator` between each two.
pub open spec fn joined(parts: Seq<Seq<char>>, separator: Seq<char>) -> Seq<char>
    decreases parts.len(),
{
    if parts.len() == 0 {
        Seq::<char>::empty()
    } else if parts.len() == 1 {
        parts[0]
    } else {
        joined(parts.drop_last(), separator) + separator + parts.last()
    }
}

/// The texts of `parts` in order, with `separator` between each two.
pub fn join(parts: &Vec<String>, separator: &str) -> (text: String)
    ensures
        text@ == joined(parts.deep_view(), separator@),
{
    let ghost all = parts.deep_view();
    let mut text = String::new();
    let mut i: usize = 0;
    assert(all.take(0) == Seq::<Seq<char>>::empty());
    while i < parts.len()
        invariant
            0 <= i <= parts.len(),
            all == parts.deep_view(),
            text@ == joined(all.take(i as int), separator@),
        decreases parts.len() - i,
    {
        assert(all.take(i + 1).drop_last() == all.take(i as int));
        if i > 0 {
            text.append(separator);
        }
        text.append(parts[i].as_str());
        i += 1;
    }
    assert(all.take(i as int) == all);
    text
}

/// The names of the private keys that are tried, in this order.
pub open spec fn key_names() -> Seq<Seq<char>> {
    seq!["id_ed25519"@, "id_ecdsa"@, "id_rsa"@, "id_dsa"@]
}

/// `name` under the directory `base`, as paths are joined: a separator
/// stands between the two unless `base` is empty or ends with one. This is
/// the join for a `name` that does not start at the root.
pub open spec fn path_joined(base: Seq<char>, name: Seq<char>) -> Seq<char> {
    if base.len() == 0 || base.last() == '/' {
        base + name
    } else {
        base + "/"@ + name
    }
}

/// The last part of a path: what stands behind its last separator.
pub open spec fn file_name_of(path: Seq<char>) -> Seq<char>
    decreases path.len(),
{
    if path.len() == 0 {
        path
    } else if path.last() == '/' {
        Seq::empty()
    } else {
        file_name_of(path.drop_last()).push(path.last())
    }
}

/// Where the private keys of the user are looked for: in the directory
/// `.ssh` under the home directory, one path for each of [`key_names`], in
/// their order. Without a home directory there is no place to look.
pub open spec fn key_paths(home: Option<Seq<char>>) -> Seq<Seq<char>> {
    match home {
        Some(dir) => Seq::new(4, |i: int| path_joined(path_joined(dir, ".ssh"@), key_names()[i])),
        None => Seq::empty(),
    }
}

/// `name` under the directory `base`.
pub fn join_path(base: &str, name: &str) -> (path: String)
    ensures
        path@ == path_joined(base@, name@),
{
    let mut bare = true;
    for c in it: base.chars()
        invariant
            it.seq() == base@,
            bare == (it.index() == 0 || base@[it.index() - 1] == '/'),
    {
        bare = c == '/';
    }
    let mut path = String::from_str(base);
    if !bare {
        path.append("/");
    }
    path.append(name);
    path
}

/// The last part of a path.
pub fn file_name(path: &str) -> (name: String)
    ensures
        name@ == file_name_of(path@),
{
    let mut name = String::new();
    for c in it: path.chars()
        invariant
            it.seq() == path@,
            name@ == file_name_of(path@.take(it.index() as int)),
    {
        assert(path@.take(it.index() + 1).drop_last() == path@.take(it.index() as int));
        if c == '/' {
            name = String::new();
        } else {
            crate::text::push_char(&mut name, c);
        }
    }
    assert(path@.take(path@.len() as int) == path@);
    name
}

/// One way of authenticating.
#[derive(Debug, PartialEq, Eq)]
pub enum AuthAttempt {
    /// Through the authentication agent.
    Agent,
    /// With the private key in this file.
    KeyFile(String),
}

pub enum AuthAttemptView {
    Agent,
    KeyFile(Seq<char>),
}

impl View for AuthAttempt {
    type V = AuthAttemptView;

    open spec fn view(&self) -> AuthAttemptView {
        match self {
            AuthAttempt::Agent => AuthAttemptView::Agent,
            AuthAttempt::KeyFile(path) => AuthAttemptView::KeyFile(path@),
        }
    }
}

impl DeepView for AuthAttempt {
    type V = AuthAttemptView;

    open spec fn deep_view(&self) -> AuthAttemptView {
        self@
    }
}

/// Whether the candidate at `i` is marked as present. A candidate without a
/// mark counts as absent.
pub open spec fn is_present(present: Seq<bool>, i: int) -> bool {
    0 <= i < present.len() && present[i]
}

/// The key files to try: the candidates that are present, in their order.
pub open spec fn key_attempts(candidates: Seq<Seq<char>>, present: Seq<bool>) -> Seq<
    AuthAttemptView,
>
    decreases candidates.len(),
{
    if candidates.len() == 0 {
        Seq::empty()
    } else {
        let before = key_attempts(candidates.drop_last(), present);
        if is_present(present, candidates.len() - 1) {
            before.push(AuthAttemptView::KeyFile(candidates.last()))
        } else {
            before
        }
    }
}

/// The ways of authenticating, in the order in which they are tried: the
/// agent first, then each key file that is present. The first that
/// succeeds ends the search.
pub open spec fn attempts(candidates: Seq<Seq<char>>, present: Seq<bool>) -> Seq<AuthAttemptView> {
    seq![AuthAttemptView::Agent] + key_attempts(candidates, present)
}

/// What came of the attempt to set up a session.
#[derive(Debug, PartialEq, Eq)]
pub enum ConnectOutcome {
    /// The host could not be reached; the message says why.
    TransportFailed(String),
    /// No session could be created.
    SessionFailed(String),
    /// The handshake failed.
    HandshakeFailed(String),
    /// Every way of authenticating was refused.
    AuthRejected,
    /// The session stands and the user is authenticated.
    Authenticated,
}

/// What the user is told when every way of authenticating was refused:
/// who could not log in where, which keys were tried, and what to check,
/// the command for connecting by hand among it.
pub open spec fn auth_failure_text(
    username: Seq<char>,
    hostname: Seq<char>,
    tried: Seq<Seq<char>>,
) -> Seq<char> {
    "Authentication failed for user '"@ + username + "' on "@ + hostname + "\n\nKeys tried: "@ + (
    if tried.len() == 0 {
        "(none)"@
    } else {
        joined(tried, ", "@)
    }) + "\n\nTroubleshooting:\n1. Verify your SSH keys are set up for "@ + hostname
        + "\n2. Run 'ssh-add -l' to check if your key is loaded in the agent\n3. Try 'ssh "@
        + username + "@"@ + hostname
        + "' manually to test the connection\n4. Check that your public key is in ~/.ssh/authorized_keys on the remote host"@
}

/// The error that an outcome stands for, if it is a failure: an unreachable
/// host and a failed handshake are connection failures, a session that
/// could not be created is a protocol failure, and a refusal of every
/// credential is an authentication failure with the text for the user.
pub open spec fn connect_error(
    host: HostView,
    outcome: ConnectOutcome,
    tried: Seq<Seq<char>>,
) -> Option<RunEnvironmentErrorView> {
    match outcome {
        ConnectOutcome::TransportFailed(why) => Some(
            RunEnvironmentErrorView::ConnectionFailed(why@),
        ),
        ConnectOutcome::SessionFailed(why) => Some(RunEnvironmentErrorView::Ssh(why@)),
        ConnectOutcome::HandshakeFailed(why) => Some(
            RunEnvironmentErrorView::ConnectionFailed(why@),
        ),
        ConnectOutcome::AuthRejected => Some(
            RunEnvironmentErrorView::AuthFailed(
                auth_failure_text(host.username, host.hostname, tried),
            ),
        ),
        ConnectOutcome::Authenticated => None,
    }
}

/// The address to connect to: the host name, a colon, the port in decimal.
pub open spec fn address_of(host: HostView) -> Seq<char> {
    host.hostname + ":"@ + decimal(host.port as nat)
}

/// The address to connect to.
pub fn address(host: &Host) -> (text: String)
    ensures
        text@ == address_of(host@),
{
    let mut text = host.hostname.clone();
    text.append(":");
    text.append(decimal_text(host.port as u64).as_str());
    text
}

/// The paths of the private keys to look for, given the home directory.
pub fn key_candidates(home: Option<&str>) -> (paths: Vec<String>)
    ensures
        paths.deep_view() == key_paths(
            match home {
                Some(dir) => Some(dir@),
                None => None,
            },
        ),
{
    let mut paths: Vec<String> = Vec::new();
    match home {
        Some(dir) => {
            let mut names: Vec<&str> = Vec::new();
            names.push("id_ed25519");
            names.push("id_ecdsa");
            names.push("id_rsa");
            names.push("id_dsa");
            let mut i: usize = 0;
            while i < 4
                invariant
                    0 <= i <= 4,
                    names.len() == 4,
                    forall|k: int| 0 <= k < 4 ==> names[k]@ == #[trigger] key_names()[k],
                    paths.len() == i,
                    forall|k: int|
                        0 <= k < i ==> #[trigger] paths[k]@ == path_joined(
                            path_joined(dir@, ".ssh"@),
                            key_names()[k],
                        ),
                decreases 4 - i,
            {
                let folder = join_path(dir, ".ssh");
                paths.push(join_path(folder.as_str(), names[i]));
                i += 1;
            }
            assert(paths.deep_view() =~= key_paths(Some(dir@)));
        },
        None => {
            assert(paths.deep_view() =~= key_paths(None));
        },
    }
    paths
}

/// The ways of authenticating to try, in order, given the key paths and
/// which of them exist.
pub fn auth_attempts(candidates: &Vec<String>, present: &Vec<bool>) -> (plan: Vec<AuthAttempt>)
    ensures
        plan.deep_view() == attempts(candidates.deep_view(), present@),
{
    let ghost all = candidates.deep_view();
    let mut plan: Vec<AuthAttempt> = Vec::new();
    plan.push(AuthAttempt::Agent);
    let mut i: usize = 0;
    assert(all.take(0) == Seq::<Seq<char>>::empty());
    assert(plan.deep_view() =~= attempts(all.take(0), present@));
    while i < candidates.len()
        invariant
            0 <= i <= candidates.len(),
            all == candidates.deep_view(),
            plan.deep_view() == attempts(all.take(i as int), present@),
        decreases candidates.len() - i,
    {
        let ghost before = plan.deep_view();
        assert(all.take(i + 1).drop_last() == all.take(i as int));
        if i < present.len() && present[i] {
            plan.push(AuthAttempt::KeyFile(candidates[i].clone()));
            assert(plan.deep_view() == before.push(AuthAttemptView::KeyFile(all[i as int])));
        }
        assert(plan.deep_view() =~= attempts(all.take(i + 1), present@));
        i += 1;
    }
    assert(all.take(i as int) == all);
    plan
}

/// The position of the first attempt that was accepted; the number of
/// attempts where none was.
pub open spec fn first_accepted(accepted: Seq<bool>) -> int
    decreases accepted.len(),
{
    if accepted.len() == 0 {
        0
    } else if accepted[0] {
        0
    } else {
        1 + first_accepted(accepted.drop_first())
    }
}

/// The first accepted attempt is where an attempt was accepted and none
/// before it.
pub proof fn lemma_first_accepted(accepted: Seq<bool>, at: int)
    requires
        0 <= at <= accepted.len(),
        at < accepted.len() ==> accepted[at],
        forall|j: int| 0 <= j < at ==> !accepted[j],
    ensures
        first_accepted(accepted) == at,
    decreases accepted.len(),
{
    if accepted.len() > 0 && at > 0 {
        assert(!accepted[0]);
        let rest = accepted.drop_first();
        assert forall|j: int| 0 <= j < at - 1 implies !rest[j] by {
            assert(rest[j] == accepted[j + 1]);
        }
        if at < accepted.len() {
            assert(rest[at - 1] == accepted[at]);
        }
        lemma_first_accepted(rest, at - 1);
    }
}

/// The attempts that were made: one for each result, as far as the plan
/// goes.
pub open spec fn made(plan: Seq<AuthAttemptView>, accepted: Seq<bool>) -> Seq<bool> {
    accepted.take(if accepted.len() <= plan.len() {
        accepted.len() as int
    } else {
        plan.len() as int
    })
}

/// The attempt to make next, given the results of those made so far: the
/// one behind them, in the order of the plan. There is none once an
/// attempt was accepted or the plan is at its end.
pub open spec fn next_to_try(plan: Seq<AuthAttemptView>, accepted: Seq<bool>) -> Option<int> {
    if accepted.len() >= plan.len() || first_accepted(accepted) < accepted.len() {
        None
    } else {
        Some(accepted.len() as int)
    }
}

/// The names of the key files among the first `count` attempts of the
/// plan, in order.
pub open spec fn keys_tried(plan: Seq<AuthAttemptView>, count: int) -> Seq<Seq<char>>
    decreases count,
{
    if count <= 0 || count > plan.len() {
        Seq::empty()
    } else {
        let before = keys_tried(plan, count - 1);
        match plan[count - 1] {
            AuthAttemptView::KeyFile(path) => before.push(file_name_of(path)),
            AuthAttemptView::Agent => before,
        }
    }
}

/// Whether the user is authenticated after the attempts that were made,
/// and the names of the keys that were tried: those up to and with the
/// first accepted attempt, or all that were made where none was accepted.
pub open spec fn auth_outcome(plan: Seq<AuthAttemptView>, accepted: Seq<bool>) -> (
    bool,
    Seq<Seq<char>>,
) {
    let results = made(plan, accepted);
    let first = first_accepted(results);
    if first < results.len() {
        (true, keys_tried(plan, first + 1))
    } else {
        (false, keys_tried(plan, results.len() as int))
    }
}

/// The attempt of `plan` to make next, given the results so far.
pub fn next_attempt(plan: &Vec<AuthAttempt>, accepted: &Vec<bool>) -> (next: Option<usize>)
    ensures
        match next {
            Some(i) => next_to_try(plan.deep_view(), accepted@) == Some(i as int) && i
                < plan.len(),
            None => next_to_try(plan.deep_view(), accepted@) is None,
        },
{
    let mut i: usize = 0;
    while i < accepted.len()
        invariant
            0 <= i <= accepted.len(),
            forall|j: int| 0 <= j < i ==> !accepted@[j],
        decreases accepted.len() - i,
    {
        if accepted[i] {
            proof {
                lemma_first_accepted(accepted@, i as int);
            }
            return None;
        }
        i += 1;
    }
    proof {
        lemma_first_accepted(accepted@, accepted@.len() as int);
    }
    if accepted.len() < plan.len() {
        Some(accepted.len())
    } else {
        None
    }
}

/// What came of the attempts to authenticate: the user is authenticated
/// exactly when an attempt of the plan was accepted. With it come the
/// names of the keys that were tried.
pub fn auth_result(plan: &Vec<AuthAttempt>, accepted: &Vec<bool>) -> (r: (
    ConnectOutcome,
    Vec<String>,
))
    ensures
        r.0 == if auth_outcome(plan.deep_view(), accepted@).0 {
            ConnectOutcome::Authenticated
        } else {
            ConnectOutcome::AuthRejected
        },
        r.1.deep_view() == auth_outcome(plan.deep_view(), accepted@).1,
        auth_outcome(plan.deep_view(), accepted@).0 <==> exists|i: int|
            0 <= i < plan.len() && 0 <= i < accepted.len() && accepted@[i],
{
    let ghost results = made(plan.deep_view(), accepted@);
    let count = if accepted.len() <= plan.len() {
        accepted.len()
    } else {
        plan.len()
    };
    let mut tried: Vec<String> = Vec::new();
    let mut i: usize = 0;
    assert(tried.deep_view() == keys_tried(plan.deep_view(), 0));
    while i < count
        invariant
            0 <= i <= count,
            count == results.len(),
            count <= plan.len(),
            count <= accepted.len(),
            results == made(plan.deep_view(), accepted@),
            forall|j: int| 0 <= j < i ==> !results[j],
            tried.deep_view() == keys_tried(plan.deep_view(), i as int),
        decreases count - i,
    {
        let ghost before = tried.deep_view();
        match &plan[i] {
            AuthAttempt::KeyFile(path) => {
                tried.push(file_name(path.as_str()));
                assert(tried.deep_view() == before.push(file_name_of(path@)));
            },
            AuthAttempt::Agent => {},
        }
        assert(tried.deep_view() == keys_tried(plan.deep_view(), i + 1));
        assert(results[i as int] == accepted@[i as int]);
        if accepted[i] {
            proof {
                lemma_first_accepted(results, i as int);
            }
            return (ConnectOutcome::Authenticated, tried);
        }
        i += 1;
    }
    proof {
        lemma_first_accepted(results, results.len() as int);
        assert forall|k: int| 0 <= k < plan.len() && 0 <= k < accepted.len() implies !accepted@[k] by {
            assert(results[k] == accepted@[k]);
        }
    }
    (ConnectOutcome::AuthRejected, tried)
}

/// The text for the user when every way of authenticating was refused.
pub fn auth_failure_message(host: &Host, tried: &Vec<String>) -> (text: String)
    ensures
        text@ == auth_failure_text(host@.username, host@.hostname, tried.deep_view()),
{
    let mut text = String::from_str("Authentication failed for user '");
    text.append(host.username.as_str());
    text.append("' on ");
    text.append(host.hostname.as_str());
    text.append("\n\nKeys tried: ");
    if tried.len() == 0 {
        text.append("(none)");
    } else {
        text.append(join(tried, ", ").as_str());
    }
    text.append("\n\nTroubleshooting:\n1. Verify your SSH keys are set up for ");
    text.append(host.hostname.as_str());
    text.append(
        "\n2. Run 'ssh-add -l' to check if your key is loaded in the agent\n3. Try 'ssh ",
    );
    text.append(host.username.as_str());
    text.append("@");
    text.append(host.hostname.as_str());
    text.append(
        "' manually to test the connection\n4. Check that your public key is in ~/.ssh/authorized_keys on the remote host",
    );
    text
}

/// A remote shell session to one host.
#[derive(Debug, PartialEq, Eq)]
pub struct SshRunEnvironment {
    host: Host,
}

impl Clone for SshRunEnvironment {
    fn clone(&self) -> (copy: Self)
        ensures
            copy.host() == self.host(),
    {
        SshRunEnvironment { host: self.host.clone() }
    }
}

/// What the caller is told when the channel of a cancelled command was torn
/// down.
pub open spec fn terminated_notice() -> Seq<char> {
    "[Execution terminated]\n"@
}

/// What follows from a look at a remote command.
///
/// A cancel request comes first: the caller is told, the interrupt byte is
/// written and flushed, the command is given a moment, the channel is torn
/// down, and the caller is told again. Otherwise what the command wrote is
/// handed on; while it runs the driver waits a moment.
pub open spec fn remote_decision(seen: ObservationView) -> DecisionView {
    if seen.cancelled {
        DecisionView {
            steps: seq![
                RunStepView::Emit(OutputChunkView::Stderr(kill_notice())),
                RunStepView::Interrupt,
                RunStepView::Flush,
                RunStepView::Pause(KILL_GRACE_MS),
                RunStepView::SendEof,
                RunStepView::Close,
                RunStepView::Emit(OutputChunkView::Stderr(terminated_notice())),
            ],
            outcome: Outcome::Killed,
        }
    } else {
        match seen.status {
            ProcessStatus::Running => DecisionView {
                steps: emits(seen.output).push(RunStepView::Pause(POLL_INTERVAL_MS)),
                outcome: Outcome::Continue,
            },
            _ => DecisionView {
                steps: emits(seen.output),
                outcome: Outcome::Exited(exit_code_of(seen.status)),
            },
        }
    }
}

/// The two messages before a remote run: that the log goes to a file, and
/// the command that follows it over a connection of its own.
pub open spec fn remote_preamble(host: HostView, log_file: Seq<char>) -> Seq<OutputChunkView> {
    seq![
        OutputChunkView::Stdout("Logging to /tmp. Tail it with the following command:\n"@),
        OutputChunkView::Stdout(
            "\n\nssh "@ + host.username + "@"@ + host.hostname + " -- tail -f "@ + log_file
                + "\n\n----------------\n"@,
        ),
    ]
}

impl SshRunEnvironment {
    /// The host of the session.
    pub closed spec fn host(&self) -> HostView {
        self.host@
    }

    /// The environment for `host`, given what came of setting up the
    /// session and the names of the keys that were tried: the session on
    /// success, and else the error that the outcome stands for.
    pub fn connect(host: &Host, outcome: ConnectOutcome, tried: &Vec<String>) -> (env: Result<
        Self,
        RunEnvironmentError,
    >)
        ensures
            match env {
                Ok(session) => outcome == ConnectOutcome::Authenticated && session.host()
                    == host@,
                Err(error) => connect_error(host@, outcome, tried.deep_view()) == Some(error@),
            },
    {
        match outcome {
            ConnectOutcome::TransportFailed(why) => Err(RunEnvironmentError::ConnectionFailed(why)),
            ConnectOutcome::SessionFailed(why) => Err(RunEnvironmentError::Ssh(why)),
            ConnectOutcome::HandshakeFailed(why) => Err(RunEnvironmentError::ConnectionFailed(why)),
            ConnectOutcome::AuthRejected => Err(
                RunEnvironmentError::AuthFailed(auth_failure_message(host, tried)),
            ),
            ConnectOutcome::Authenticated => Ok(SshRunEnvironment { host: host.clone() }),
        }
    }

    /// A copy of the host of the session.
    pub fn target(&self) -> (host: Host)
        ensures
            host@ == self.host(),
    {
        self.host.clone()
    }

    /// What is known of a detached remote command: nothing but that it was
    /// started.
    pub fn background_handle(&self) -> (handle: BackgroundHandle)
        ensures
            handle.pid_or_hint@ == "remote background process"@,
    {
        BackgroundHandle { pid_or_hint: String::from_str("remote background process") }
    }

    /// The error that stands for a failed upload of the script.
    pub fn upload_failure(&self, why: String) -> (error: RunEnvironmentError)
        ensures
            error == RunEnvironmentError::UploadFailed(why),
    {
        RunEnvironmentError::UploadFailed(why)
    }

    /// The error that stands for a failure of the session or a channel.
    pub fn session_failure(&self, why: String) -> (error: RunEnvironmentError)
        ensures
            error == RunEnvironmentError::Ssh(why),
    {
        RunEnvironmentError::Ssh(why)
    }
}

impl RunEnvironment for SshRunEnvironment {
    open spec fn staged(&self, path: Seq<char>, contents: Seq<u8>) -> FileWriteView {
        FileWriteView { path, contents, mode: None }
    }

    open spec fn launched(&self, command: Seq<char>, detached: bool) -> LaunchView {
        LaunchView::Session { command, detached }
    }

    open spec fn decided(&self, seen: ObservationView) -> DecisionView {
        remote_decision(seen)
    }

    open spec fn preamble(&self, log_file: Seq<char>) -> Seq<OutputChunkView> {
        remote_preamble(self.host(), log_file)
    }

    fn write_file(&self, path: &str, contents: &[u8]) -> (file: FileWrite) {
        FileWrite { path: String::from_str(path), contents: slice_to_vec(contents), mode: None }
    }

    fn run(&self, command: &str) -> (launch: Launch) {
        Launch::Session { command: String::from_str(command), detached: false }
    }

    fn run_background(&self, command: &str) -> (launch: Launch) {
        Launch::Session { command: String::from_str(command), detached: true }
    }

    fn poll(&self, seen: Observation) -> (decision: Decision) {
        if seen.cancelled {
            let mut steps: Vec<RunStep> = Vec::new();
            steps.push(
                RunStep::Emit(OutputChunk::Stderr(String::from_str("\n[Killing execution...]\n"))),
            );
            steps.push(RunStep::Interrupt);
            steps.push(RunStep::Flush);
            steps.push(RunStep::Pause(KILL_GRACE_MS));
            steps.push(RunStep::SendEof);
            steps.push(RunStep::Close);
            steps.push(
                RunStep::Emit(OutputChunk::Stderr(String::from_str("[Execution terminated]\n"))),
            );
            assert(steps.deep_view() =~= remote_decision(seen@).steps);
            Decision { steps, outcome: Outcome::Killed }
        } else {
            let ghost handed = emits(seen@.output);
            let status = seen.status;
            let mut steps = emit_all(seen.output);
            match status {
                ProcessStatus::Running => {
                    steps.push(RunStep::Pause(POLL_INTERVAL_MS));
                    assert(steps.deep_view() =~= handed.push(RunStepView::Pause(POLL_INTERVAL_MS)));
                    Decision { steps, outcome: Outcome::Continue }
                },
                ProcessStatus::Ended(code) => {
                    let exit: i32 = match code {
                        Some(c) => c,
                        None => -1,
                    };
                    Decision { steps, outcome: Outcome::Exited(exit) }
                },
                ProcessStatus::Lost => Decision { steps, outcome: Outcome::Exited(-1) },
            }
        }
    }

    fn emit_preamble(&self, log_file: &str) -> (chunks: Vec<OutputChunk>) {
        let mut chunks: Vec<OutputChunk> = Vec::new();
        chunks.push(
            OutputChunk::Stdout(
                String::from_str("Logging to /tmp. Tail it with the following command:\n"),
            ),
        );
        let mut hint = String::from_str("\n\nssh ");
        hint.append(self.host.username.as_str());
        hint.append("@");
        hint.append(self.host.hostname.as_str());
        hint.append(" -- tail -f ");
        hint.append(log_file);
        hint.append("\n\n----------------\n");
        chunks.push(OutputChunk::Stdout(hint));
        assert(chunks.deep_view() =~= remote_preamble(self.host(), log_file@));
        chunks
    }
}

} // verus!
