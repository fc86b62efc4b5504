//! The session worker: one login attempt driven end to end as a state
//! machine. Each call of `Worker::step` takes the outcome of the previous
//! action and names the next action for the process around it to perform.

use vstd::prelude::*;
use vstd::string::*;
use crate::protocol::{Error, MessageKind, ParentToSessionChild, SessionChildToParent, TerminalMode, kind_of};
use crate::text::{decimal, decimal_of, entry_of, env_entry, shell_command, shell_command_of};

verus! {

/// What the parent asked for when it initiated the login.
#[derive(Clone, Debug, PartialEq, Eq)]
pub struct Login {
    pub service: String,
    pub class: String,
    pub user: String,
    pub authenticate: bool,
    pub tty: TerminalMode,
    pub source_profile: bool,
}

/// The operating-system record of the authenticated user.
#[derive(Clone, Debug, PartialEq, Eq)]
pub struct UserRecord {
    pub name: String,
    pub home: String,
    pub shell: String,
    pub uid: u32,
    pub gid: u32,
}

/// A call into the native transaction made while authenticating.
#[derive(Clone, Copy, Debug, PartialEq, Eq, Structural)]
pub enum AuthStep {
    Authenticate,
    AcctMgmt,
    EstablishCredentials,
}

/// A step of the launched child, after the fork.
#[derive(Clone, Copy, Debug, PartialEq, Eq, Structural)]
pub enum ChildStep {
    /// Initialise the supplementary groups of the target user.
    InitGroups,
    /// Set the group identity.
    SetGid,
    /// Set the user identity.
    SetUid,
    /// Arm the parent-death signal, which the identity changes reset.
    ArmDeathSignal,
    /// Replace the process image with `sh -c <command>`.
    Exec,
}

/// The terminal that the session takes, with the values that the native
/// transaction is told of it.
#[derive(Clone, Debug, PartialEq, Eq)]
pub struct TerminalSetup {
    pub path: String,
    pub vt: usize,
    pub switch: bool,
    /// The terminal item, `tty<vt>`.
    pub tty_item: String,
    /// The environment entry `XDG_VTNR=<vt>`.
    pub vtnr_entry: String,
}

/// Where the worker stands in the login attempt.
#[derive(Clone, Copy, Debug, PartialEq, Eq, Structural)]
pub enum Phase {
    AwaitInitiate,
    Authenticating,
    AwaitArgs,
    AwaitStart,
    ResolvingUser,
    PreparingTerminal,
    EnteringHome,
    EnteringRoot,
    ReadingEnvironment,
    OpeningSession,
    Launching,
    Supervising,
    TearingDown,
    Finished,
    Failed,
}

/// The outcome of the action that the worker last asked for.
#[derive(Clone, Debug, PartialEq, Eq)]
pub enum WorkerEvent {
    /// A message arrived from the parent.
    Received(ParentToSessionChild),
    /// The action succeeded.
    Completed,
    /// The action failed.
    Failed(Error),
    /// The authenticated user's record was found.
    UserResolved(UserRecord),
    /// The worker's own environment was read: the socket address and the
    /// terminal type, where present.
    EnvironmentRead { sock: Option<String>, term: Option<String> },
    /// The session's process was forked with this identifier.
    Forked(u64),
}

/// What the process around the worker is to do next.
#[derive(Clone, Debug, PartialEq, Eq)]
pub enum WorkerAction {
    /// Receive one message from the parent.
    Receive,
    /// Send this message, then receive one message from the parent.
    SendAndReceive(SessionChildToParent),
    /// Start the native transaction for `service` and `user`, then make these
    /// calls in order.
    Authenticate { service: String, user: String, steps: Vec<AuthStep> },
    /// Resolve the transaction's user name to a user record.
    ResolveUser,
    /// Become a session leader, then take the terminal, if any.
    PrepareTerminal { terminal: Option<TerminalSetup> },
    /// Make this directory the working directory.
    EnterDirectory(String),
    /// Read the socket address and the terminal type from the environment.
    ReadEnvironment,
    /// Hand each entry, in order, to the native transaction, then open the
    /// session.
    OpenSession { env: Vec<String> },
    /// Fork; the child runs `steps` in order as `username`, `uid`, `gid`, with
    /// the shell command `command`.
    Launch { username: String, uid: u32, gid: u32, command: String, steps: Vec<ChildStep> },
    /// Send `report`, shut the socket down, re-arm the parent-death signal and
    /// wait for `pid` to end.
    Supervise { report: SessionChildToParent, pid: u64 },
    /// Close the session, delete the credentials, end the transaction.
    TearDown,
    /// Exit; the attempt is over.
    Exit,
    /// Report this error to the parent and exit.
    Abort(Error),
}

/// The tag of an `Error`.
#[derive(Clone, Copy, Debug, PartialEq, Eq, Structural)]
pub enum ErrorKind {
    Cancelled,
    UnexpectedMessage,
    Protocol,
    Native,
    Resource,
    MissingEnvironment,
    Io,
    OutOfStep,
}

/// An event with its payload reduced to what decides the next phase.
pub enum EventKind {
    Received(MessageKind),
    Completed,
    Failed(ErrorKind),
    UserResolved,
    EnvironmentRead { has_sock: bool },
    Forked,
}

/// The tag of an action.
pub enum ActionKind {
    Receive,
    SendAndReceive,
    Authenticate,
    ResolveUser,
    PrepareTerminal,
    EnterDirectory,
    ReadEnvironment,
    OpenSession,
    Launch,
    Supervise,
    TearDown,
    Exit,
    Abort(ErrorKind),
}

pub open spec fn error_kind(e: Error) -> ErrorKind {
    match e {
        Error::Cancelled => ErrorKind::Cancelled,
        Error::UnexpectedMessage { .. } => ErrorKind::UnexpectedMessage,
        Error::Protocol(_) => ErrorKind::Protocol,
        Error::Native(_) => ErrorKind::Native,
        Error::Resource(_) => ErrorKind::Resource,
        Error::MissingEnvironment(_) => ErrorKind::MissingEnvironment,
        Error::Io(_) => ErrorKind::Io,
        Error::OutOfStep => ErrorKind::OutOfStep,
    }
}

pub open spec fn event_kind(e: WorkerEvent) -> EventKind {
    match e {
        WorkerEvent::Received(m) => EventKind::Received(kind_of(m)),
        WorkerEvent::Completed => EventKind::Completed,
        WorkerEvent::Failed(err) => EventKind::Failed(error_kind(err)),
        WorkerEvent::UserResolved(_) => EventKind::UserResolved,
        WorkerEvent::EnvironmentRead { sock, .. } => EventKind::EnvironmentRead { has_sock: sock is Some },
        WorkerEvent::Forked(_) => EventKind::Forked,
    }
}

pub open spec fn action_kind(a: WorkerAction) -> ActionKind {
    match a {
        WorkerAction::Receive => ActionKind::Receive,
        WorkerAction::SendAndReceive(_) => ActionKind::SendAndReceive,
        WorkerAction::Authenticate { .. } => ActionKind::Authenticate,
        WorkerAction::ResolveUser => ActionKind::ResolveUser,
        WorkerAction::PrepareTerminal { .. } => ActionKind::PrepareTerminal,
        WorkerAction::EnterDirectory(_) => ActionKind::EnterDirectory,
        WorkerAction::ReadEnvironment => ActionKind::ReadEnvironment,
        WorkerAction::OpenSession { .. } => ActionKind::OpenSession,
        WorkerAction::Launch { .. } => ActionKind::Launch,
        WorkerAction::Supervise { .. } => ActionKind::Supervise,
        WorkerAction::TearDown => ActionKind::TearDown,
        WorkerAction::Exit => ActionKind::Exit,
        WorkerAction::Abort(e) => ActionKind::Abort(error_kind(e)),
    }
}

/// The phases in which the worker waits for a message from the parent.
pub open spec fn awaiting(p: Phase) -> bool {
    p is AwaitInitiate || p is AwaitArgs || p is AwaitStart
}

/// The one message that an awaiting phase accepts, besides `Cancel`.
pub open spec fn expected_message(p: Phase) -> MessageKind {
    if p is AwaitInitiate {
        MessageKind::InitiateLogin
    } else if p is AwaitArgs {
        MessageKind::Args
    } else {
        MessageKind::Start
    }
}

/// The action that follows `e` in phase `p`.
pub open spec fn next_action(p: Phase, e: EventKind) -> ActionKind {
    if p is Finished || p is Failed {
        ActionKind::Exit
    } else if e is Failed {
        if p is EnteringHome {
            ActionKind::EnterDirectory
        } else {
            ActionKind::Abort(e->Failed_0)
        }
    } else if awaiting(p) {
        if e is Received {
            if e->Received_0 == expected_message(p) {
                if p is AwaitInitiate {
                    ActionKind::Authenticate
                } else if p is AwaitArgs {
                    ActionKind::SendAndReceive
                } else {
                    ActionKind::ResolveUser
                }
            } else if e->Received_0 is Cancel {
                ActionKind::Abort(ErrorKind::Cancelled)
            } else {
                ActionKind::Abort(ErrorKind::UnexpectedMessage)
            }
        } else {
            ActionKind::Abort(ErrorKind::OutOfStep)
        }
    } else if p is Authenticating && e is Completed {
        ActionKind::SendAndReceive
    } else if p is ResolvingUser && e is UserResolved {
        ActionKind::PrepareTerminal
    } else if p is PreparingTerminal && e is Completed {
        ActionKind::EnterDirectory
    } else if (p is EnteringHome || p is EnteringRoot) && e is Completed {
        ActionKind::ReadEnvironment
    } else if p is ReadingEnvironment && e is EnvironmentRead {
        if e->has_sock {
            ActionKind::OpenSession
        } else {
            ActionKind::Abort(ErrorKind::MissingEnvironment)
        }
    } else if p is OpeningSession && e is Completed {
        ActionKind::Launch
    } else if p is Launching && e is Forked {
        ActionKind::Supervise
    } else if p is Supervising && e is Completed {
        ActionKind::TearDown
    } else if p is TearingDown && e is Completed {
        ActionKind::Exit
    } else {
        ActionKind::Abort(ErrorKind::OutOfStep)
    }
}

/// The phase that follows `e` in phase `p`.
pub open spec fn next_phase(p: Phase, e: EventKind) -> Phase {
    let a = next_action(p, e);
    if p is Finished || p is Failed {
        p
    } else if a is Abort {
        Phase::Failed
    } else if p is AwaitInitiate {
        Phase::Authenticating
    } else if p is Authenticating {
        Phase::AwaitArgs
    } else if p is AwaitArgs {
        Phase::AwaitStart
    } else if p is AwaitStart {
        Phase::ResolvingUser
    } else if p is ResolvingUser {
        Phase::PreparingTerminal
    } else if p is PreparingTerminal {
        Phase::EnteringHome
    } else if p is EnteringHome && e is Failed {
        Phase::EnteringRoot
    } else if p is EnteringHome || p is EnteringRoot {
        Phase::ReadingEnvironment
    } else if p is ReadingEnvironment {
        Phase::OpeningSession
    } else if p is OpeningSession {
        Phase::Launching
    } else if p is Launching {
        Phase::Supervising
    } else if p is Supervising {
        Phase::TearingDown
    } else {
        Phase::Finished
    }
}

/// The native calls made while authenticating: the authentication itself
/// where asked for, then account management, then credentials.
pub open spec fn auth_steps_of(authenticate: bool) -> Seq<AuthStep> {
    if authenticate {
        seq![AuthStep::Authenticate, AuthStep::AcctMgmt, AuthStep::EstablishCredentials]
    } else {
        seq![AuthStep::AcctMgmt, AuthStep::EstablishCredentials]
    }
}

/// The launched child's steps: supplementary groups, group identity, user
/// identity, the parent-death signal, then the exec.
pub open spec fn child_steps_of() -> Seq<ChildStep> {
    seq![ChildStep::InitGroups, ChildStep::SetGid, ChildStep::SetUid, ChildStep::ArmDeathSignal, ChildStep::Exec]
}

pub open spec fn position_of(s: Seq<ChildStep>, c: ChildStep) -> int {
    s.index_of(c)
}

/// The environment handed to the native transaction before the session is
/// opened, in this order.
pub open spec fn session_env_of(
    class: Seq<char>,
    name: Seq<char>,
    home: Seq<char>,
    shell: Seq<char>,
    pwd: Seq<char>,
    sock: Seq<char>,
    term: Option<Seq<char>>,
) -> Seq<Seq<char>> {
    seq![
        entry_of("XDG_SEAT"@, "seat0"@),
        entry_of("XDG_SESSION_CLASS"@, class),
        entry_of("USER"@, name),
        entry_of("LOGNAME"@, name),
        entry_of("HOME"@, home),
        entry_of("SHELL"@, shell),
        entry_of("PWD"@, pwd),
        entry_of("GREETD_SOCK"@, sock),
        entry_of("TERM"@, if term is Some { term->0 } else { "linux"@ }),
    ]
}

/// `r` is the terminal setup for `tty`.
pub open spec fn setup_matches(tty: TerminalMode, r: Option<TerminalSetup>) -> bool {
    match tty {
        TerminalMode::Stdin => r is None,
        TerminalMode::Terminal { path, vt, switch } => {
            &&& r is Some
            &&& r->0.path == path
            &&& r->0.vt == vt
            &&& r->0.switch == switch
            &&& r->0.tty_item@ == "tty"@ + decimal_of(vt as nat)
            &&& r->0.vtnr_entry@ == entry_of("XDG_VTNR"@, decimal_of(vt as nat))
        },
    }
}

pub open spec fn views(v: Seq<String>) -> Seq<Seq<char>> {
    v.map_values(|s: String| s@)
}

pub open spec fn opt_view(o: Option<String>) -> Option<Seq<char>> {
    if o is Some { Some(o->0@) } else { None }
}

/// The native calls made while authenticating.
pub fn auth_steps(authenticate: bool) -> (r: Vec<AuthStep>)
    ensures
        r@ == auth_steps_of(authenticate),
{
    let mut v: Vec<AuthStep> = Vec::new();
    if authenticate {
        v.push(AuthStep::Authenticate);
    }
    v.push(AuthStep::AcctMgmt);
    v.push(AuthStep::EstablishCredentials);
    assert(v@ =~= auth_steps_of(authenticate));
    v
}

/// The steps of the launched child, in the order that drops privilege for
/// good: groups before the group identity, the group identity before the user
/// identity.
pub fn privilege_drop_steps() -> (r: Vec<ChildStep>)
    ensures
        r@ == child_steps_of(),
        position_of(r@, ChildStep::InitGroups) < position_of(r@, ChildStep::SetGid),
        position_of(r@, ChildStep::SetGid) < position_of(r@, ChildStep::SetUid),
        position_of(r@, ChildStep::SetUid) < position_of(r@, ChildStep::Exec),
{
    let mut v: Vec<ChildStep> = Vec::new();
    v.push(ChildStep::InitGroups);
    v.push(ChildStep::SetGid);
    v.push(ChildStep::SetUid);
    v.push(ChildStep::ArmDeathSignal);
    v.push(ChildStep::Exec);
    assert(v@ =~= child_steps_of());
    proof {
        let s = child_steps_of();
        assert(s[0] == ChildStep::InitGroups);
        assert(s[1] == ChildStep::SetGid);
        assert(s[2] == ChildStep::SetUid);
        assert(s[4] == ChildStep::Exec);
    }
    v
}

/// The environment handed to the native transaction before the session is
/// opened: seat, class, user and login name, home, shell, working directory,
/// socket address and terminal type (`linux` where none is set).
pub fn session_env(class: &str, user: &UserRecord, pwd: &str, sock: &str, term: &Option<String>) -> (r:
    Vec<String>)
    ensures
        views(r@) == session_env_of(
            class@,
            user.name@,
            user.home@,
            user.shell@,
            pwd@,
            sock@,
            opt_view(*term),
        ),
{
    let mut v: Vec<String> = Vec::new();
    v.push(env_entry("XDG_SEAT", "seat0"));
    v.push(env_entry("XDG_SESSION_CLASS", class));
    v.push(env_entry("USER", user.name.as_str()));
    v.push(env_entry("LOGNAME", user.name.as_str()));
    v.push(env_entry("HOME", user.home.as_str()));
    v.push(env_entry("SHELL", user.shell.as_str()));
    v.push(env_entry("PWD", pwd));
    v.push(env_entry("GREETD_SOCK", sock));
    match term {
        Some(t) => v.push(env_entry("TERM", t.as_str())),
        None => v.push(env_entry("TERM", "linux")),
    }
    assert(views(v@) =~= session_env_of(
        class@,
        user.name@,
        user.home@,
        user.shell@,
        pwd@,
        sock@,
        opt_view(*term),
    ));
    v
}

/// The terminal setup for `tty`: none where the session inherits the
/// standard streams.
pub fn terminal_setup(tty: &TerminalMode) -> (r: Option<TerminalSetup>)
    ensures
        setup_matches(*tty, r),
{
    match tty {
        TerminalMode::Stdin => None,
        TerminalMode::Terminal { path, vt, switch } => {
            let digits = decimal(*vt);
            let tty_item = String::from_str("tty").concat(digits.as_str());
            let vtnr_entry = env_entry("XDG_VTNR", digits.as_str());
            Some(TerminalSetup { path: path.clone(), vt: *vt, switch: *switch, tty_item, vtnr_entry })
        },
    }
}

/// Whether the worker must activate the target console: a switch was asked
/// for and the target is not already the active console.
pub fn needs_switch(switch: bool, target: usize, active: usize) -> (r: bool)
    ensures
        r == (switch && target != active),
{
    switch && target != active
}

/// The phases in which the login request is known.
pub open spec fn holds_login(p: Phase) -> bool {
    p is Authenticating || p is AwaitArgs || p is AwaitStart || p is ResolvingUser || holds_user(p)
}

/// The phases in which the user record is known.
pub open spec fn holds_user(p: Phase) -> bool {
    p is PreparingTerminal || p is EnteringHome || p is EnteringRoot || p is ReadingEnvironment
        || p is OpeningSession
}

/// The state of one login attempt.
pub struct Worker {
    pub phase: Phase,
    pub login: Option<Login>,
    pub cmd: Vec<String>,
    pub user: Option<UserRecord>,
    pub pwd: String,
}

/// What `step` keeps: the login request, the command, the user record and
/// the working directory change only in the one transition that sets each.
pub open spec fn step_frame(pre: Worker, post: Worker, e: WorkerEvent) -> bool {
    let p = pre.phase;
    &&& !(p is AwaitInitiate && e is Received && e->Received_0 is InitiateLogin) ==> post.login == pre.login
    &&& !(p is AwaitArgs && e is Received && e->Received_0 is Args) ==> post.cmd == pre.cmd
    &&& !(p is ResolvingUser && e is UserResolved) ==> post.user == pre.user
    &&& !((p is EnteringHome || p is EnteringRoot) && e is Completed) ==> post.pwd == pre.pwd
}

/// What `step` does with the payloads: which values it keeps and which it
/// hands to the action, for each transition that carries data.
pub open spec fn step_detail(pre: Worker, post: Worker, e: WorkerEvent, r: WorkerAction) -> bool {
    let p = pre.phase;
    let login = pre.login->0;
    let user = pre.user->0;
    &&& (e is Failed && !(p is Finished || p is Failed || p is EnteringHome)) ==> r == WorkerAction::Abort(e->Failed_0)
    &&& (awaiting(p) && e is Received && e->Received_0 is Cancel) ==> r == WorkerAction::Abort(Error::Cancelled)
    &&& (awaiting(p) && e is Received && !(e->Received_0 is Cancel) && kind_of(e->Received_0) != expected_message(p))
        ==> r == WorkerAction::Abort(Error::UnexpectedMessage { expected: expected_message(p), got: kind_of(e->Received_0) })
    &&& (p is AwaitInitiate && e is Received && e->Received_0 is InitiateLogin) ==> {
        let m = e->Received_0;
        &&& post.login == Some(Login {
            service: m->InitiateLogin_service,
            class: m->InitiateLogin_class,
            user: m->InitiateLogin_user,
            authenticate: m->InitiateLogin_authenticate,
            tty: m->InitiateLogin_tty,
            source_profile: m->InitiateLogin_source_profile,
        })
        &&& r is Authenticate
        &&& r->Authenticate_service == m->InitiateLogin_service
        &&& r->Authenticate_user == m->InitiateLogin_user
        &&& r->Authenticate_steps@ == auth_steps_of(m->InitiateLogin_authenticate)
    }
    &&& (p is Authenticating && e is Completed) ==> r == WorkerAction::SendAndReceive(SessionChildToParent::Success)
    &&& (p is AwaitArgs && e is Received && e->Received_0 is Args) ==> post.cmd == e->Received_0->Args_cmd
        && r == WorkerAction::SendAndReceive(SessionChildToParent::Success)
    &&& (p is AwaitStart && e is Received && e->Received_0 is Start) ==> r == WorkerAction::ResolveUser
    &&& (p is ResolvingUser && e is UserResolved) ==> post.user == Some(e->UserResolved_0)
        && r is PrepareTerminal && setup_matches(login.tty, r->PrepareTerminal_terminal)
    &&& (p is PreparingTerminal && e is Completed) ==> r == WorkerAction::EnterDirectory(user.home)
    &&& (p is EnteringHome && e is Failed) ==> r is EnterDirectory && r->EnterDirectory_0@ == "/"@
    &&& (p is EnteringHome && e is Completed) ==> post.pwd == user.home && r == WorkerAction::ReadEnvironment
    &&& (p is EnteringRoot && e is Completed) ==> post.pwd@ == "/"@ && r == WorkerAction::ReadEnvironment
    &&& (p is ReadingEnvironment && e is EnvironmentRead && e->EnvironmentRead_sock is None) ==> r is Abort
        && r->Abort_0 is MissingEnvironment && r->Abort_0->MissingEnvironment_0@ == "GREETD_SOCK"@
    &&& (p is ReadingEnvironment && e is EnvironmentRead && e->EnvironmentRead_sock is Some) ==> r is OpenSession
        && views(r->OpenSession_env@) == session_env_of(
            login.class@,
            user.name@,
            user.home@,
            user.shell@,
            pre.pwd@,
            e->EnvironmentRead_sock->0@,
            opt_view(e->EnvironmentRead_term),
        )
    &&& (p is OpeningSession && e is Completed) ==> {
        &&& r is Launch
        &&& r->Launch_username == user.name
        &&& r->Launch_uid == user.uid
        &&& r->Launch_gid == user.gid
        &&& r->Launch_command@ == shell_command_of(pre.cmd@, login.source_profile)
        &&& r->Launch_steps@ == child_steps_of()
    }
    &&& (p is Launching && e is Forked) ==> r == (WorkerAction::Supervise {
        report: SessionChildToParent::FinalChildPid(e->Forked_0),
        pid: e->Forked_0,
    })
}

impl Worker {
    /// The state holds the login request and the user record in the phases
    /// that need them.
    pub open spec fn wf(&self) -> bool {
        &&& holds_login(self.phase) ==> self.login is Some
        &&& holds_user(self.phase) ==> self.user is Some
    }

    /// A worker that awaits the parent's `InitiateLogin`; its first action is
    /// to receive.
    pub fn new() -> (r: Worker)
        ensures
            r.wf(),
            r.phase == Phase::AwaitInitiate,
    {
        Worker { phase: Phase::AwaitInitiate, login: None, cmd: Vec::new(), user: None, pwd: String::new() }
    }

    fn fail(&mut self, e: Error) -> (r: WorkerAction)
        ensures
            final(self).phase == Phase::Failed,
            final(self).login == old(self).login,
            final(self).cmd == old(self).cmd,
            final(self).user == old(self).user,
            final(self).pwd == old(self).pwd,
            r == WorkerAction::Abort(e),
    {
        self.phase = Phase::Failed;
        WorkerAction::Abort(e)
    }

    /// Handles a message received in an awaiting phase.
    fn on_message(&mut self, m: ParentToSessionChild) -> (r: WorkerAction)
        requires
            old(self).wf(),
            awaiting(old(self).phase),
        ensures
            final(self).wf(),
            final(self).phase == next_phase(old(self).phase, EventKind::Received(kind_of(m))),
            action_kind(r) == next_action(old(self).phase, EventKind::Received(kind_of(m))),
            step_detail(*old(self), *final(self), WorkerEvent::Received(m), r),
            step_frame(*old(self), *final(self), WorkerEvent::Received(m)),
    {
        let expected = if self.phase == Phase::AwaitInitiate {
            MessageKind::InitiateLogin
        } else if self.phase == Phase::AwaitArgs {
            MessageKind::Args
        } else {
            MessageKind::Start
        };
        let got = m.kind();
        if got == expected {
            match m {
                ParentToSessionChild::InitiateLogin { service, class, user, authenticate, tty, source_profile } => {
                    let action = WorkerAction::Authenticate {
                        service: service.clone(),
                        user: user.clone(),
                        steps: auth_steps(authenticate),
                    };
                    self.login = Some(Login { service, class, user, authenticate, tty, source_profile });
                    self.phase = Phase::Authenticating;
                    action
                },
                ParentToSessionChild::Args { cmd } => {
                    self.cmd = cmd;
                    self.phase = Phase::AwaitStart;
                    WorkerAction::SendAndReceive(SessionChildToParent::Success)
                },
                _ => {
                    self.phase = Phase::ResolvingUser;
                    WorkerAction::ResolveUser
                },
            }
        } else if got == MessageKind::Cancel {
            self.fail(Error::Cancelled)
        } else {
            self.fail(Error::UnexpectedMessage { expected, got })
        }
    }

    /// Takes the outcome of the last action and returns the next one.
    pub fn step(&mut self, event: WorkerEvent) -> (r: WorkerAction)
        requires
            old(self).wf(),
        ensures
            final(self).wf(),
            final(self).phase == next_phase(old(self).phase, event_kind(event)),
            action_kind(r) == next_action(old(self).phase, event_kind(event)),
            step_detail(*old(self), *final(self), event, r),
            step_frame(*old(self), *final(self), event),
    {
        let p = self.phase;
        if p == Phase::Finished || p == Phase::Failed {
            return WorkerAction::Exit;
        }
        match event {
            WorkerEvent::Failed(e) => {
                if p == Phase::EnteringHome {
                    self.phase = Phase::EnteringRoot;
                    WorkerAction::EnterDirectory(String::from_str("/"))
                } else {
                    self.fail(e)
                }
            },
            WorkerEvent::Received(m) => {
                if p == Phase::AwaitInitiate || p == Phase::AwaitArgs || p == Phase::AwaitStart {
                    self.on_message(m)
                } else {
                    self.fail(Error::OutOfStep)
                }
            },
            WorkerEvent::Completed => {
                if p == Phase::Authenticating {
                    self.phase = Phase::AwaitArgs;
                    WorkerAction::SendAndReceive(SessionChildToParent::Success)
                } else if p == Phase::PreparingTerminal {
                    let home = self.user.as_ref().unwrap().home.clone();
                    self.phase = Phase::EnteringHome;
                    WorkerAction::EnterDirectory(home)
                } else if p == Phase::EnteringHome {
                    self.pwd = self.user.as_ref().unwrap().home.clone();
                    self.phase = Phase::ReadingEnvironment;
                    WorkerAction::ReadEnvironment
                } else if p == Phase::EnteringRoot {
                    self.pwd = String::from_str("/");
                    self.phase = Phase::ReadingEnvironment;
                    WorkerAction::ReadEnvironment
                } else if p == Phase::OpeningSession {
                    let user = self.user.as_ref().unwrap();
                    let login = self.login.as_ref().unwrap();
                    let action = WorkerAction::Launch {
                        username: user.name.clone(),
                        uid: user.uid,
                        gid: user.gid,
                        command: shell_command(&self.cmd, login.source_profile),
                        steps: privilege_drop_steps(),
                    };
                    self.phase = Phase::Launching;
                    action
                } else if p == Phase::Supervising {
                    self.phase = Phase::TearingDown;
                    WorkerAction::TearDown
                } else if p == Phase::TearingDown {
                    self.phase = Phase::Finished;
                    WorkerAction::Exit
                } else {
                    self.fail(Error::OutOfStep)
                }
            },
            WorkerEvent::UserResolved(u) => {
                if p == Phase::ResolvingUser {
                    let terminal = terminal_setup(&self.login.as_ref().unwrap().tty);
                    self.user = Some(u);
                    self.phase = Phase::PreparingTerminal;
                    WorkerAction::PrepareTerminal { terminal }
                } else {
                    self.fail(Error::OutOfStep)
                }
            },
            WorkerEvent::EnvironmentRead { sock, term } => {
                if p == Phase::ReadingEnvironment {
                    match sock {
                        Some(s) => {
                            let env = session_env(
                                self.login.as_ref().unwrap().class.as_str(),
                                self.user.as_ref().unwrap(),
                                self.pwd.as_str(),
                                s.as_str(),
                                &term,
                            );
                            self.phase = Phase::OpeningSession;
                            WorkerAction::OpenSession { env }
                        },
                        None => self.fail(Error::MissingEnvironment(String::from_str("GREETD_SOCK"))),
                    }
                } else {
                    self.fail(Error::OutOfStep)
                }
            },
            WorkerEvent::Forked(pid) => {
                if p == Phase::Launching {
                    self.phase = Phase::Supervising;
                    WorkerAction::Supervise { report: SessionChildToParent::FinalChildPid(pid), pid }
                } else {
                    self.fail(Error::OutOfStep)
                }
            },
        }
    }
}

/// The actions that the events `evs` draw from a worker in phase `p`, one per
/// event, in order.
pub open spec fn actions_of(p: Phase, evs: Seq<EventKind>) -> Seq<ActionKind>
    decreases evs.len(),
{
    if evs.len() == 0 {
        Seq::empty()
    } else {
        seq![next_action(p, evs[0])] + actions_of(next_phase(p, evs[0]), evs.drop_first())
    }
}

/// Once the attempt has failed, whatever happens next only makes the worker
/// exit: no message is sent and no step of the login is taken.
pub proof fn lemma_failure_is_final(evs: Seq<EventKind>)
    ensures
        actions_of(Phase::Failed, evs).len() == evs.len(),
        forall|i: int| 0 <= i < evs.len() ==> #[trigger] actions_of(Phase::Failed, evs)[i] == ActionKind::Exit,
    decreases evs.len(),
{
    if evs.len() > 0 {
        lemma_failure_is_final(evs.drop_first());
        let rest = actions_of(Phase::Failed, evs.drop_first());
        assert forall|i: int| 0 <= i < evs.len() implies #[trigger] actions_of(Phase::Failed, evs)[i]
            == ActionKind::Exit by {
            if i > 0 {
                assert(actions_of(Phase::Failed, evs)[i] == rest[i - 1]);
            }
        }
    }
}

/// A message other than the one awaited, and other than `Cancel`, ends the
/// attempt with a protocol mismatch; nothing after it advances the login.
pub proof fn lemma_out_of_order_message_ends_attempt(p: Phase, m: MessageKind, later: Seq<EventKind>)
    requires
        awaiting(p),
        m != expected_message(p),
        m != MessageKind::Cancel,
    ensures
        next_phase(p, EventKind::Received(m)) == Phase::Failed,
        next_action(p, EventKind::Received(m)) == ActionKind::Abort(ErrorKind::UnexpectedMessage),
        forall|i: int| 0 <= i < later.len() ==> #[trigger] actions_of(next_phase(p, EventKind::Received(m)), later)[i]
            == ActionKind::Exit,
{
    lemma_failure_is_final(later);
}

/// `Cancel` received while a message is awaited ends the attempt as
/// cancelled, and nothing after it advances the login; in any other phase it
/// never reads as a cancellation.
pub proof fn lemma_cancel_while_awaiting(p: Phase, later: Seq<EventKind>)
    ensures
        awaiting(p) ==> next_phase(p, EventKind::Received(MessageKind::Cancel)) == Phase::Failed,
        awaiting(p) ==> next_action(p, EventKind::Received(MessageKind::Cancel)) == ActionKind::Abort(
            ErrorKind::Cancelled,
        ),
        awaiting(p) ==> forall|i: int| 0 <= i < later.len() ==> #[trigger] actions_of(
            next_phase(p, EventKind::Received(MessageKind::Cancel)),
            later,
        )[i] == ActionKind::Exit,
        !awaiting(p) ==> next_action(p, EventKind::Received(MessageKind::Cancel)) != ActionKind::Abort(
            ErrorKind::Cancelled,
        ),
{
    lemma_failure_is_final(later);
}

/// The phases that follow the acceptance of `Start`.
pub open spec fn after_start(p: Phase) -> bool {
    !(p is AwaitInitiate || p is Authenticating || p is AwaitArgs || p is AwaitStart)
}

/// An action that reads a message from the parent, or answers one.
pub open spec fn talks_to_parent(a: ActionKind) -> bool {
    a is Receive || a is SendAndReceive
}

/// From a phase after `Start`, whatever events follow, the worker stays
/// after `Start` and receives no message; a message that is handed to it
/// anyway, `Cancel` included, is out of step (or ignored once the attempt
/// is over), never a cancellation.
pub proof fn lemma_no_message_after_start(p: Phase, later: Seq<EventKind>)
    requires
        after_start(p),
    ensures
        actions_of(p, later).len() == later.len(),
        forall|i: int| 0 <= i < later.len() ==> !talks_to_parent(#[trigger] actions_of(p, later)[i])
            && (later[i] is Received ==> actions_of(p, later)[i] == ActionKind::Abort(ErrorKind::OutOfStep)
            || actions_of(p, later)[i] == ActionKind::Exit),
    decreases later.len(),
{
    if later.len() > 0 {
        let q = next_phase(p, later[0]);
        assert(after_start(q));
        lemma_no_message_after_start(q, later.drop_first());
        let rest = actions_of(q, later.drop_first());
        assert forall|i: int| 0 <= i < later.len() implies !talks_to_parent(#[trigger] actions_of(p, later)[i])
            && (later[i] is Received ==> actions_of(p, later)[i] == ActionKind::Abort(ErrorKind::OutOfStep)
            || actions_of(p, later)[i] == ActionKind::Exit) by {
            if i > 0 {
                assert(actions_of(p, later)[i] == rest[i - 1]);
            } else {
                assert(actions_of(p, later)[0] == next_action(p, later[0]));
            }
        }
    }
}

/// Accepting `Start` leaves the phases that await messages for good: no
/// later message is received, and a `Cancel` is never acted on as one.
pub proof fn lemma_cancel_unobserved_after_start(later: Seq<EventKind>)
    ensures
        next_phase(Phase::AwaitStart, EventKind::Received(MessageKind::Start)) == Phase::ResolvingUser,
        forall|i: int| 0 <= i < later.len() ==> !talks_to_parent(#[trigger] actions_of(Phase::ResolvingUser, later)[i])
            && (later[i] == EventKind::Received(MessageKind::Cancel) ==> actions_of(Phase::ResolvingUser, later)[i]
            != ActionKind::Abort(ErrorKind::Cancelled)),
{
    lemma_no_message_after_start(Phase::ResolvingUser, later);
}

/// An unusable home directory is no failure: the worker falls back to the
/// root directory and goes on to read its environment.
pub proof fn lemma_home_falls_back_to_root(k: ErrorKind)
    ensures
        next_phase(Phase::EnteringHome, EventKind::Failed(k)) == Phase::EnteringRoot,
        next_action(Phase::EnteringHome, EventKind::Failed(k)) == ActionKind::EnterDirectory,
        next_phase(Phase::EnteringRoot, EventKind::Completed) == Phase::ReadingEnvironment,
        next_action(Phase::EnteringRoot, EventKind::Completed) == ActionKind::ReadEnvironment,
{
}

/// Without a socket address in its environment the worker fails while
/// building the session environment, and never opens the session.
pub proof fn lemma_missing_socket_never_opens_session(later: Seq<EventKind>)
    ensures
        next_action(Phase::ReadingEnvironment, EventKind::EnvironmentRead { has_sock: false })
            == ActionKind::Abort(ErrorKind::MissingEnvironment),
        forall|i: int| 0 <= i < later.len() ==> #[trigger] actions_of(
            next_phase(Phase::ReadingEnvironment, EventKind::EnvironmentRead { has_sock: false }),
            later,
        )[i] != ActionKind::OpenSession,
{
    lemma_failure_is_final(later);
}

/// A login that goes through: the worker authenticates, acknowledges the
/// arguments, takes the terminal, enters the home directory, hands the
/// environment over before it opens the session, launches, supervises and
/// tears down, in this order.
pub proof fn lemma_successful_login()
    ensures
        actions_of(
            Phase::AwaitInitiate,
            seq![
                EventKind::Received(MessageKind::InitiateLogin),
                EventKind::Completed,
                EventKind::Received(MessageKind::Args),
                EventKind::Received(MessageKind::Start),
                EventKind::UserResolved,
                EventKind::Completed,
                EventKind::Completed,
                EventKind::EnvironmentRead { has_sock: true },
                EventKind::Completed,
                EventKind::Forked,
                EventKind::Completed,
                EventKind::Completed,
            ],
        ) == seq![
            ActionKind::Authenticate,
            ActionKind::SendAndReceive,
            ActionKind::SendAndReceive,
            ActionKind::ResolveUser,
            ActionKind::PrepareTerminal,
            ActionKind::EnterDirectory,
            ActionKind::ReadEnvironment,
            ActionKind::OpenSession,
            ActionKind::Launch,
            ActionKind::Supervise,
            ActionKind::TearDown,
            ActionKind::Exit,
        ],
{
    let evs = seq![
        EventKind::Received(MessageKind::InitiateLogin),
        EventKind::Completed,
        EventKind::Received(MessageKind::Args),
        EventKind::Received(MessageKind::Start),
        EventKind::UserResolved,
        EventKind::Completed,
        EventKind::Completed,
        EventKind::EnvironmentRead { has_sock: true },
        EventKind::Completed,
        EventKind::Forked,
        EventKind::Completed,
        EventKind::Completed,
    ];
    reveal_with_fuel(actions_of, 13);
    assert(evs.drop_first() =~= evs.subrange(1, 12));
    assert(actions_of(Phase::AwaitInitiate, evs) =~= seq![
        ActionKind::Authenticate,
        ActionKind::SendAndReceive,
        ActionKind::SendAndReceive,
        ActionKind::ResolveUser,
        ActionKind::PrepareTerminal,
        ActionKind::EnterDirectory,
        ActionKind::ReadEnvironment,
        ActionKind::OpenSession,
        ActionKind::Launch,
        ActionKind::Supervise,
        ActionKind::TearDown,
        ActionKind::Exit,
    ]);
}

} // verus!
