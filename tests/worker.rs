use greetd_worker::protocol::{Error, MessageKind, ParentToSessionChild, SessionChildToParent, TerminalMode};
use greetd_worker::worker::{
    auth_steps, needs_switch, privilege_drop_steps, session_env, terminal_setup, AuthStep, ChildStep,
    Phase, UserRecord, Worker, WorkerAction, WorkerEvent,
};

fn initiate(authenticate: bool, tty: TerminalMode, source_profile: bool) -> ParentToSessionChild {
    ParentToSessionChild::InitiateLogin {
        service: "greetd".to_string(),
        class: "user".to_string(),
        user: "alice".to_string(),
        authenticate,
        tty,
        source_profile,
    }
}

fn alice() -> UserRecord {
    UserRecord {
        name: "alice".to_string(),
        home: "/home/alice".to_string(),
        shell: "/bin/zsh".to_string(),
        uid: 1000,
        gid: 1001,
    }
}

fn received(m: ParentToSessionChild) -> WorkerEvent {
    WorkerEvent::Received(m)
}

/// Drives a worker to the phase in which it awaits `Args`.
fn authenticated() -> Worker {
    let mut w = Worker::new();
    w.step(received(initiate(true, TerminalMode::Stdin, false)));
    w.step(WorkerEvent::Completed);
    assert_eq!(w.phase, Phase::AwaitArgs);
    w
}

/// Drives a worker to the phase in which it enters the home directory.
fn entering_home(cmd: Vec<String>) -> Worker {
    let mut w = authenticated();
    w.step(received(ParentToSessionChild::Args { cmd }));
    w.step(received(ParentToSessionChild::Start));
    w.step(WorkerEvent::UserResolved(alice()));
    w.step(WorkerEvent::Completed);
    assert_eq!(w.phase, Phase::EnteringHome);
    w
}

#[test]
fn failed_authentication_ends_the_attempt() {
    let mut w = Worker::new();
    let a = w.step(received(initiate(true, TerminalMode::Stdin, false)));
    assert_eq!(
        a,
        WorkerAction::Authenticate {
            service: "greetd".to_string(),
            user: "alice".to_string(),
            steps: vec![AuthStep::Authenticate, AuthStep::AcctMgmt, AuthStep::EstablishCredentials],
        }
    );
    let a = w.step(WorkerEvent::Failed(Error::Native("authentication failure".to_string())));
    assert_eq!(a, WorkerAction::Abort(Error::Native("authentication failure".to_string())));
    assert_eq!(w.phase, Phase::Failed);
    let a = w.step(received(ParentToSessionChild::Args { cmd: vec!["/bin/true".to_string()] }));
    assert_eq!(a, WorkerAction::Exit);
    let a = w.step(received(ParentToSessionChild::Start));
    assert_eq!(a, WorkerAction::Exit);
    assert_eq!(w.phase, Phase::Failed);
}

#[test]
fn successful_login_runs_to_teardown() {
    let mut w = Worker::new();
    let a = w.step(received(initiate(false, TerminalMode::Stdin, false)));
    assert_eq!(
        a,
        WorkerAction::Authenticate {
            service: "greetd".to_string(),
            user: "alice".to_string(),
            steps: vec![AuthStep::AcctMgmt, AuthStep::EstablishCredentials],
        }
    );
    assert_eq!(w.step(WorkerEvent::Completed), WorkerAction::SendAndReceive(SessionChildToParent::Success));
    let a = w.step(received(ParentToSessionChild::Args { cmd: vec!["/bin/true".to_string()] }));
    assert_eq!(a, WorkerAction::SendAndReceive(SessionChildToParent::Success));
    assert_eq!(w.step(received(ParentToSessionChild::Start)), WorkerAction::ResolveUser);
    assert_eq!(w.step(WorkerEvent::UserResolved(alice())), WorkerAction::PrepareTerminal { terminal: None });
    assert_eq!(w.step(WorkerEvent::Completed), WorkerAction::EnterDirectory("/home/alice".to_string()));
    assert_eq!(w.step(WorkerEvent::Completed), WorkerAction::ReadEnvironment);
    let a = w.step(WorkerEvent::EnvironmentRead {
        sock: Some("/run/greetd.sock".to_string()),
        term: Some("xterm".to_string()),
    });
    assert_eq!(
        a,
        WorkerAction::OpenSession {
            env: vec![
                "XDG_SEAT=seat0".to_string(),
                "XDG_SESSION_CLASS=user".to_string(),
                "USER=alice".to_string(),
                "LOGNAME=alice".to_string(),
                "HOME=/home/alice".to_string(),
                "SHELL=/bin/zsh".to_string(),
                "PWD=/home/alice".to_string(),
                "GREETD_SOCK=/run/greetd.sock".to_string(),
                "TERM=xterm".to_string(),
            ],
        }
    );
    let a = w.step(WorkerEvent::Completed);
    assert_eq!(
        a,
        WorkerAction::Launch {
            username: "alice".to_string(),
            uid: 1000,
            gid: 1001,
            command: "exec /bin/true".to_string(),
            steps: vec![
                ChildStep::InitGroups,
                ChildStep::SetGid,
                ChildStep::SetUid,
                ChildStep::ArmDeathSignal,
                ChildStep::Exec,
            ],
        }
    );
    let a = w.step(WorkerEvent::Forked(4242));
    assert_eq!(a, WorkerAction::Supervise { report: SessionChildToParent::FinalChildPid(4242), pid: 4242 });
    assert_eq!(w.step(WorkerEvent::Completed), WorkerAction::TearDown);
    assert_eq!(w.step(WorkerEvent::Completed), WorkerAction::Exit);
    assert_eq!(w.phase, Phase::Finished);
}

#[test]
fn inaccessible_home_falls_back_to_root() {
    let mut w = entering_home(vec!["sway".to_string()]);
    let a = w.step(WorkerEvent::Failed(Error::Io("permission denied".to_string())));
    assert_eq!(a, WorkerAction::EnterDirectory("/".to_string()));
    assert_eq!(w.phase, Phase::EnteringRoot);
    assert_eq!(w.step(WorkerEvent::Completed), WorkerAction::ReadEnvironment);
    assert_eq!(w.pwd, "/");
    let a = w.step(WorkerEvent::EnvironmentRead { sock: Some("s".to_string()), term: None });
    match a {
        WorkerAction::OpenSession { env } => {
            assert_eq!(env[2], "USER=alice");
            assert_eq!(env[4], "HOME=/home/alice");
            assert_eq!(env[6], "PWD=/");
            assert_eq!(env[8], "TERM=linux");
        }
        other => panic!("unexpected action {:?}", other),
    }
}

#[test]
fn root_directory_failure_is_fatal() {
    let mut w = entering_home(vec!["sway".to_string()]);
    w.step(WorkerEvent::Failed(Error::Io("gone".to_string())));
    let a = w.step(WorkerEvent::Failed(Error::Io("gone too".to_string())));
    assert_eq!(a, WorkerAction::Abort(Error::Io("gone too".to_string())));
}

#[test]
fn missing_socket_address_fails_before_session_opens() {
    let mut w = entering_home(vec!["sway".to_string()]);
    w.step(WorkerEvent::Completed);
    assert_eq!(w.phase, Phase::ReadingEnvironment);
    let a = w.step(WorkerEvent::EnvironmentRead { sock: None, term: Some("linux".to_string()) });
    assert_eq!(a, WorkerAction::Abort(Error::MissingEnvironment("GREETD_SOCK".to_string())));
    assert_eq!(w.step(WorkerEvent::Completed), WorkerAction::Exit);
    assert_eq!(w.phase, Phase::Failed);
}

#[test]
fn out_of_order_message_is_a_mismatch() {
    let mut w = authenticated();
    let a = w.step(received(ParentToSessionChild::Start));
    assert_eq!(
        a,
        WorkerAction::Abort(Error::UnexpectedMessage { expected: MessageKind::Args, got: MessageKind::Start })
    );
    assert_eq!(w.step(received(ParentToSessionChild::Args { cmd: vec![] })), WorkerAction::Exit);

    let mut w = Worker::new();
    let a = w.step(received(ParentToSessionChild::PamResponse { resp: None }));
    assert_eq!(
        a,
        WorkerAction::Abort(Error::UnexpectedMessage {
            expected: MessageKind::InitiateLogin,
            got: MessageKind::PamResponse,
        })
    );

    let mut w = authenticated();
    w.step(received(ParentToSessionChild::Args { cmd: vec![] }));
    let a = w.step(received(initiate(false, TerminalMode::Stdin, false)));
    assert_eq!(
        a,
        WorkerAction::Abort(Error::UnexpectedMessage { expected: MessageKind::Start, got: MessageKind::InitiateLogin })
    );
}

#[test]
fn cancel_while_awaiting_is_cancelled() {
    let mut w = Worker::new();
    assert_eq!(w.step(received(ParentToSessionChild::Cancel)), WorkerAction::Abort(Error::Cancelled));

    let mut w = authenticated();
    assert_eq!(w.step(received(ParentToSessionChild::Cancel)), WorkerAction::Abort(Error::Cancelled));

    let mut w = authenticated();
    w.step(received(ParentToSessionChild::Args { cmd: vec![] }));
    assert_eq!(w.step(received(ParentToSessionChild::Cancel)), WorkerAction::Abort(Error::Cancelled));
    assert_eq!(w.phase, Phase::Failed);
}

#[test]
fn cancel_after_start_is_not_a_cancellation() {
    let mut w = entering_home(vec![]);
    assert_eq!(w.step(received(ParentToSessionChild::Cancel)), WorkerAction::Abort(Error::OutOfStep));
}

#[test]
fn terminal_target_is_described() {
    let mut w = Worker::new();
    w.step(received(initiate(
        true,
        TerminalMode::Terminal { path: "/dev/tty7".to_string(), vt: 7, switch: true },
        true,
    )));
    w.step(WorkerEvent::Completed);
    w.step(received(ParentToSessionChild::Args { cmd: vec!["sway".to_string(), "-d".to_string()] }));
    w.step(received(ParentToSessionChild::Start));
    match w.step(WorkerEvent::UserResolved(alice())) {
        WorkerAction::PrepareTerminal { terminal: Some(t) } => {
            assert_eq!(t.path, "/dev/tty7");
            assert_eq!(t.vt, 7);
            assert!(t.switch);
            assert_eq!(t.tty_item, "tty7");
            assert_eq!(t.vtnr_entry, "XDG_VTNR=7");
        }
        other => panic!("unexpected action {:?}", other),
    }
    w.step(WorkerEvent::Completed);
    w.step(WorkerEvent::Completed);
    w.step(WorkerEvent::EnvironmentRead { sock: Some("s".to_string()), term: None });
    match w.step(WorkerEvent::Completed) {
        WorkerAction::Launch { command, .. } => assert_eq!(
            command,
            "[ -f /etc/profile ] && . /etc/profile; [ -f $HOME/.profile ] && . $HOME/.profile; exec sway -d"
        ),
        other => panic!("unexpected action {:?}", other),
    }
}

#[test]
fn event_out_of_step_fails() {
    let mut w = Worker::new();
    assert_eq!(w.step(WorkerEvent::Completed), WorkerAction::Abort(Error::OutOfStep));
    let mut w = authenticated();
    assert_eq!(w.step(WorkerEvent::Forked(1)), WorkerAction::Abort(Error::OutOfStep));
}

#[test]
fn privilege_drop_order() {
    let s = privilege_drop_steps();
    let pos = |c: ChildStep| s.iter().position(|x| *x == c).unwrap();
    assert!(pos(ChildStep::InitGroups) < pos(ChildStep::SetGid));
    assert!(pos(ChildStep::SetGid) < pos(ChildStep::SetUid));
    assert!(pos(ChildStep::SetUid) < pos(ChildStep::Exec));
    assert_eq!(s.len(), 5);
}

#[test]
fn auth_steps_follow_the_flag() {
    assert_eq!(auth_steps(true), vec![AuthStep::Authenticate, AuthStep::AcctMgmt, AuthStep::EstablishCredentials]);
    assert_eq!(auth_steps(false), vec![AuthStep::AcctMgmt, AuthStep::EstablishCredentials]);
}

#[test]
fn session_env_order_and_default_term() {
    let env = session_env("greeter", &alice(), "/", "/run/s", &None);
    assert_eq!(
        env,
        vec![
            "XDG_SEAT=seat0",
            "XDG_SESSION_CLASS=greeter",
            "USER=alice",
            "LOGNAME=alice",
            "HOME=/home/alice",
            "SHELL=/bin/zsh",
            "PWD=/",
            "GREETD_SOCK=/run/s",
            "TERM=linux",
        ]
    );
}

#[test]
fn stdin_target_takes_no_terminal() {
    assert_eq!(terminal_setup(&TerminalMode::Stdin), None);
}

#[test]
fn switch_only_when_asked_and_elsewhere() {
    assert!(needs_switch(true, 7, 1));
    assert!(!needs_switch(true, 7, 7));
    assert!(!needs_switch(false, 7, 1));
}
