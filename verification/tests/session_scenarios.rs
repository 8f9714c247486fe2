use scriptr::attributes::TerminalAttributes;
use scriptr::fault::{conclude, Failure, SessionError, Sink};
use scriptr::relay::{Relay, RelayAction, RelayEvent};
use scriptr::relay_model::Source;
use scriptr::session::{Session, SessionAction, SessionEvent};
use scriptr::session_model::{SessionHandles, SessionOutcome, CAPTURE_FILE};
use scriptr::shell::{resolve_shell, ShellVariable, SHELL_VARIABLE};
use scriptr::window::{get_window, WindowGeometry};

fn geometry() -> WindowGeometry {
    WindowGeometry { rows: 24, columns: 80, horizontal_pixels: 640, vertical_pixels: 384 }
}

fn cooked() -> TerminalAttributes {
    let mut control_chars = [0u8; 32];
    control_chars[libc::VINTR] = 3;
    control_chars[libc::VEOF] = 4;
    control_chars[libc::VMIN] = 0;
    control_chars[libc::VTIME] = 5;
    TerminalAttributes {
        input_flags: libc::ICRNL | libc::IXON | libc::BRKINT,
        output_flags: libc::OPOST | libc::ONLCR,
        control_flags: libc::CS7 | libc::PARENB | libc::CREAD,
        local_flags: libc::ECHO | libc::ICANON | libc::ISIG | libc::IEXTEN | libc::ECHOE,
        line_discipline: 0,
        control_chars,
        input_speed: libc::B38400,
        output_speed: libc::B38400,
    }
}

fn handles() -> SessionHandles {
    SessionHandles { master: 7, child: 4242 }
}

fn text(path: &str) -> ShellVariable {
    ShellVariable::Text { path: path.to_string() }
}

fn failure(primary: SessionError) -> Result<(), Failure> {
    Err(Failure { primary, secondary: None })
}

fn resolving() -> Session {
    Session::new()
        .step(SessionEvent::WindowQueried { status: 0, reported: geometry() })
        .step(SessionEvent::AttributesCaptured { attributes: cooked() })
}

fn launching() -> Session {
    resolving().step(SessionEvent::ShellVariableRead { variable: text("/bin/bash") })
}

fn entering_raw() -> Session {
    launching().step(SessionEvent::Launched {
        outcome: SessionOutcome::ParentRole { handles: handles() },
    })
}

fn relaying() -> Session {
    entering_raw().step(SessionEvent::AttributesApplied).step(SessionEvent::CaptureOpened)
}

fn relayed(event: RelayEvent) -> SessionEvent {
    SessionEvent::Relayed { event }
}

#[test]
fn session_starts_by_probing_the_window() {
    assert_eq!(Session::new(), Session::Probing);
    assert_eq!(Session::new().pending(), SessionAction::ProbeWindow);
    assert_eq!(Session::new().handles(), None);
}

#[test]
fn startup_goes_through_its_phases_in_order() {
    let session = Session::new();
    let session = session.step(SessionEvent::WindowQueried { status: 0, reported: geometry() });
    assert_eq!(session.pending(), SessionAction::CaptureAttributes);
    let session = session.step(SessionEvent::AttributesCaptured { attributes: cooked() });
    assert_eq!(session.pending(), SessionAction::ReadShellVariable);
    let session = session.step(SessionEvent::ShellVariableRead { variable: text("/bin/bash") });
    assert_eq!(
        session.pending(),
        SessionAction::Launch { geometry: geometry(), attributes: cooked() }
    );
    let session = session.step(SessionEvent::Launched {
        outcome: SessionOutcome::ParentRole { handles: handles() },
    });
    assert!(matches!(session.pending(), SessionAction::EnterRawMode { .. }));
    assert_eq!(session.handles(), Some(handles()));
    let session = session.step(SessionEvent::AttributesApplied);
    assert_eq!(session.pending(), SessionAction::OpenCapture);
    assert_eq!(session.handles(), Some(handles()));
    let session = session.step(SessionEvent::CaptureOpened);
    assert_eq!(session.pending(), SessionAction::Relay { action: RelayAction::Wait });
    assert_eq!(
        session,
        Session::Relaying { original: cooked(), handles: handles(), relay: Relay::Waiting }
    );
    assert_eq!(session.handles(), Some(handles()));
}

#[test]
fn raw_mode_turns_off_echo_and_line_editing() {
    let original = cooked();
    let raw = match entering_raw().pending() {
        SessionAction::EnterRawMode { attributes } => attributes,
        other => panic!("unexpected action {:?}", other),
    };
    assert_ne!(raw, original);
    assert_eq!(raw.local_flags & libc::ECHO, 0);
    assert_eq!(raw.local_flags & libc::ICANON, 0);
    assert_eq!(raw.local_flags & libc::ISIG, 0);
    assert_eq!(raw.local_flags & libc::IEXTEN, 0);
    assert_eq!(raw.local_flags & libc::ECHOE, libc::ECHOE);
    assert_eq!(raw.input_flags & (libc::ICRNL | libc::IXON | libc::BRKINT), 0);
    assert_eq!(raw.output_flags & libc::OPOST, 0);
    assert_eq!(raw.output_flags & libc::ONLCR, libc::ONLCR);
    assert_eq!(raw.control_flags & libc::CSIZE, libc::CS8);
    assert_eq!(raw.control_flags & libc::PARENB, 0);
    assert_eq!(raw.control_flags & libc::CREAD, libc::CREAD);
    assert_eq!(raw.control_chars[libc::VMIN], 1);
    assert_eq!(raw.control_chars[libc::VTIME], 0);
    assert_eq!(raw.control_chars[libc::VINTR], 3);
    assert_eq!(raw.input_speed, original.input_speed);
    assert_eq!(raw.output_speed, original.output_speed);
}

#[test]
fn raw_form_depends_on_the_snapshot_alone() {
    let first = entering_raw();
    let second = entering_raw();
    assert_eq!(first, second);
}

#[test]
fn keyboard_closure_exits_in_success_with_the_terminal_restored() {
    let session = relaying()
        .step(relayed(RelayEvent::Ready { keyboard: true, master: false }))
        .step(relayed(RelayEvent::ReadFailed));
    assert_eq!(session.pending(), SessionAction::Restore { attributes: cooked() });
    assert_eq!(session.handles(), None);
    let session = session.step(SessionEvent::AttributesApplied);
    assert_eq!(session.pending(), SessionAction::Exit { outcome: Ok(()) });
}

#[test]
fn shell_exit_exits_in_success_with_the_terminal_restored() {
    let session = relaying()
        .step(relayed(RelayEvent::Ready { keyboard: false, master: true }))
        .step(relayed(RelayEvent::ReadFailed));
    assert_eq!(session, Session::Restoring { original: cooked(), session: Ok(()) });
    assert_eq!(session.pending(), SessionAction::Restore { attributes: cooked() });
    let session = session.step(SessionEvent::AttributesApplied);
    assert_eq!(session, Session::Done { outcome: Ok(()) });
}

#[test]
fn whole_session_relays_and_restores() {
    let mut session = relaying();
    let mut to_master: Vec<u8> = Vec::new();
    let mut to_stdout: Vec<u8> = Vec::new();
    let mut to_capture: Vec<u8> = Vec::new();
    let script = vec![
        RelayEvent::Ready { keyboard: true, master: false },
        RelayEvent::ReadCompleted { bytes: b"echo hi\n".to_vec() },
        RelayEvent::WriteCompleted { count: 8 },
        RelayEvent::Ready { keyboard: false, master: true },
        RelayEvent::ReadCompleted { bytes: b"hi\n".to_vec() },
        RelayEvent::WriteCompleted { count: 3 },
        RelayEvent::WriteCompleted { count: 3 },
        RelayEvent::Ready { keyboard: false, master: true },
        RelayEvent::ReadFailed,
    ];
    for event in script {
        session = session.step(relayed(event));
        if let SessionAction::Relay { action: RelayAction::Write { sink, bytes } } =
            session.pending()
        {
            match sink {
                Sink::Master => to_master.extend_from_slice(bytes),
                Sink::Stdout => to_stdout.extend_from_slice(bytes),
                Sink::Capture => to_capture.extend_from_slice(bytes),
            }
        }
    }
    assert_eq!(to_master, b"echo hi\n".to_vec());
    assert_eq!(to_stdout, b"hi\n".to_vec());
    assert_eq!(to_capture, b"hi\n".to_vec());
    assert_eq!(session.pending(), SessionAction::Restore { attributes: cooked() });
    let session = session.step(SessionEvent::AttributesApplied);
    assert_eq!(session.pending(), SessionAction::Exit { outcome: Ok(()) });
}

#[test]
fn relay_actions_pass_through_the_session() {
    let session = relaying().step(relayed(RelayEvent::Ready { keyboard: true, master: true }));
    assert_eq!(
        session.pending(),
        SessionAction::Relay {
            action: RelayAction::Read { source: Source::Keyboard, capacity: 256 }
        }
    );
    let session = session.step(relayed(RelayEvent::ReadCompleted { bytes: b"ls\n".to_vec() }));
    assert_eq!(
        session.pending(),
        SessionAction::Relay { action: RelayAction::Write { sink: Sink::Master, bytes: b"ls\n" } }
    );
}

#[test]
fn refused_window_query_ends_the_session_at_once() {
    let session = Session::new().step(SessionEvent::WindowQueried {
        status: -1,
        reported: geometry(),
    });
    assert_eq!(
        session.pending(),
        SessionAction::Exit { outcome: failure(SessionError::DeviceQuery) }
    );
}

#[test]
fn failed_capture_ends_the_session_at_once() {
    let session = Session::new()
        .step(SessionEvent::WindowQueried { status: 0, reported: geometry() })
        .step(SessionEvent::CaptureFailed);
    assert_eq!(session, Session::Done { outcome: failure(SessionError::DeviceQuery) });
}

#[test]
fn undecodable_shell_is_reported_after_restoring() {
    let session =
        resolving().step(SessionEvent::ShellVariableRead { variable: ShellVariable::Undecodable });
    assert_eq!(session.pending(), SessionAction::Restore { attributes: cooked() });
    let session = session.step(SessionEvent::AttributesApplied);
    assert_eq!(
        session.pending(),
        SessionAction::Exit { outcome: failure(SessionError::ShellUndecodable) }
    );
}

#[test]
fn shell_with_a_zero_byte_is_reported_after_restoring() {
    let session =
        resolving().step(SessionEvent::ShellVariableRead { variable: text("/bin/\0sh") });
    assert_eq!(
        session,
        Session::Restoring { original: cooked(), session: Err(SessionError::ShellInteriorNul) }
    );
    let session = session.step(SessionEvent::AttributesApplied);
    assert_eq!(
        session.pending(),
        SessionAction::Exit { outcome: failure(SessionError::ShellInteriorNul) }
    );
}

#[test]
fn missing_pseudo_terminal_is_reported_after_restoring() {
    let session = launching().step(SessionEvent::PtyUnavailable);
    assert_eq!(session.pending(), SessionAction::Restore { attributes: cooked() });
    let session = session.step(SessionEvent::AttributesApplied);
    assert_eq!(
        session.pending(),
        SessionAction::Exit { outcome: failure(SessionError::PtyCreation) }
    );
}

#[test]
fn failed_spawn_is_reported_after_restoring() {
    let session = launching().step(SessionEvent::SpawnFailed);
    assert_eq!(session.pending(), SessionAction::Restore { attributes: cooked() });
    let session = session.step(SessionEvent::AttributesApplied);
    assert_eq!(
        session.pending(),
        SessionAction::Exit { outcome: failure(SessionError::ProcessSpawn) }
    );
}

#[test]
fn child_becomes_the_resolved_shell() {
    let session =
        launching().step(SessionEvent::Launched { outcome: SessionOutcome::ChildRole });
    assert_eq!(session.pending(), SessionAction::Exec { shell: "/bin/bash" });
    assert_eq!(session.handles(), None);
}

#[test]
fn child_falls_back_to_the_standard_shell() {
    let session = resolving()
        .step(SessionEvent::ShellVariableRead { variable: ShellVariable::Unset })
        .step(SessionEvent::Launched { outcome: SessionOutcome::ChildRole });
    assert_eq!(session.pending(), SessionAction::Exec { shell: "/bin/sh" });
}

#[test]
fn failed_exec_is_reported_after_restoring() {
    let session = launching()
        .step(SessionEvent::Launched { outcome: SessionOutcome::ChildRole })
        .step(SessionEvent::ExecFailed);
    assert_eq!(session.pending(), SessionAction::Restore { attributes: cooked() });
    let session = session.step(SessionEvent::AttributesApplied);
    assert_eq!(
        session.pending(),
        SessionAction::Exit { outcome: failure(SessionError::ShellExec) }
    );
}

#[test]
fn refused_raw_mode_is_reported_after_restoring() {
    let session = entering_raw().step(SessionEvent::ApplyFailed);
    assert_eq!(session.pending(), SessionAction::Restore { attributes: cooked() });
    let session = session.step(SessionEvent::AttributesApplied);
    assert_eq!(
        session.pending(),
        SessionAction::Exit { outcome: failure(SessionError::DeviceConfig) }
    );
}

#[test]
fn refused_capture_file_is_reported_after_restoring() {
    let session = entering_raw()
        .step(SessionEvent::AttributesApplied)
        .step(SessionEvent::CaptureRefused);
    assert_eq!(session.pending(), SessionAction::Restore { attributes: cooked() });
    let session = session.step(SessionEvent::AttributesApplied);
    assert_eq!(
        session.pending(),
        SessionAction::Exit { outcome: failure(SessionError::FileAccess) }
    );
}

#[test]
fn short_write_is_reported_after_restoring() {
    let session = relaying()
        .step(relayed(RelayEvent::Ready { keyboard: false, master: true }))
        .step(relayed(RelayEvent::ReadCompleted { bytes: b"hello".to_vec() }))
        .step(relayed(RelayEvent::WriteCompleted { count: 3 }));
    assert_eq!(session.pending(), SessionAction::Restore { attributes: cooked() });
    let session = session.step(SessionEvent::AttributesApplied);
    assert_eq!(
        session.pending(),
        SessionAction::Exit {
            outcome: failure(SessionError::PartialTransfer {
                sink: Sink::Stdout,
                read: 5,
                written: 3
            })
        }
    );
}

#[test]
fn failed_wait_is_reported_after_restoring() {
    let session = relaying().step(relayed(RelayEvent::WaitFailed));
    assert_eq!(session.pending(), SessionAction::Restore { attributes: cooked() });
    let session = session.step(SessionEvent::AttributesApplied);
    assert_eq!(
        session.pending(),
        SessionAction::Exit { outcome: failure(SessionError::ReadinessWait) }
    );
}

#[test]
fn failed_restoration_of_a_good_session_is_the_failure() {
    let session = relaying()
        .step(relayed(RelayEvent::Ready { keyboard: true, master: false }))
        .step(relayed(RelayEvent::ReadFailed))
        .step(SessionEvent::ApplyFailed);
    assert_eq!(
        session.pending(),
        SessionAction::Exit { outcome: failure(SessionError::DeviceConfig) }
    );
}

#[test]
fn failed_restoration_is_chained_behind_the_session_failure() {
    let session = relaying()
        .step(relayed(RelayEvent::Ready { keyboard: true, master: false }))
        .step(relayed(RelayEvent::ReadCompleted { bytes: b"hello".to_vec() }))
        .step(relayed(RelayEvent::WriteCompleted { count: 3 }))
        .step(SessionEvent::ApplyFailed);
    assert_eq!(
        session.pending(),
        SessionAction::Exit {
            outcome: Err(Failure {
                primary: SessionError::PartialTransfer {
                    sink: Sink::Master,
                    read: 5,
                    written: 3
                },
                secondary: Some(SessionError::DeviceConfig),
            })
        }
    );
}

#[test]
fn session_events_out_of_turn_change_nothing() {
    assert_eq!(Session::new().step(SessionEvent::AttributesApplied), Session::Probing);
    assert_eq!(Session::new().step(SessionEvent::CaptureFailed), Session::Probing);
    assert_eq!(resolving().step(SessionEvent::CaptureOpened), resolving());
    assert_eq!(launching().step(SessionEvent::ExecFailed), launching());
    assert_eq!(entering_raw().step(SessionEvent::CaptureOpened), entering_raw());
    assert_eq!(relaying().step(SessionEvent::AttributesApplied), relaying());
    assert_eq!(relaying().step(relayed(RelayEvent::ReadFailed)), relaying());
    let done = Session::Done { outcome: Ok(()) };
    assert_eq!(done.step(SessionEvent::ApplyFailed), Session::Done { outcome: Ok(()) });
}

#[test]
fn conclusions() {
    let broken = SessionError::FileAccess;
    let late = SessionError::DeviceConfig;
    assert_eq!(conclude(Ok(()), Ok(())), Ok(()));
    assert_eq!(conclude(Err(broken), Ok(())), Err(Failure { primary: broken, secondary: None }));
    assert_eq!(conclude(Ok(()), Err(late)), Err(Failure { primary: late, secondary: None }));
    assert_eq!(
        conclude(Err(broken), Err(late)),
        Err(Failure { primary: broken, secondary: Some(late) })
    );
}

#[test]
fn window_queries() {
    assert_eq!(get_window(0, geometry()), Ok(geometry()));
    assert_eq!(get_window(7, geometry()), Ok(geometry()));
    assert_eq!(get_window(-1, geometry()), Err(SessionError::DeviceQuery));
    assert_eq!(get_window(i32::MIN, geometry()), Err(SessionError::DeviceQuery));
}

#[test]
fn shells() {
    assert_eq!(resolve_shell(ShellVariable::Unset), Ok("/bin/sh".to_string()));
    assert_eq!(resolve_shell(text("/usr/bin/zsh")), Ok("/usr/bin/zsh".to_string()));
    assert_eq!(resolve_shell(text("")), Ok(String::new()));
    assert_eq!(resolve_shell(text("/opt/sch\u{e4}le")), Ok("/opt/sch\u{e4}le".to_string()));
    assert_eq!(resolve_shell(ShellVariable::Undecodable), Err(SessionError::ShellUndecodable));
    assert_eq!(resolve_shell(text("\0")), Err(SessionError::ShellInteriorNul));
    assert_eq!(resolve_shell(text("/bin/sh\0")), Err(SessionError::ShellInteriorNul));
    assert_eq!(resolve_shell(text("/bin\0/sh")), Err(SessionError::ShellInteriorNul));
}

#[test]
fn fixed_names() {
    assert_eq!(CAPTURE_FILE, "typescript");
    assert_eq!(SHELL_VARIABLE, "SHELL");
}
