use starcore::poller::{GpuPoller, PollAction, PollEvent, PollPhase, WaitReason};
use starcore::ssh::{default_ssh_settings, SshConfig};

fn config(host: &str, password: &str) -> SshConfig {
    let mut c = default_ssh_settings();
    c.host = host.to_string();
    c.user = "ops".to_string();
    c.password = password.to_string();
    c
}

fn line(text: &str) -> PollEvent {
    PollEvent::StreamLine { exiting: false, line: Some(Ok(text.to_string())) }
}

/// Drives a fresh poller to the point where it asks for the configuration.
fn to_load_config(p: &mut GpuPoller) {
    assert!(matches!(p.step(PollEvent::Done), PollAction::CheckExit));
    assert!(matches!(p.step(PollEvent::ExitRequested(false)), PollAction::Disconnect));
    assert!(matches!(p.step(PollEvent::Done), PollAction::LoadConfig));
    assert_eq!(p.phase(), PollPhase::LoadingConfig);
}

#[test]
fn poller_starts_idle() {
    let p = GpuPoller::new();
    assert_eq!(p.phase(), PollPhase::Idle);
}

#[test]
fn poller_full_session_with_password() {
    let mut p = GpuPoller::new();
    to_load_config(&mut p);
    match p.step(PollEvent::ConfigLoaded(Ok(config("gpu-host", "pw")))) {
        PollAction::WriteAskpass { script } => assert_eq!(script, "@echo off\necho pw\n"),
        _ => panic!("expected the password script"),
    }
    match p.step(PollEvent::AskpassWritten(true)) {
        PollAction::Launch { launch } => {
            assert_eq!(launch.program, "ssh");
            assert!(launch.use_askpass);
            assert!(launch.args.contains(&"BatchMode=no".to_string()));
            assert!(launch.args.contains(&"ops@gpu-host".to_string()));
        }
        _ => panic!("expected a launch"),
    }
    assert!(matches!(p.step(PollEvent::Launched(true)), PollAction::ReadLine));
    assert_eq!(p.phase(), PollPhase::Streaming);
    assert!(matches!(p.step(line("45 %")), PollAction::Publish { usage: 45 }));
    assert_eq!(p.phase(), PollPhase::Publishing);
    assert!(matches!(p.step(PollEvent::Done), PollAction::ReadLine));
    assert!(matches!(p.step(line("   ")), PollAction::ReadLine));
    assert!(matches!(p.step(line("not a number")), PollAction::ReadLine));
    assert!(matches!(p.step(line("250")), PollAction::Publish { usage: 100 }));
    assert!(matches!(p.step(PollEvent::Done), PollAction::ReadLine));
    assert!(matches!(
        p.step(PollEvent::StreamLine { exiting: false, line: None }),
        PollAction::EndStream { remove_askpass: true }
    ));
    assert!(matches!(p.step(PollEvent::Done), PollAction::CheckExit));
    match p.step(PollEvent::ExitRequested(false)) {
        PollAction::Wait { seconds: 5, reason: WaitReason::Reconnect } => {}
        _ => panic!("expected a reconnect pause"),
    }
    assert_eq!(p.phase(), PollPhase::Idle);
    assert!(matches!(p.step(PollEvent::Done), PollAction::CheckExit));
    assert!(matches!(p.step(PollEvent::ExitRequested(true)), PollAction::Stop));
    assert_eq!(p.phase(), PollPhase::Stopped);
    assert!(matches!(p.step(PollEvent::Done), PollAction::Stop));
    assert!(matches!(p.step(PollEvent::ExitRequested(false)), PollAction::Stop));
}

#[test]
fn poller_without_password_launches_batch_mode() {
    let mut p = GpuPoller::new();
    to_load_config(&mut p);
    match p.step(PollEvent::ConfigLoaded(Ok(config("gpu-host", "")))) {
        PollAction::Launch { launch } => {
            assert!(!launch.use_askpass);
            assert!(launch.args.contains(&"BatchMode=yes".to_string()));
        }
        _ => panic!("expected a launch"),
    }
    assert!(matches!(p.step(PollEvent::Launched(true)), PollAction::ReadLine));
    assert!(matches!(
        p.step(PollEvent::StreamLine { exiting: false, line: None }),
        PollAction::EndStream { remove_askpass: false }
    ));
}

#[test]
fn poller_config_error_waits_five_seconds() {
    let mut p = GpuPoller::new();
    to_load_config(&mut p);
    match p.step(PollEvent::ConfigLoaded(Err("missing".to_string()))) {
        PollAction::Wait { seconds: 5, reason: WaitReason::ConfigError(msg) } => assert_eq!(msg, "missing"),
        _ => panic!("expected a pause"),
    }
    assert_eq!(p.phase(), PollPhase::Idle);
}

#[test]
fn poller_unset_host_waits_ten_seconds() {
    for host in ["", "127.0.0.1"] {
        let mut p = GpuPoller::new();
        to_load_config(&mut p);
        match p.step(PollEvent::ConfigLoaded(Ok(config(host, "pw")))) {
            PollAction::Wait { seconds: 10, reason: WaitReason::HostUnset } => {}
            _ => panic!("expected a pause"),
        }
        assert_eq!(p.phase(), PollPhase::Idle);
    }
}

#[test]
fn poller_failed_askpass_write_launches_without_it() {
    let mut p = GpuPoller::new();
    to_load_config(&mut p);
    assert!(matches!(
        p.step(PollEvent::ConfigLoaded(Ok(config("h", "pw")))),
        PollAction::WriteAskpass { .. }
    ));
    match p.step(PollEvent::AskpassWritten(false)) {
        PollAction::Launch { launch } => {
            assert!(!launch.use_askpass);
            assert!(launch.args.contains(&"BatchMode=yes".to_string()));
        }
        _ => panic!("expected a launch"),
    }
    match p.step(PollEvent::Launched(false)) {
        PollAction::Wait { seconds: 5, reason: WaitReason::LaunchFailed } => {}
        _ => panic!("expected a pause"),
    }
}

#[test]
fn poller_failed_launch_removes_askpass_first() {
    let mut p = GpuPoller::new();
    to_load_config(&mut p);
    p.step(PollEvent::ConfigLoaded(Ok(config("h", "pw"))));
    p.step(PollEvent::AskpassWritten(true));
    assert!(matches!(p.step(PollEvent::Launched(false)), PollAction::RemoveAskpass));
    assert_eq!(p.phase(), PollPhase::RemovingAskpass);
    match p.step(PollEvent::Done) {
        PollAction::Wait { seconds: 5, reason: WaitReason::LaunchFailed } => {}
        _ => panic!("expected a pause"),
    }
    assert_eq!(p.phase(), PollPhase::Idle);
}

#[test]
fn poller_stream_ends_on_exit_or_error() {
    let mut p = GpuPoller::new();
    to_load_config(&mut p);
    p.step(PollEvent::ConfigLoaded(Ok(config("h", ""))));
    p.step(PollEvent::Launched(true));
    assert!(matches!(
        p.step(PollEvent::StreamLine { exiting: true, line: Some(Ok("50".to_string())) }),
        PollAction::EndStream { remove_askpass: false }
    ));
    assert!(matches!(p.step(PollEvent::Done), PollAction::CheckExit));
    assert!(matches!(p.step(PollEvent::ExitRequested(true)), PollAction::Stop));

    let mut p = GpuPoller::new();
    to_load_config(&mut p);
    p.step(PollEvent::ConfigLoaded(Ok(config("h", ""))));
    p.step(PollEvent::Launched(true));
    assert!(matches!(
        p.step(PollEvent::StreamLine { exiting: false, line: Some(Err("broken pipe".to_string())) }),
        PollAction::EndStream { .. }
    ));
}

#[test]
fn poller_exit_at_top_of_loop() {
    let mut p = GpuPoller::new();
    assert!(matches!(p.step(PollEvent::Done), PollAction::CheckExit));
    assert!(matches!(p.step(PollEvent::ExitRequested(true)), PollAction::Stop));
    assert_eq!(p.phase(), PollPhase::Stopped);
}

#[test]
fn poller_repeats_request_on_unexpected_event() {
    let mut p = GpuPoller::new();
    assert!(matches!(p.step(PollEvent::Done), PollAction::CheckExit));
    assert!(matches!(p.step(PollEvent::Launched(true)), PollAction::CheckExit));
    assert_eq!(p.phase(), PollPhase::CheckingExit);
    assert!(matches!(p.step(PollEvent::ExitRequested(false)), PollAction::Disconnect));
    assert!(matches!(p.step(PollEvent::Done), PollAction::LoadConfig));
    assert!(matches!(p.step(PollEvent::Done), PollAction::LoadConfig));
    match p.step(PollEvent::ConfigLoaded(Ok(config("h", "")))) {
        PollAction::Launch { .. } => {}
        _ => panic!("expected a launch"),
    }
    match p.step(PollEvent::Done) {
        PollAction::Launch { launch } => assert_eq!(launch.program, "ssh"),
        _ => panic!("expected the launch again"),
    }
}

#[test]
fn poller_connection_and_usage_updates() {
    let mut p = GpuPoller::new();
    let mut connected = false;
    let mut usage = 0u32;
    let mut trace = Vec::new();
    let events = vec![
        PollEvent::Done,
        PollEvent::ExitRequested(false),
        PollEvent::Done,
        PollEvent::ConfigLoaded(Ok(config("h", ""))),
        PollEvent::Launched(true),
        line(" 87 %"),
        PollEvent::Done,
        line("garbage"),
        line("150"),
        PollEvent::Done,
        line("12.7"),
        PollEvent::Done,
        PollEvent::StreamLine { exiting: false, line: None },
        PollEvent::Done,
        PollEvent::ExitRequested(false),
    ];
    for e in events {
        let a = p.step(e);
        if let Some(c) = a.connection_update() {
            connected = c;
        }
        if let Some(u) = a.usage_update() {
            usage = u;
        }
        trace.push((connected, usage));
    }
    assert_eq!(
        trace,
        vec![
            (false, 0),
            (false, 0),
            (false, 0),
            (false, 0),
            (false, 0),
            (true, 87),
            (true, 87),
            (true, 87),
            (true, 100),
            (true, 100),
            (true, 12),
            (true, 12),
            (false, 12),
            (false, 12),
            (false, 12),
        ]
    );
}
