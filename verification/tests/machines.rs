use monoff::channel::Sink;
use monoff::power::{
    OsError, PowerAction, PowerController, PowerEvent, PowerOutcome, MONITOR_POWER_OFF,
    SC_MONITORPOWER, WM_SYSCOMMAND,
};
use monoff::session::{Session, SessionAction, SessionEvent};

fn args(list: &[&str]) -> Vec<String> {
    list.iter().map(|s| s.to_string()).collect()
}

fn os_error(text: &str) -> OsError {
    OsError { description: text.to_string() }
}

#[test]
fn power_controller_happy_path_posts_the_power_off_request() {
    let (mut pc, first) = PowerController::begin();
    assert!(matches!(first, PowerAction::ObtainModule));

    let a = pc.step(PowerEvent::ModuleObtained(Ok(7)));
    match a {
        PowerAction::RegisterClass { instance } => assert_eq!(instance, 7),
        _ => panic!("expected a class registration"),
    }

    let a = pc.step(PowerEvent::ClassRegistered);
    match a {
        PowerAction::CreateEndpoint { instance } => assert_eq!(instance, 7),
        _ => panic!("expected an endpoint creation"),
    }

    let a = pc.step(PowerEvent::EndpointCreated(Ok(42)));
    match a {
        PowerAction::Post { window, request } => {
            assert_eq!(window, 42);
            assert_eq!(request.message, WM_SYSCOMMAND);
            assert_eq!(request.message, 0x0112);
            assert_eq!(request.wparam, SC_MONITORPOWER);
            assert_eq!(request.wparam, 0xF170);
            assert_eq!(request.lparam, MONITOR_POWER_OFF);
            assert_eq!(request.lparam, 2);
        }
        _ => panic!("expected the power-off post"),
    }

    let a = pc.step(PowerEvent::PostFinished(Ok(())));
    assert!(matches!(a, PowerAction::Conclude(PowerOutcome::Success)));
}

#[test]
fn power_controller_wraps_a_module_failure() {
    let (mut pc, _) = PowerController::begin();
    let a = pc.step(PowerEvent::ModuleObtained(Err(os_error("no module"))));
    match a {
        PowerAction::Conclude(PowerOutcome::Failure(e)) => {
            assert_eq!(e.description, "no module")
        }
        _ => panic!("expected a failure"),
    }
}

#[test]
fn power_controller_rejects_a_null_endpoint() {
    let (mut pc, _) = PowerController::begin();
    pc.step(PowerEvent::ModuleObtained(Ok(1)));
    pc.step(PowerEvent::ClassRegistered);
    let a = pc.step(PowerEvent::EndpointCreated(Ok(0)));
    match a {
        PowerAction::Conclude(PowerOutcome::Failure(e)) => assert_eq!(
            e.description,
            "creating the message endpoint returned a null handle"
        ),
        _ => panic!("expected a failure"),
    }
}

#[test]
fn power_controller_wraps_an_endpoint_failure() {
    let (mut pc, _) = PowerController::begin();
    pc.step(PowerEvent::ModuleObtained(Ok(1)));
    pc.step(PowerEvent::ClassRegistered);
    let a = pc.step(PowerEvent::EndpointCreated(Err(os_error("no window"))));
    match a {
        PowerAction::Conclude(PowerOutcome::Failure(e)) => {
            assert_eq!(e.description, "no window")
        }
        _ => panic!("expected a failure"),
    }
}

#[test]
fn power_controller_wraps_a_post_failure() {
    let (mut pc, _) = PowerController::begin();
    pc.step(PowerEvent::ModuleObtained(Ok(1)));
    pc.step(PowerEvent::ClassRegistered);
    pc.step(PowerEvent::EndpointCreated(Ok(9)));
    let a = pc.step(PowerEvent::PostFinished(Err(os_error("queue full"))));
    match a {
        PowerAction::Conclude(PowerOutcome::Failure(e)) => {
            assert_eq!(e.description, "queue full")
        }
        _ => panic!("expected a failure"),
    }
}

#[test]
fn session_success_run_waits_exactly_the_delay_then_powers_off() {
    let (mut s, first) = Session::begin();
    assert!(matches!(first, SessionAction::Probe));

    let a = s.step(SessionEvent::ProbeFinished(true));
    assert!(matches!(a, SessionAction::ReadArguments));

    let a = s.step(SessionEvent::ArgumentsRead(args(&["-d", "250"])));
    match a {
        SessionAction::Wait { millis } => assert_eq!(millis, 250),
        _ => panic!("expected a wait"),
    }

    let a = s.step(SessionEvent::WaitFinished);
    assert!(matches!(a, SessionAction::RequestPowerOff));

    let a = s.step(SessionEvent::PowerFinished(PowerOutcome::Success));
    match a {
        SessionAction::Exit { code } => assert_eq!(code, 0),
        _ => panic!("expected a successful exit"),
    }
}

#[test]
fn session_zero_delay_requests_a_zero_wait() {
    let (mut s, _) = Session::begin();
    s.step(SessionEvent::ProbeFinished(true));
    let a = s.step(SessionEvent::ArgumentsRead(args(&["--delay", "0"])));
    match a {
        SessionAction::Wait { millis } => assert_eq!(millis, 0),
        _ => panic!("expected a wait of zero milliseconds"),
    }
    let a = s.step(SessionEvent::WaitFinished);
    assert!(matches!(a, SessionAction::RequestPowerOff));
}

#[test]
fn session_help_on_a_console_goes_to_stdout_and_exits_well() {
    let (mut s, _) = Session::begin();
    s.step(SessionEvent::ProbeFinished(true));
    let a = s.step(SessionEvent::ArgumentsRead(args(&["--help"])));
    match a {
        SessionAction::Show(d) => {
            assert_eq!(d.sink, Sink::StandardOut);
            assert!(d.text.starts_with("Usage: monoff"));
        }
        _ => panic!("expected the usage text to be shown"),
    }
    let a = s.step(SessionEvent::MessageShown);
    match a {
        SessionAction::Exit { code } => assert_eq!(code, 0),
        _ => panic!("expected a successful exit"),
    }
}

#[test]
fn session_bad_delay_on_a_console_goes_to_stderr_and_exits_badly() {
    let (mut s, _) = Session::begin();
    s.step(SessionEvent::ProbeFinished(true));
    let a = s.step(SessionEvent::ArgumentsRead(args(&["--delay", "99999"])));
    match a {
        SessionAction::Show(d) => {
            assert_eq!(d.sink, Sink::StandardError);
            assert_eq!(
                d.text,
                "error: invalid value '99999' for '--delay <MILLIS>': expected an integer in 0..=65535"
            );
        }
        _ => panic!("expected the error to be shown"),
    }
    let a = s.step(SessionEvent::MessageShown);
    match a {
        SessionAction::Exit { code } => assert_ne!(code, 0),
        _ => panic!("expected a failing exit"),
    }
}

#[test]
fn session_help_without_a_console_uses_an_informational_dialog() {
    let (mut s, _) = Session::begin();
    s.step(SessionEvent::ProbeFinished(false));
    let a = s.step(SessionEvent::ArgumentsRead(args(&["--help"])));
    match a {
        SessionAction::Show(d) => {
            assert_eq!(d.sink, Sink::DialogInfo);
            assert!(d.text.starts_with("Usage: monoff"));
        }
        _ => panic!("expected the usage text to be shown"),
    }
    let a = s.step(SessionEvent::MessageShown);
    match a {
        SessionAction::Exit { code } => assert_eq!(code, 0),
        _ => panic!("expected a successful exit"),
    }
}

#[test]
fn session_bad_delay_without_a_console_uses_an_error_dialog() {
    let (mut s, _) = Session::begin();
    s.step(SessionEvent::ProbeFinished(false));
    let a = s.step(SessionEvent::ArgumentsRead(args(&["--delay", "-1"])));
    match a {
        SessionAction::Show(d) => {
            assert_eq!(d.sink, Sink::DialogError);
            assert_eq!(
                d.text,
                "error: invalid value '-1' for '--delay <MILLIS>': expected an integer in 0..=65535"
            );
        }
        _ => panic!("expected the error to be shown"),
    }
    let a = s.step(SessionEvent::MessageShown);
    match a {
        SessionAction::Exit { code } => assert_ne!(code, 0),
        _ => panic!("expected a failing exit"),
    }
}

#[test]
fn session_power_failure_is_reported_through_the_resolved_channel() {
    let (mut s, _) = Session::begin();
    s.step(SessionEvent::ProbeFinished(true));
    s.step(SessionEvent::ArgumentsRead(args(&[])));
    s.step(SessionEvent::WaitFinished);
    let a = s.step(SessionEvent::PowerFinished(PowerOutcome::Failure(os_error("post rejected"))));
    match a {
        SessionAction::Show(d) => {
            assert_eq!(d.sink, Sink::StandardError);
            assert_eq!(d.text, "Error turning off monitors: post rejected");
        }
        _ => panic!("expected the failure to be shown"),
    }
    let a = s.step(SessionEvent::MessageShown);
    match a {
        SessionAction::Exit { code } => assert_ne!(code, 0),
        _ => panic!("expected a failing exit"),
    }
}

#[test]
fn session_power_failure_without_a_console_uses_an_error_dialog() {
    let (mut s, _) = Session::begin();
    s.step(SessionEvent::ProbeFinished(false));
    s.step(SessionEvent::ArgumentsRead(args(&[])));
    s.step(SessionEvent::WaitFinished);
    let a = s.step(SessionEvent::PowerFinished(PowerOutcome::Failure(os_error("post rejected"))));
    match a {
        SessionAction::Show(d) => {
            assert_eq!(d.sink, Sink::DialogError);
            assert_eq!(d.text, "Error turning off monitors: post rejected");
        }
        _ => panic!("expected the failure to be shown"),
    }
}

#[test]
fn session_argument_error_never_reaches_the_power_controller() {
    let (mut s, _) = Session::begin();
    s.step(SessionEvent::ProbeFinished(true));
    let a = s.step(SessionEvent::ArgumentsRead(args(&["--delay", "nope"])));
    assert!(matches!(a, SessionAction::Show(_)));
    let a = s.step(SessionEvent::MessageShown);
    assert!(matches!(a, SessionAction::Exit { code: 1 }));
}

#[test]
fn default_run_waits_the_documented_default() {
    let (mut s, _) = Session::begin();
    s.step(SessionEvent::ProbeFinished(true));
    let a = s.step(SessionEvent::ArgumentsRead(args(&[])));
    match a {
        SessionAction::Wait { millis } => assert_eq!(millis, 100),
        _ => panic!("expected the default wait"),
    }
}
