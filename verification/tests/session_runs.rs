use tuxedo_keyboard_cli::validate_request;
use tuxedo_keyboard_cli::Action;
use tuxedo_keyboard_cli::Config;
use tuxedo_keyboard_cli::Error;
use tuxedo_keyboard_cli::Session;

fn green_config() -> Config {
    validate_request("00FF00", "200", "3", "1").unwrap()
}

/// Drives a session over scripted outcomes and records every shell command it
/// asked to run, in order.
fn drive(session: &mut Session, outcomes: &[bool]) -> Vec<String> {
    let mut issued: Vec<String> = Vec::new();
    let mut k: usize = 0;
    loop {
        match session.next_action() {
            Action::Stop => break,
            Action::RunShell(cmd) => issued.push(cmd),
            Action::ListDirectory | Action::QueryModule => {},
        }
        session.advance(outcomes[k]);
        k += 1;
    }
    issued
}

#[test]
fn successful_run_writes_everything_in_order() {
    let cfg = green_config();
    let mut session = Session::new(&cfg);
    let issued = drive(&mut session, &[true; 9]);
    assert_eq!(
        issued,
        vec![
            "echo 3 > /sys/devices/platform/tuxedo_keyboard/mode",
            "echo 200 > /sys/devices/platform/tuxedo_keyboard/brightness",
            "echo 0x00FF00 > /sys/devices/platform/tuxedo_keyboard/color_left",
            "echo 0x00FF00 > /sys/devices/platform/tuxedo_keyboard/color_center",
            "echo 0x00FF00 > /sys/devices/platform/tuxedo_keyboard/color_right",
            "echo 0x00FF00 > /sys/devices/platform/tuxedo_keyboard/color_extra",
            "echo 1 > /sys/devices/platform/tuxedo_keyboard/state",
        ]
    );
    assert!(session.is_done());
    assert!(session.failure().is_none());
}

#[test]
fn absent_directory_fails_with_zero_writes() {
    let cfg = green_config();
    let mut session = Session::new(&cfg);
    // The directory check fails; everything after it would succeed.
    let issued = drive(&mut session, &[false, true, true, true, true, true, true, true, true]);
    assert!(issued.is_empty());
    assert!(!session.is_done());
    assert_eq!(session.failure(), Some(&Error::MissingAttributeDirectory));
}

#[test]
fn missing_module_fails_with_zero_writes() {
    let cfg = green_config();
    let mut session = Session::new(&cfg);
    // The directory is present but the module query finds nothing.
    let issued = drive(&mut session, &[true, false, true, true, true, true, true, true, true]);
    assert!(issued.is_empty());
    assert!(!session.is_done());
    assert_eq!(session.failure(), Some(&Error::MissingKernelModule));
}

#[test]
fn failed_write_aborts_the_rest_and_names_the_command() {
    let cfg = green_config();
    let mut session = Session::new(&cfg);
    // Both checks pass, two writes succeed, the third write fails.
    let issued = drive(&mut session, &[true, true, true, true, false, true, true, true, true]);
    // The failing command was issued; nothing after it was.
    assert_eq!(
        issued,
        vec![
            "echo 3 > /sys/devices/platform/tuxedo_keyboard/mode",
            "echo 200 > /sys/devices/platform/tuxedo_keyboard/brightness",
            "echo 0x00FF00 > /sys/devices/platform/tuxedo_keyboard/color_left",
        ]
    );
    assert!(!session.is_done());
    match session.failure() {
        Some(Error::ShellExecutionFailed(cmd)) => {
            assert_eq!(cmd, "echo 0x00FF00 > /sys/devices/platform/tuxedo_keyboard/color_left");
        },
        other => panic!("expected a shell execution failure, got {:?}", other),
    }
    // Even after further (impossible) successes are reported, the session
    // stays failed and asks for nothing more.
    session.advance(true);
    assert_eq!(session.next_action(), Action::Stop);
    assert_eq!(
        session.failure().unwrap().message(),
        "the shell write failed for the command: \
         'echo 0x00FF00 > /sys/devices/platform/tuxedo_keyboard/color_left'"
    );
}

#[test]
fn preflight_decision_is_exact() {
    assert_eq!(tuxedo_keyboard_cli::preflight_outcome(true, true), Ok(()));
    assert_eq!(
        tuxedo_keyboard_cli::preflight_outcome(false, true),
        Err(Error::MissingAttributeDirectory)
    );
    assert_eq!(
        tuxedo_keyboard_cli::preflight_outcome(false, false),
        Err(Error::MissingAttributeDirectory)
    );
    assert_eq!(
        tuxedo_keyboard_cli::preflight_outcome(true, false),
        Err(Error::MissingKernelModule)
    );
}
