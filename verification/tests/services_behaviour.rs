use verba::{
    error::VerbaError,
    ipc::client::{after_first_attempt, after_retry, systemctl_failure, CallStep, IpcCommand},
    secrets::{api_key_from_secret, attributes, clears_key, unavailable_message},
    tray::indicator::{icon_pixel, verba_icon_pixmap},
};

#[test]
fn retries_end_with_both_errors() {
    assert!(matches!(after_first_attempt(&Ok(())), CallStep::Done));
    assert!(matches!(
        after_first_attempt(&Err("no service".to_string())),
        CallStep::StartDaemon
    ));
    assert!(matches!(
        after_retry(&Err("later".to_string()), "first", true),
        CallStep::Retry
    ));
    assert!(matches!(after_retry(&Ok(()), "first", false), CallStep::Done));
    match after_retry(&Err("later".to_string()), "first", false) {
        CallStep::Fail(VerbaError::Dbus(m)) => assert_eq!(
            m,
            "D-Bus call failed after starting daemon: later; first error: first"
        ),
        _ => panic!("expected a D-Bus failure"),
    }
    match systemctl_failure("exit status: 5") {
        VerbaError::SystemdStart(m) => assert_eq!(m, "systemctl exited with exit status: 5"),
        _ => panic!("expected a start failure"),
    }
    assert_eq!(IpcCommand::from_command(verba::cli::Command::Quit), Ok(IpcCommand::Quit));
}

#[test]
fn secrets_are_read_as_utf8() {
    assert_eq!(api_key_from_secret("sk-ü".as_bytes()).unwrap(), "sk-ü");
    match api_key_from_secret(&[0xff, 0xfe]) {
        Err(VerbaError::Secret(m)) => assert_eq!(m, "stored API key is not valid UTF-8"),
        _ => panic!("expected a secret error"),
    }
    assert_eq!(attributes(), vec![("application", "verba"), ("kind", "api-key")]);
    assert_eq!(
        unavailable_message("locked"),
        "Secret Service is unavailable or rejected the request: locked"
    );
    assert!(clears_key(" \t"));
    assert!(!clears_key("k"));
}

#[test]
fn icon_pixels_follow_the_drawing() {
    assert_eq!(icon_pixel(0, 0), (0, 0, 0, 0));
    assert_eq!(icon_pixel(3, 10), (255, 31, 41, 55));
    assert_eq!(icon_pixel(7, 7), (255, 191, 219, 254));
    assert_eq!(icon_pixel(8, 7), (255, 37, 99, 235));
    assert_eq!(icon_pixel(16, 18), (255, 148, 163, 184));
    assert_eq!(icon_pixel(21, 15), (255, 37, 99, 235));
    assert_eq!(icon_pixel(18, 20), (255, 15, 23, 42));
    assert_eq!(icon_pixel(23, 18), (255, 37, 99, 235));
    assert_eq!(icon_pixel(10, 12), (255, 248, 250, 252));
    let pixmaps = verba_icon_pixmap();
    let offset = (7 * 32 + 7) * 4;
    assert_eq!(&pixmaps[0].data[offset..offset + 4], &[255, 191, 219, 254]);
}
