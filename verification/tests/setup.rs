use rayhunter::setup::{DataDirSetup, SetupAction, SetupError, SetupEvent};

/// Runs a setup, answering each command with the reply that `answer` gives
/// for it; returns what was done and the result.
fn drive(
    data_dir: &str,
    answer: impl Fn(&str) -> Option<String>,
) -> (Vec<String>, Result<(), SetupError>) {
    let mut setup = DataDirSetup::new(data_dir);
    let mut log = Vec::new();
    let mut event = SetupEvent::Continue;
    loop {
        match setup.step(event) {
            SetupAction::Run(c) => {
                event = match answer(&c) {
                    Some(o) => SetupEvent::Output(o),
                    None => SetupEvent::Failed,
                };
                log.push(format!("run {c}"));
            }
            SetupAction::Print(t) => {
                log.push(format!("print {t}"));
                event = SetupEvent::Continue;
            }
            SetupAction::PrintLine(t) => {
                log.push(format!("println {t}"));
                event = SetupEvent::Continue;
            }
            SetupAction::Finish(r) => {
                assert!(setup.is_done());
                return (log, r);
            }
        }
    }
}

#[test]
fn refuses_link_path_as_data_dir() {
    let (log, r) = drive("/data/rayhunter", |_| Some(String::new()));
    assert!(log.is_empty());
    assert!(matches!(r, Err(SetupError::DataDirIsLinkPath)));
}

#[test]
fn refuses_apostrophe() {
    let (log, r) = drive("/media/it's", |_| Some(String::new()));
    assert!(log.is_empty());
    assert!(matches!(r, Err(SetupError::DataDirHasApostrophe)));
}

#[test]
fn fresh_install_creates_directory_and_link() {
    let (log, r) = drive("/media/card/rh", |c| {
        Some(if c.starts_with("test -L") { "no".into() } else if c.starts_with("test -d") {
            "missing".into()
        } else {
            String::new()
        })
    });
    assert!(r.is_ok());
    assert_eq!(
        log,
        vec![
            "run test -L '/data/rayhunter' && echo yes || echo no",
            "run test -d '/data/rayhunter' && echo exists || echo missing",
            "run mkdir -p '/media/card/rh'",
            "print Creating symlink /data/rayhunter -> /media/card/rh ... ",
            "run mkdir -p /data",
            "run ln -sf '/media/card/rh' /data/rayhunter",
            "println ok",
        ]
    );
}

#[test]
fn already_configured_does_nothing() {
    let (log, r) = drive("/media/card/rh", |c| {
        Some(if c.starts_with("test -L") { "yes".into() } else if c.starts_with("echo RL") {
            "RL:/media/card/rh\n".into()
        } else {
            panic!("unexpected command {c}")
        })
    });
    assert!(r.is_ok());
    assert_eq!(log.len(), 3);
    assert_eq!(log[2], "println Data directory already configured at /media/card/rh");
}

#[test]
fn real_directory_is_migrated() {
    let (log, r) = drive("/media/card/rh", |c| {
        Some(if c.starts_with("test -L") {
            "no".into()
        } else if c == "test -d '/data/rayhunter' && echo exists || echo missing" {
            "exists".into()
        } else if c.starts_with("test -d") {
            "missing".into()
        } else if c.starts_with("mv ") {
            "MV_OK".into()
        } else {
            String::new()
        })
    });
    assert!(r.is_ok());
    assert!(log.contains(&"run /etc/init.d/rayhunter_daemon stop 2>/dev/null; true".to_string()));
    assert!(log.contains(&"print Migrating data from /data/rayhunter to /media/card/rh ... ".to_string()));
    assert!(log.contains(&"run mv '/data/rayhunter' '/media/card/rh' && echo MV_OK".to_string()));
    assert_eq!(log.last().unwrap(), "println ok");
}

#[test]
fn old_link_target_is_migrated() {
    let (log, r) = drive("/new", |c| {
        Some(if c.starts_with("test -L") {
            "yes".into()
        } else if c.starts_with("echo RL") {
            "RL:/old\n".into()
        } else if c.starts_with("test -d '/old'") {
            "exists".into()
        } else if c.starts_with("mv ") {
            "MV_OK".into()
        } else {
            String::new()
        })
    });
    assert!(r.is_ok());
    assert!(log.contains(&"run rm -f /data/rayhunter".to_string()));
    assert!(log.contains(&"run mv '/old' '/new' && echo MV_OK".to_string()));
}

#[test]
fn both_directories_refused() {
    let (_, r) = drive("/new", |c| {
        Some(if c.starts_with("test -L") { "no".into() } else { "exists".into() })
    });
    match r {
        Err(SetupError::BothDirectoriesExist(d)) => assert_eq!(d, "/new"),
        other => panic!("unexpected {other:?}"),
    }
}

#[test]
fn failed_move_reported() {
    let (_, r) = drive("/new", |c| {
        Some(if c.starts_with("test -L") {
            "no".into()
        } else if c == "test -d '/data/rayhunter' && echo exists || echo missing" {
            "exists".into()
        } else if c.starts_with("test -d") {
            "missing".into()
        } else if c.starts_with("mv ") {
            "mv: cannot move".into()
        } else {
            String::new()
        })
    });
    match r {
        Err(SetupError::MoveFailed { from, to, output }) => {
            assert_eq!(from, "/data/rayhunter");
            assert_eq!(to, "/new");
            assert_eq!(output, "mv: cannot move");
        }
        other => panic!("unexpected {other:?}"),
    }
}

#[test]
fn unreadable_link_reported() {
    let (_, r) = drive("/new", |c| {
        Some(if c.starts_with("test -L") { "yes".into() } else { "garbage".into() })
    });
    match r {
        Err(SetupError::UnexpectedReadlinkOutput(o)) => assert_eq!(o, "garbage"),
        other => panic!("unexpected {other:?}"),
    }
}

#[test]
fn failing_stop_command_is_ignored_but_failing_link_is_not() {
    let (log, r) = drive("/new", |c| {
        if c.starts_with("/etc/init.d") {
            None
        } else if c.starts_with("ln ") {
            None
        } else {
            Some(if c.starts_with("test -L") {
                "no".into()
            } else if c == "test -d '/data/rayhunter' && echo exists || echo missing" {
                "exists".into()
            } else if c.starts_with("test -d") {
                "missing".into()
            } else if c.starts_with("mv ") {
                "MV_OK".into()
            } else {
                String::new()
            })
        }
    });
    assert!(log.contains(&"run mv '/data/rayhunter' '/new' && echo MV_OK".to_string()));
    assert!(matches!(r, Err(SetupError::CommandFailed)));
}
