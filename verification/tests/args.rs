use webds::args::{args_from_values, get_args, Args, ArgsError};

fn argv(items: &[&str]) -> Vec<String> {
    items.iter().map(|s| s.to_string()).collect()
}

#[test]
fn defaults() {
    let args = get_args(argv(&["webds"])).unwrap();
    assert_eq!(args, Args { port: 3000, fps: 30, max_clients: 5, debug: false });
}

#[test]
fn help_example() {
    let args = get_args(argv(&["webds", "--port", "4000", "--fps", "30", "--max", "50"])).unwrap();
    assert_eq!(args, Args { port: 4000, fps: 30, max_clients: 50, debug: false });
}

#[test]
fn debug_flag() {
    assert!(get_args(argv(&["webds", "-d"])).unwrap().debug);
    assert!(get_args(argv(&["webds", "--debug", "--fps=60"])).unwrap().debug);
    assert_eq!(get_args(argv(&["webds", "--fps=60"])).unwrap().fps, 60);
}

#[test]
fn bad_values_are_usage_errors() {
    match get_args(argv(&["webds", "--port", "70000"])) {
        Err(ArgsError::Usage { use_stderr, exit_code, message }) => {
            assert!(use_stderr);
            assert_eq!(exit_code, 2);
            assert!(message.contains("70000"));
        }
        other => panic!("unexpected {other:?}"),
    }
    assert!(matches!(get_args(argv(&["webds", "--nope"])), Err(ArgsError::Usage { .. })));
}

#[test]
fn help_goes_to_standard_output() {
    match get_args(argv(&["webds", "--help"])) {
        Err(ArgsError::Usage { use_stderr, exit_code, message }) => {
            assert!(!use_stderr);
            assert_eq!(exit_code, 0);
            assert!(message.contains("example: webds --port 4000 --fps 30 --max 50"));
        }
        other => panic!("unexpected {other:?}"),
    }
}

#[test]
fn values_must_all_be_there() {
    assert_eq!(
        args_from_values(Some(1), Some(2), Some(3), Some(true)).unwrap(),
        Args { port: 1, fps: 2, max_clients: 3, debug: true }
    );
    assert!(matches!(
        args_from_values(None, Some(2), Some(3), Some(true)),
        Err(ArgsError::Unreadable { .. })
    ));
    assert!(matches!(
        args_from_values(Some(1), Some(2), Some(3), None),
        Err(ArgsError::Unreadable { .. })
    ));
}

#[test]
fn refused_lines_are_usage_errors() {
    for line in [
        &["webds", "--fps", "abc"][..],
        &["webds", "--max", "-1"][..],
        &["webds", "--port"][..],
        &["webds", "--port", "--fps", "30"][..],
        &["webds", "--port", "-d"][..],
        &["webds", "stray"][..],
        &["webds", "--debug", "--nope"][..],
        &["webds", "--max", "4294967296"][..],
        &["webds", "--version"][..],
        &["webds", "--debug", "true"][..],
        &["webds", "--port", ""][..],
    ] {
        assert!(
            matches!(
                get_args(argv(line)),
                Err(ArgsError::Usage { use_stderr: true, exit_code: 2, .. })
            ),
            "{line:?} was not refused"
        );
    }
}

#[test]
fn given_values_override_defaults() {
    assert_eq!(
        get_args(argv(&["webds", "--max", "4294967295", "-d"])).unwrap(),
        Args { port: 3000, fps: 30, max_clients: 4294967295, debug: true }
    );
    assert_eq!(
        get_args(argv(&["webds", "--fps", "+060", "--port", "0"])).unwrap(),
        Args { port: 0, fps: 60, max_clients: 5, debug: false }
    );
}
