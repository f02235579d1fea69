use altre::cli::{parse_launch_args, LaunchRequest};

fn args(list: &[&str]) -> Vec<String> {
    list.iter().map(|s| s.to_string()).collect()
}

#[test]
fn gui_is_the_default() {
    assert_eq!(parse_launch_args(&args(&[])), LaunchRequest::Run { force_tui: false });
}

#[test]
fn last_front_end_option_counts() {
    assert_eq!(parse_launch_args(&args(&["--tui"])), LaunchRequest::Run { force_tui: true });
    assert_eq!(parse_launch_args(&args(&["--tui", "--gui"])), LaunchRequest::Run { force_tui: false });
}

#[test]
fn help_and_version_stop_reading() {
    assert_eq!(parse_launch_args(&args(&["--tui", "-h", "--bogus"])), LaunchRequest::Help);
    assert_eq!(parse_launch_args(&args(&["--version"])), LaunchRequest::Version);
    assert_eq!(parse_launch_args(&args(&["-V"])), LaunchRequest::Version);
}

#[test]
fn unknown_option_is_reported() {
    assert_eq!(parse_launch_args(&args(&["--bogus", "-h"])), LaunchRequest::UnknownOption("--bogus".to_string()));
}
