use dirls::cli::{cur_dir, parse_args, Command, Options};
use dirls::error::RunError;

fn args(list: &[&str]) -> Vec<String> {
    list.iter().map(|s| s.to_string()).collect()
}

fn run_of(list: &[&str]) -> (Options, Vec<String>) {
    match parse_args(&args(list)) {
        Ok(Command::Run { options, targets }) => (options, targets),
        _ => panic!("expected a run"),
    }
}

#[test]
fn append_info_is_sticky_against_info_only() {
    let (o, _) = run_of(&["-i", "-I", "-i"]);
    assert!(!o.only_info);
    assert!(o.append_info);
    let (o, _) = run_of(&["-Ii"]);
    assert!(!o.only_info);
    assert!(o.append_info);
}

#[test]
fn append_info_clears_info_only() {
    let (o, _) = run_of(&["-iI"]);
    assert!(!o.only_info);
    assert!(o.append_info);
    let (o, _) = run_of(&["-i"]);
    assert!(o.only_info);
    assert!(!o.append_info);
}

#[test]
fn no_arguments_default_to_current_dir() {
    let (o, t) = run_of(&[]);
    assert_eq!(o, Options { show_dots: false, only_info: false, append_info: false });
    assert_eq!(t, vec!["./".to_string()]);
    assert_eq!(cur_dir(), "./");
}

#[test]
fn targets_keep_their_order() {
    let (o, t) = run_of(&["b", "-a", "a", "-", "c"]);
    assert!(o.show_dots);
    assert_eq!(t, args(&["b", "a", "c"]));
}

#[test]
fn help_stops_parsing() {
    assert!(matches!(parse_args(&args(&["x", "--help", "-z"])), Ok(Command::Help)));
}

#[test]
fn unknown_flag_is_a_usage_error() {
    match parse_args(&args(&["-a", "-aqI", "--help"])) {
        Err(e) => {
            assert!(matches!(&e, RunError::Usage { flag: 'q', token } if token == "-aqI"));
            assert_eq!(e.message(), "Unknown flag used. Don't recognize flag `q` from `-aqI`");
        }
        _ => panic!("expected a usage error"),
    }
    match parse_args(&args(&["--all"])) {
        Err(RunError::Usage { flag, token }) => {
            assert_eq!(flag, '-');
            assert_eq!(token, "--all");
        }
        _ => panic!("expected a usage error"),
    }
}

#[test]
fn error_messages() {
    assert_eq!(RunError::NotFound.message(), "Item doesn't exist!");
    assert_eq!(
        RunError::Metadata { detail: "denied".to_string() }.message(),
        "Failed to get metadata: denied"
    );
    assert_eq!(
        RunError::ReadDir { detail: "gone".to_string() }.message(),
        "Problem happened while attempting to read directory: gone"
    );
}
