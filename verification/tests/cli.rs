use ghdesk::cli::handle_cli_args;

#[test]
fn without_an_argument_it_runs() {
    assert_eq!(handle_cli_args(None, "1.2.3"), Ok(None));
}

#[test]
fn version_is_printed() {
    let expected = Ok(Some("ghdesk 1.2.3".to_string()));
    assert_eq!(handle_cli_args(Some("--version".to_string()), "1.2.3"), expected);
    assert_eq!(handle_cli_args(Some("-V".to_string()), "1.2.3"), expected);
}

#[test]
fn help_is_printed() {
    let expected = Ok(Some(
        "ghdesk 1.2.3\n\nUSAGE:\n  ghdesk\n  ghdesk --help\n  ghdesk --version\n\nOPTIONS:\n  -h, --help       Show this help\n  -V, --version    Show version"
            .to_string(),
    ));
    assert_eq!(handle_cli_args(Some("--help".to_string()), "1.2.3"), expected);
    assert_eq!(handle_cli_args(Some("-h".to_string()), "1.2.3"), expected);
}

#[test]
fn unknown_arguments_are_errors() {
    assert_eq!(
        handle_cli_args(Some("--nope".to_string()), "1.2.3"),
        Err("unknown argument: --nope".to_string())
    );
}
