use serve_bootstrap::banner::banner_line;
use serve_bootstrap::bootstrap::Bootstrap;
use serve_bootstrap::bootstrap::CommandEnd;
use serve_bootstrap::bootstrap::CommandStep;
use serve_bootstrap::bootstrap::host_exit;
use serve_bootstrap::bootstrap::HostExit;
use serve_bootstrap::bootstrap::Phase;
use serve_bootstrap::bootstrap::SetupAction;
use serve_bootstrap::profile::attaches_plugin;
use serve_bootstrap::profile::plugins_of;
use serve_bootstrap::profile::Plugin;
use serve_bootstrap::profile::Profile;

#[test]
fn banner_printed_for_prefixed_version() {
    let line = banner_line("v1.2.3");
    assert_eq!(line.as_deref(), Some("SERVE v1.2.3"));
}

#[test]
fn no_banner_without_prefix() {
    let line = banner_line("1.2.3");
    assert_eq!(line, None);
}

#[test]
fn no_banner_for_empty_version() {
    let line = banner_line("");
    assert_eq!(line, None);
}

#[test]
fn banner_for_bare_prefix() {
    let line = banner_line("v");
    assert_eq!(line.as_deref(), Some("SERVE v"));
}

#[test]
fn valid_host_reaches_running() {
    let mut b = Bootstrap::new(Profile::ShellOnly);
    assert_eq!(b.phase, Phase::Initializing);
    let action = b.on_setup(true, "v1.2.3");
    assert_eq!(b.phase, Phase::Running);
    match action {
        SetupAction::Proceed { banner } => {
            assert_eq!(banner.as_deref(), Some("SERVE v1.2.3"));
        }
        SetupAction::Fatal => panic!("setup must proceed when the window resolves"),
    }
    assert_eq!(b.banner.as_deref(), Some("SERVE v1.2.3"));
}

#[test]
fn setup_without_banner_still_reaches_running() {
    let mut b = Bootstrap::new(Profile::Full);
    let action = b.on_setup(true, "1.2.3");
    assert_eq!(b.phase, Phase::Running);
    match action {
        SetupAction::Proceed { banner } => assert_eq!(banner, None),
        SetupAction::Fatal => panic!("setup must proceed when the window resolves"),
    }
    assert_eq!(b.banner, None);
}

#[test]
fn unresolvable_window_is_fatal_before_running() {
    let mut b = Bootstrap::new(Profile::ShellOnly);
    let action = b.on_setup(false, "v1.2.3");
    assert!(matches!(action, SetupAction::Fatal));
    assert_eq!(b.phase, Phase::Initializing);
    assert_eq!(b.banner, None);
}

#[test]
fn update_command_emits_one_event() {
    let mut b = Bootstrap::new(Profile::ShellOnly);
    b.on_setup(true, "v1.2.3");
    match b.check_for_updates(true) {
        CommandStep::Emit(e) => {
            assert_eq!(e.name, "update-check");
            assert_eq!(e.payload, "checking");
        }
        CommandStep::Abort => panic!("command must emit when the window resolves"),
    }
    assert!(matches!(b.on_emit_result(true), CommandEnd::Returned));
}

#[test]
fn update_command_aborts_on_unresolvable_window() {
    let mut b = Bootstrap::new(Profile::ShellOnly);
    b.on_setup(true, "v1.2.3");
    assert!(matches!(b.check_for_updates(false), CommandStep::Abort));
}

#[test]
fn failed_emit_aborts_instead_of_returning() {
    let mut b = Bootstrap::new(Profile::ShellOnly);
    b.on_setup(true, "1.2.3");
    assert!(matches!(b.on_emit_result(false), CommandEnd::Abort));
}

#[test]
fn run_failure_carries_diagnostic() {
    match host_exit(false) {
        HostExit::Fatal { diagnostic } => assert_eq!(diagnostic, "error while running SERVE"),
        HostExit::Success => panic!("a failed run must terminate abruptly"),
    }
    assert!(matches!(host_exit(true), HostExit::Success));
}

#[test]
fn profiles_attach_their_own_plugin_sets() {
    let full = plugins_of(Profile::Full);
    assert_eq!(
        full,
        vec![Plugin::Shell, Plugin::Http, Plugin::Sql, Plugin::Store, Plugin::Updater]
    );
    let shell_only = plugins_of(Profile::ShellOnly);
    assert_eq!(shell_only, vec![Plugin::Shell]);
    assert_ne!(full, shell_only);
}

#[test]
fn sql_available_only_under_full_profile() {
    assert!(attaches_plugin(Profile::Full, Plugin::Sql));
    assert!(!attaches_plugin(Profile::ShellOnly, Plugin::Sql));
    assert!(attaches_plugin(Profile::Full, Plugin::Shell));
    assert!(attaches_plugin(Profile::ShellOnly, Plugin::Shell));
    assert!(!attaches_plugin(Profile::ShellOnly, Plugin::Updater));
}

#[test]
fn command_registered_only_by_shell_only_profile() {
    let shell_only = Bootstrap::new(Profile::ShellOnly);
    assert!(shell_only.command_registered);
    let full = Bootstrap::new(Profile::Full);
    assert!(!full.command_registered);
}
