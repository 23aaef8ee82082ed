//! The launch-attempt argument list and the readiness-loop decision rule.
use lspsd::conf::Conf;
use lspsd::launch::api_url_of;
use lspsd::launch::launch_args;
use lspsd::launch::launch_step;
use lspsd::launch::ConnectParams;
use lspsd::launch::LaunchAction;
use lspsd::launch::LaunchConfig;
use lspsd::launch::ProbeOutcome;
use lspsd::messages::LspConfig;
use lspsd::validate_args;
use lspsd::Error;

#[test]
fn conf_default_values() {
    let conf = Conf::default();
    assert!(!conf.view_stdout);
    assert_eq!(conf.network, "regtest");
    assert_eq!(conf.tmpdir, None);
    assert_eq!(conf.staticdir, None);
    assert_eq!(conf.esplora_url, None);
    assert_eq!(conf.rgs_url, None);
    assert_eq!(conf.attempts, 3);
}

#[test]
fn validate_args_returns_the_arguments_unchanged() {
    let args = vec!["--network regtest", "--api-port 1234"];
    assert_eq!(validate_args(args.clone()), Ok(args));
}

#[test]
fn assemble_copies_conf_and_fresh_ports() {
    let mut conf = Conf::default();
    conf.esplora_url = Some("http://127.0.0.1:3002".to_string());
    let c = LaunchConfig::assemble(&conf, 8080, 9735, "/tmp/x".to_string());
    assert_eq!(c.network, "regtest");
    assert_eq!(c.api_port, 8080);
    assert_eq!(c.lightning_port, 9735);
    assert_eq!(c.data_dir, "/tmp/x");
    assert_eq!(c.esplora_url, Some("http://127.0.0.1:3002".to_string()));
    assert_eq!(c.rgs_url, None);
    assert!(!c.view_stdout);
    assert_eq!(c.attempts, 3);
}

#[test]
fn launch_args_without_optional_urls() {
    let conf = Conf::default();
    let c = LaunchConfig::assemble(&conf, 8080, 9735, "/tmp/x".to_string());
    let args = launch_args(&c);
    assert_eq!(
        args,
        vec![
            "--api-port".to_string(),
            "8080".to_string(),
            "--lightning-port".to_string(),
            "9735".to_string(),
            "--network".to_string(),
            "regtest".to_string(),
            "--data-dir".to_string(),
            "/tmp/x".to_string(),
        ]
    );
}

#[test]
fn launch_args_append_esplora_and_rgs_urls() {
    let mut conf = Conf::default();
    conf.esplora_url = Some("http://127.0.0.1:3002".to_string());
    conf.rgs_url = Some("http://127.0.0.1:8011".to_string());
    let c = LaunchConfig::assemble(&conf, 1, 2, "/d".to_string());
    let args = launch_args(&c);
    assert_eq!(
        args,
        vec![
            "--api-port".to_string(),
            "1".to_string(),
            "--lightning-port".to_string(),
            "2".to_string(),
            "--network".to_string(),
            "regtest".to_string(),
            "--data-dir".to_string(),
            "/d".to_string(),
            "--esplora-url".to_string(),
            "http://127.0.0.1:3002".to_string(),
            "--rgs-url".to_string(),
            "http://127.0.0.1:8011".to_string(),
        ]
    );
}

#[test]
fn api_url_includes_schema_and_port() {
    assert_eq!(api_url_of(44842), "http://127.0.0.1:44842");
    let params = ConnectParams { api_port: 44842, lightning_port: 9735 };
    assert_eq!(params.api_url(), "http://127.0.0.1:44842");
}

#[test]
fn early_exit_with_budget_left_retries_with_one_fewer_attempt() {
    let action = launch_step(3, ProbeOutcome::Exited(Some(1)));
    assert_eq!(action, LaunchAction::Retry { attempts_left: 2 });
}

#[test]
fn early_exit_with_exhausted_budget_fails_with_the_observed_status() {
    let action = launch_step(0, ProbeOutcome::Exited(Some(1)));
    assert_eq!(action, LaunchAction::Fail(Error::EarlyExit(Some(1))));
    let killed = launch_step(0, ProbeOutcome::Exited(None));
    assert_eq!(killed, LaunchAction::Fail(Error::EarlyExit(None)));
}

#[test]
fn successful_probe_returns_the_reported_config() {
    let config = LspConfig {
        pubkey: "02abc".to_string(),
        ip_port: "127.0.0.1:9735".to_string(),
        token: None,
    };
    let action = launch_step(2, ProbeOutcome::ConfigOk(config.clone()));
    assert_eq!(action, LaunchAction::Ready(config));
}

#[test]
fn refused_probe_of_a_live_child_keeps_polling() {
    assert_eq!(launch_step(0, ProbeOutcome::NotReady), LaunchAction::Poll);
    assert_eq!(launch_step(3, ProbeOutcome::NotReady), LaunchAction::Poll);
}

#[test]
fn a_launch_that_always_exits_early_spawns_budget_plus_one_times() {
    let budget: u8 = 3;
    let mut attempts_left = budget;
    let mut spawns: u32 = 1;
    let outcome_error = loop {
        match launch_step(attempts_left, ProbeOutcome::Exited(Some(9))) {
            LaunchAction::Retry { attempts_left: n } => {
                attempts_left = n;
                spawns += 1;
            }
            LaunchAction::Fail(e) => break e,
            other => panic!("unexpected action: {:?}", other),
        }
    };
    assert_eq!(spawns, u32::from(budget) + 1);
    assert_eq!(outcome_error, Error::EarlyExit(Some(9)));
}
