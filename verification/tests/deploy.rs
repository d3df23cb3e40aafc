use coeus::command::CommandRunner;
use coeus::config::{default_config_path, ConfigInner, IpAddress, ServerConfig, SocketAddress};
use coeus::deploy::{
    choose_credential, fallback_revision, system_name, CredentialChoice, Deployer,
    CLEAN_SUBSTITUTERS, CLEAN_TRUSTED_PUBLIC_KEYS,
};
use coeus::options::{ssh_string, DeployOptions};
use coeus::packet::DeployRequest;

fn deployer() -> Deployer {
    Deployer::new(ServerConfig {
        key: [7; 32],
        host: IpAddress::V4([127, 0, 0, 1]),
        port: 45729,
        repo_url: "https://example.com/owner/repo.git".into(),
    })
}

fn request(dry_run: bool, clean_substituters: bool) -> DeployRequest {
    DeployRequest {
        rev: "main".into(),
        dry_run,
        clean_substituters,
    }
}

#[test]
fn deploy_plan_builds_then_switches() {
    let plan = deployer().deploy_plan(&request(false, false), "/tmp/checkout", false);
    let expected = [
        "os",
        "build",
        ".",
        "--quiet",
        "--",
        "--extra-experimental-features",
        "pipe-operators",
        "--option",
        "accept-flake-config",
        "true",
    ];
    assert_eq!(plan.build.program(), "nh");
    assert_eq!(plan.build.arguments(), &expected.map(String::from).to_vec());
    assert_eq!(plan.build.working_dir(), &Some("/tmp/checkout".to_string()));
    assert_eq!(plan.build.search_path(), &None);
    assert!(plan.build.environment().is_empty());

    let mut switched = expected.map(String::from).to_vec();
    switched[1] = "switch".into();
    assert_eq!(plan.switch.arguments(), &switched);
    assert_eq!(plan.switch.program(), "nh");
    assert_eq!(plan.switch.working_dir(), &Some("/tmp/checkout".to_string()));
}

#[test]
fn deploy_plan_options() {
    let plan = deployer().deploy_plan(&request(true, true), "/repo", true);
    let args = plan.build.arguments();
    assert_eq!(args[0], "darwin");
    assert_eq!(args.len(), 10 + 12 + 3);
    assert_eq!(
        args[10..22],
        [
            "--option",
            "substituters",
            CLEAN_SUBSTITUTERS,
            "--option",
            "extra-substituters",
            "",
            "--option",
            "trusted-public-keys",
            CLEAN_TRUSTED_PUBLIC_KEYS,
            "--option",
            "extra-trusted-public-keys",
            "",
        ]
    );
    assert_eq!(args[22..], ["--option", "eval-cache", "false"]);
    assert_eq!(plan.switch.arguments()[1], "switch");

    let dry_only = deployer().deploy_plan(&request(true, false), "/repo", false);
    assert_eq!(dry_only.build.arguments().len(), 13);
    assert_eq!(dry_only.build.arguments()[10], "--option");
    assert_eq!(dry_only.build.arguments()[11], "eval-cache");
}

#[test]
fn system_names() {
    assert_eq!(system_name(true), "darwin");
    assert_eq!(system_name(false), "os");
}

#[test]
fn deployer_keeps_its_repository() {
    assert_eq!(deployer().repo_url(), "https://example.com/owner/repo.git");
}

#[test]
fn command_runner_builds_its_arguments() {
    let runner = CommandRunner::new("echo")
        .arg("a")
        .args(vec!["b".to_string(), "c".to_string()])
        .envs(vec![("K".to_string(), "V".to_string())])
        .path("/bin")
        .current_dir("/work");
    assert_eq!(runner.program(), "echo");
    assert_eq!(runner.arguments(), &vec!["a".to_string(), "b".to_string(), "c".to_string()]);
    assert_eq!(runner.environment(), &vec![("K".to_string(), "V".to_string())]);
    assert_eq!(runner.search_path(), &Some("/bin".to_string()));
    assert_eq!(runner.working_dir(), &Some("/work".to_string()));

    let copy = runner.clone();
    let replaced = runner.replace_arg_at(1, "z");
    assert_eq!(replaced.arguments(), &vec!["a".to_string(), "z".to_string(), "c".to_string()]);
    assert_eq!(copy.arguments()[1], "b");
}

#[test]
fn credentials_prefer_the_ssh_agent() {
    assert!(matches!(
        choose_credential(true, true, Some("deploy")),
        CredentialChoice::SshAgent(user) if user == "deploy"
    ));
    assert!(matches!(
        choose_credential(true, false, None),
        CredentialChoice::SshAgent(user) if user == "git"
    ));
    assert!(matches!(
        choose_credential(false, true, None),
        CredentialChoice::Username(user) if user == "git"
    ));
    assert!(matches!(
        choose_credential(false, false, Some("x")),
        CredentialChoice::Default
    ));
}

#[test]
fn revisions_fall_back_to_the_origin_remote() {
    assert_eq!(fallback_revision("main"), "origin/main");
    assert_eq!(fallback_revision(""), "origin/");
}

#[test]
fn ssh_command_line() {
    assert_eq!(
        ssh_string(None),
        "ssh -o StrictHostKeyChecking=no -o ConnectTimeout=10"
    );
    assert_eq!(
        ssh_string(Some("/home/me/.ssh/id")),
        "ssh -o StrictHostKeyChecking=no -o ConnectTimeout=10 -i /home/me/.ssh/id"
    );
}

#[test]
fn deploy_hostname_falls_back_in_order() {
    let mut options = DeployOptions::default();
    assert_eq!(options.hostname("builder"), "builder");
    options.remote = Some("remote-host".into());
    assert_eq!(options.hostname("builder"), "remote-host");
    let options = options.with_hostname(Some("explicit".into()));
    assert_eq!(options.hostname("builder"), "explicit");
    assert_eq!(options.remote.as_deref(), Some("remote-host"));
}

#[test]
fn configuration_addresses() {
    assert_eq!(default_config_path(), 45729);
    let config = ConfigInner::new([1; 32], IpAddress::V4([10, 0, 0, 2]), 4000);
    assert_eq!(
        config.address(),
        SocketAddress {
            host: IpAddress::V4([10, 0, 0, 2]),
            port: 4000
        }
    );
    let rekeyed = ConfigInner::new([1; 32], IpAddress::V4([10, 0, 0, 2]), 4000).with_key([9; 32]);
    assert_eq!(rekeyed.key, [9; 32]);
    assert_eq!(rekeyed.address().port, 4000);
    let fresh = config.with_random_key();
    assert_eq!(fresh.address().port, 4000);
    assert_ne!(fresh.key, [1; 32]);
}
