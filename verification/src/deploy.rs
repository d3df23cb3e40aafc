//! The deployment plan: which repository revision to check out and which
//! `nh` commands build and then switch to the new system.
//!
//! Checking out and running the commands is the caller's work; the decisions
//! are here.

use vstd::prelude::*;

use crate::command::CommandRunner;
use crate::config::ServerConfig;
use crate::packet::DeployRequest;

verus! {

/// The substituters used when the current system's are ignored.
pub const CLEAN_SUBSTITUTERS: &'static str = "https://cache.nixos.org https://nix-community.cachix.org https://r3dlust.cachix.org https://install.determinate.systems";

/// The public keys trusted when the current system's substituters are ignored.
pub const CLEAN_TRUSTED_PUBLIC_KEYS: &'static str = "cache.flakehub.com-3:hJuILl5sVK4iKm86JzgdXW12Y2Hwd5G07qKtHTOcDCM= cache.nixos.org-1:6NCHdD59X431o0gWypbMrAURkbJ16ZPMQFGspcDShjY= nix-community.cachix.org-1:mB9FSh9qf2dCimDSUo8Zy7bkq5CX+/rkCWyvRCYg3Fs= r3dlust.cachix.org-1:/R3S8pW/nr7kOBJKcGPsZ0zCepvldTUEgbrqa4O3cW0=";

/// The `nh` subcommand for the host's kind of system.
pub open spec fn system_spec(is_macos: bool) -> Seq<char> {
    if is_macos {
        "darwin"@
    } else {
        "os"@
    }
}

/// The `nh` subcommand for the host's kind of system: `darwin` on macOS,
/// `os` elsewhere.
pub fn system_name(is_macos: bool) -> (name: &'static str)
    ensures
        name@ == system_spec(is_macos),
{
    if is_macos {
        "darwin"
    } else {
        "os"
    }
}

/// The arguments of the build command: build the flake in the checkout
/// quietly, with pipe operators enabled and the flake's configuration
/// accepted; ignoring the current substituters when asked; without the
/// evaluation cache on a dry run.
pub open spec fn build_args(system: Seq<char>, dry_run: bool, clean_substituters: bool) -> Seq<Seq<char>> {
    seq![
        system,
        "build"@,
        "."@,
        "--quiet"@,
        "--"@,
        "--extra-experimental-features"@,
        "pipe-operators"@,
        "--option"@,
        "accept-flake-config"@,
        "true"@,
    ] + (if clean_substituters {
        seq![
            "--option"@,
            "substituters"@,
            CLEAN_SUBSTITUTERS@,
            "--option"@,
            "extra-substituters"@,
            ""@,
            "--option"@,
            "trusted-public-keys"@,
            CLEAN_TRUSTED_PUBLIC_KEYS@,
            "--option"@,
            "extra-trusted-public-keys"@,
            ""@,
        ]
    } else {
        Seq::empty()
    }) + (if dry_run {
        seq!["--option"@, "eval-cache"@, "false"@]
    } else {
        Seq::empty()
    })
}

/// The twelve arguments that make `nh` ignore the current system's
/// substituters and trusted keys and use the clean ones instead.
pub open spec fn clean_substituter_options() -> Seq<Seq<char>> {
    seq![
        "--option"@,
        "substituters"@,
        CLEAN_SUBSTITUTERS@,
        "--option"@,
        "extra-substituters"@,
        ""@,
        "--option"@,
        "trusted-public-keys"@,
        CLEAN_TRUSTED_PUBLIC_KEYS@,
        "--option"@,
        "extra-trusted-public-keys"@,
        ""@,
    ]
}

/// The build arguments are the ten base arguments, then the clean-substituter
/// options exactly when they are asked for, then the option that turns the
/// evaluation cache off exactly on a dry run: each flag adds its own options,
/// whatever the other flag is.
pub proof fn lemma_build_args_options(system: Seq<char>, dry_run: bool, clean_substituters: bool)
    ensures
        build_args(system, dry_run, clean_substituters).len() == 10 + (if clean_substituters {
            12int
        } else {
            0int
        }) + (if dry_run {
            3int
        } else {
            0int
        }),
        build_args(system, dry_run, clean_substituters).take(10) == build_args(system, false, false),
        clean_substituters ==> build_args(system, dry_run, clean_substituters).subrange(10, 22)
            == clean_substituter_options(),
        dry_run ==> build_args(system, dry_run, clean_substituters).subrange(
            build_args(system, dry_run, clean_substituters).len() - 3,
            build_args(system, dry_run, clean_substituters).len() as int,
        ) == seq!["--option"@, "eval-cache"@, "false"@],
        build_args(system, true, clean_substituters).take(
            build_args(system, false, clean_substituters).len() as int,
        ) == build_args(system, false, clean_substituters),
{
    let base = build_args(system, false, false);
    let args = build_args(system, dry_run, clean_substituters);
    assert(args.take(10) =~= base);
    if clean_substituters {
        assert(args.subrange(10, 22) =~= clean_substituter_options());
    }
    if dry_run {
        assert(args.subrange(args.len() - 3, args.len() as int) =~= seq![
            "--option"@,
            "eval-cache"@,
            "false"@,
        ]);
    }
    let without = build_args(system, false, clean_substituters);
    assert(build_args(system, true, clean_substituters).take(without.len() as int) =~= without);
}

/// The two commands of a deployment: first build, then switch.
pub struct DeployPlan {
    pub build: CommandRunner,
    pub switch: CommandRunner,
}

/// How to answer the repository host's request for credentials.
#[derive(Debug)]
pub enum CredentialChoice {
    /// Ask the SSH agent for a key of this user.
    SshAgent(String),
    /// Send this user name.
    Username(String),
    /// Use the default credentials.
    Default,
}

/// The user name a credential is for: the one the host named, else `git`.
pub open spec fn credential_user(username: Option<Seq<char>>) -> Seq<char> {
    match username {
        Some(user) => user,
        None => "git"@,
    }
}

/// Answers a request for credentials: an SSH key from the agent when the
/// host accepts keys, else a user name when it accepts one, else the
/// defaults.
pub fn choose_credential(ssh_key_allowed: bool, username_allowed: bool, username: Option<&str>) -> (choice: CredentialChoice)
    ensures
        ssh_key_allowed ==> (choice matches CredentialChoice::SshAgent(user) && user@
            == credential_user(username.deep_view())),
        !ssh_key_allowed && username_allowed ==> (choice matches CredentialChoice::Username(user)
            && user@ == credential_user(username.deep_view())),
        !ssh_key_allowed && !username_allowed ==> choice is Default,
{
    let user = match username {
        Some(user) => String::from_str(user),
        None => String::from_str("git"),
    };
    if ssh_key_allowed {
        CredentialChoice::SshAgent(user)
    } else if username_allowed {
        CredentialChoice::Username(user)
    } else {
        CredentialChoice::Default
    }
}

/// The revision to try when `rev` does not name anything in the fresh
/// clone: the same name on the `origin` remote.
pub fn fallback_revision(rev: &str) -> (fallback: String)
    ensures
        fallback@ == "origin/"@ + rev@,
{
    let fallback = String::from_str("origin/");
    fallback.concat(rev)
}

/// Deploys revisions of the configured repository.
pub struct Deployer {
    config: ServerConfig,
}

impl Deployer {
    /// A deployer for the repository that the configuration names.
    pub fn new(config: ServerConfig) -> (deployer: Deployer)
        ensures
            deployer.config() == config,
    {
        Deployer { config }
    }

    /// The configuration this deployer works with.
    pub closed spec fn config(&self) -> ServerConfig {
        self.config
    }

    /// The URL of the repository to clone.
    pub fn repo_url(&self) -> (url: &str)
        ensures
            url@ == self.config().repo_url@,
    {
        self.config.repo_url.as_str()
    }

    /// The commands that deploy a request from a checkout at `repo_path`:
    /// `nh <system> build . --quiet -- ...` run in the checkout, so that the
    /// flake `.` is the checked-out revision, then the same command with
    /// `build` replaced by `switch`.
    pub fn deploy_plan(&self, options: &DeployRequest, repo_path: &str, is_macos: bool) -> (plan: DeployPlan)
        ensures
            plan.build@.program == "nh"@,
            plan.build@.dir == Some(repo_path@),
            plan.build@.path is None,
            plan.build@.env == Seq::<(Seq<char>, Seq<char>)>::empty(),
            plan.build@.args == build_args(
                system_spec(is_macos),
                options.dry_run,
                options.clean_substituters,
            ),
            plan.switch@.program == plan.build@.program,
            plan.switch@.path == plan.build@.path,
            plan.switch@.dir == plan.build@.dir,
            plan.switch@.env == plan.build@.env,
            plan.switch@.args == plan.build@.args.update(1, "switch"@),
            plan.build@.args.len() == 10 + (if options.clean_substituters { 12int } else { 0int }) + (
            if options.dry_run {
                3int
            } else {
                0int
            }),
            options.clean_substituters ==> plan.build@.args.subrange(10, 22)
                == clean_substituter_options(),
            options.dry_run ==> plan.build@.args.subrange(
                plan.build@.args.len() - 3,
                plan.build@.args.len() as int,
            ) == seq!["--option"@, "eval-cache"@, "false"@],
    {
        let mut runner = CommandRunner::new("nh").current_dir(repo_path).arg(system_name(is_macos)).arg(
            "build",
        ).arg(".").arg("--quiet");
        runner = runner.arg("--").arg("--extra-experimental-features").arg("pipe-operators");
        runner = runner.arg("--option").arg("accept-flake-config").arg("true");
        if options.clean_substituters {
            runner = runner.arg("--option").arg("substituters").arg(CLEAN_SUBSTITUTERS);
            runner = runner.arg("--option").arg("extra-substituters").arg("");
            runner = runner.arg("--option").arg("trusted-public-keys").arg(
                CLEAN_TRUSTED_PUBLIC_KEYS,
            );
            runner = runner.arg("--option").arg("extra-trusted-public-keys").arg("");
        }
        if options.dry_run {
            runner = runner.arg("--option").arg("eval-cache").arg("false");
        }
        assert(runner@.args =~= build_args(
            system_spec(is_macos),
            options.dry_run,
            options.clean_substituters,
        ));
        proof {
            lemma_build_args_options(system_spec(is_macos), options.dry_run, options.clean_substituters);
        }
        let build = runner.clone();
        let switch = runner.replace_arg_at(1, "switch");
        DeployPlan { build, switch }
    }
}

} // verus!
