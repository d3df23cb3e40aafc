//! Options of a local or remote deployment, and how the deploying side
//! reaches the remote host.

use vstd::prelude::*;

verus! {

/// Options of a deployment run from the command line.
#[derive(Debug)]
pub struct DeployOptions {
    /// Local hostname to deploy to. Defaults to the remote host, then the
    /// host the tool was built on.
    hostname: Option<String>,
    /// Boot instead of switch (NixOS only).
    pub boot: bool,
    /// Sets "eval-cache" to false in nix options.
    pub dry_run: bool,
    /// Initial setup for new host.
    pub initial: bool,
    /// Ignore stale substituters from the current system.
    pub clean_substituters: bool,
    /// Remote host address or hostname.
    pub remote: Option<String>,
    /// SSH identity file for remote access.
    pub ssh_key: Option<String>,
    /// Only build, don't apply.
    pub build_only: bool,
    /// Only apply, don't build.
    pub apply_only: bool,
}

/// Deployment options as mathematical values.
pub struct DeployOptionsView {
    pub hostname: Option<Seq<char>>,
    pub boot: bool,
    pub dry_run: bool,
    pub initial: bool,
    pub clean_substituters: bool,
    pub remote: Option<Seq<char>>,
    pub ssh_key: Option<Seq<char>>,
    pub build_only: bool,
    pub apply_only: bool,
}

impl View for DeployOptions {
    type V = DeployOptionsView;

    closed spec fn view(&self) -> DeployOptionsView {
        DeployOptionsView {
            hostname: self.hostname.deep_view(),
            boot: self.boot,
            dry_run: self.dry_run,
            initial: self.initial,
            clean_substituters: self.clean_substituters,
            remote: self.remote.deep_view(),
            ssh_key: self.ssh_key.deep_view(),
            build_only: self.build_only,
            apply_only: self.apply_only,
        }
    }
}

impl Default for DeployOptions {
    fn default() -> (options: DeployOptions)
        ensures
            options@ == (DeployOptionsView {
                hostname: None,
                boot: false,
                dry_run: false,
                initial: false,
                clean_substituters: false,
                remote: None,
                ssh_key: None,
                build_only: false,
                apply_only: false,
            }),
    {
        DeployOptions {
            hostname: None,
            boot: false,
            dry_run: false,
            initial: false,
            clean_substituters: false,
            remote: None,
            ssh_key: None,
            build_only: false,
            apply_only: false,
        }
    }
}

/// The hostname that a deployment targets.
pub open spec fn target_hostname(
    hostname: Option<Seq<char>>,
    remote: Option<Seq<char>>,
    build_host: Seq<char>,
) -> Seq<char> {
    match hostname {
        Some(name) => name,
        None => match remote {
            Some(name) => name,
            None => build_host,
        },
    }
}

/// A given hostname is always the target, whatever the remote host; without
/// one the remote host is, and without either the build host is.
pub proof fn lemma_target_hostname_precedence(
    hostname: Option<Seq<char>>,
    remote: Option<Seq<char>>,
    build_host: Seq<char>,
)
    ensures
        hostname matches Some(h) ==> target_hostname(hostname, remote, build_host) == h,
        hostname is None ==> (remote matches Some(r) ==> target_hostname(hostname, remote, build_host) == r),
        hostname is None && remote is None ==> target_hostname(hostname, remote, build_host) == build_host,
{
}

impl DeployOptions {
    /// The same options with the hostname set as given.
    pub fn with_hostname(self, hostname: Option<String>) -> (options: DeployOptions)
        ensures
            options@ == (DeployOptionsView { hostname: hostname.deep_view(), ..self@ }),
    {
        let mut options = self;
        options.hostname = hostname;
        options
    }

    /// The hostname to deploy to: the one given, else the remote host, else
    /// `build_host`, the name of the host the tool was built on.
    pub fn hostname<'a>(&'a self, build_host: &'a str) -> (name: &'a str)
        ensures
            name@ == target_hostname(self@.hostname, self@.remote, build_host@),
            self@.hostname matches Some(h) ==> name@ == h,
            self@.hostname is None ==> (self@.remote matches Some(r) ==> name@ == r),
            self@.hostname is None && self@.remote is None ==> name@ == build_host@,
    {
        proof {
            lemma_target_hostname_precedence(self@.hostname, self@.remote, build_host@);
        }
        match &self.hostname {
            Some(name) => name.as_str(),
            None => match &self.remote {
                Some(name) => name.as_str(),
                None => build_host,
            },
        }
    }
}

/// The `ssh` command line used to reach a remote host: no host-key prompts,
/// a ten-second connection timeout, and the identity file when one is given.
pub fn ssh_string(key: Option<&str>) -> (command: String)
    ensures
        command@ == "ssh -o StrictHostKeyChecking=no -o ConnectTimeout=10"@ + match key {
            Some(k) => " -i "@ + k@,
            None => Seq::<char>::empty(),
        },
{
    let command = String::from_str("ssh -o StrictHostKeyChecking=no -o ConnectTimeout=10");
    match key {
        Some(k) => {
            let with_flag = command.concat(" -i ");
            let result = with_flag.concat(k);
            assert(result@ =~= "ssh -o StrictHostKeyChecking=no -o ConnectTimeout=10"@ + (" -i "@
                + k@));
            result
        },
        None => {
            assert(command@ =~= "ssh -o StrictHostKeyChecking=no -o ConnectTimeout=10"@
                + Seq::<char>::empty());
            command
        },
    }
}

} // verus!
