//! What the command line asks for, and what of it goes into the
//! configuration.
use vstd::prelude::*;
use vstd::string::StringExecFns;

verus! {

/// The command line.
pub struct Cli {
    /// What to do.
    pub command: CliCommand,
    /// The configuration file to read.
    pub config_file: Option<String>,
    /// Whether to say more.
    pub verbose: bool,
}

/// What to do.
pub enum CliCommand {
    /// Run a peer.
    RunPeer(RunPeerArgs),
    /// Show the version.
    Version,
}

/// How to run a peer.
pub struct RunPeerArgs {
    /// Whether to carry HTTP.
    pub enable_http_txp: bool,
    /// The file with the secret key, in place of the configured one.
    pub secret_key_path: Option<String>,
}

/// A value that the command line sets in the configuration.
#[derive(Debug, PartialEq, Eq)]
pub enum ConfigValue {
    Flag(bool),
    Path(String),
}

/// A configuration value, as contracts see it.
pub enum ConfigValueModel {
    Flag(bool),
    Path(Seq<char>),
}

impl View for ConfigValue {
    type V = ConfigValueModel;

    open spec fn view(&self) -> ConfigValueModel {
        match self {
            ConfigValue::Flag(b) => ConfigValueModel::Flag(*b),
            ConfigValue::Path(p) => ConfigValueModel::Path(p@),
        }
    }
}

/// The settings, as contracts see them.
pub open spec fn settings(v: Seq<(String, ConfigValue)>) -> Seq<(Seq<char>, ConfigValueModel)> {
    Seq::new(v.len(), |i: int| (v[i].0@, v[i].1@))
}

/// What running a peer sets: the HTTP transport where it is asked for,
/// then the secret key file where one is given.
pub open spec fn run_peer_settings(http: bool, key: Option<Seq<char>>) -> Seq<
    (Seq<char>, ConfigValueModel),
> {
    let first = if http {
        seq![("http_txp"@, ConfigValueModel::Flag(true))]
    } else {
        Seq::empty()
    };
    match key {
        Some(path) => first.push(("iroh_comm.secret_key_path"@, ConfigValueModel::Path(path))),
        None => first,
    }
}

/// What a command line sets in the configuration.
pub open spec fn cli_settings(cli: Cli) -> Seq<(Seq<char>, ConfigValueModel)> {
    match cli.command {
        CliCommand::RunPeer(args) => run_peer_settings(
            args.enable_http_txp,
            match args.secret_key_path {
                Some(p) => Some(p@),
                None => None,
            },
        ),
        CliCommand::Version => Seq::empty(),
    }
}

impl Cli {
    /// The settings that the command line lays over the configuration, by
    /// key, in the order in which they are to be laid.
    pub fn update_figment(&self) -> (set: Vec<(String, ConfigValue)>)
        ensures
            settings(set@) == cli_settings(*self),
    {
        let mut set: Vec<(String, ConfigValue)> = Vec::new();
        match &self.command {
            CliCommand::RunPeer(args) => {
                if args.enable_http_txp {
                    set.push((String::from_str("http_txp"), ConfigValue::Flag(true)));
                }
                match &args.secret_key_path {
                    Some(path) => {
                        set.push(
                            (
                                String::from_str("iroh_comm.secret_key_path"),
                                ConfigValue::Path(path.clone()),
                            ),
                        );
                    },
                    None => {},
                }
            },
            CliCommand::Version => {},
        }
        assert(settings(set@) =~= cli_settings(*self));
        set
    }
}

} // verus!
