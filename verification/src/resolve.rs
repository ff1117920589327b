//! Overlay resolution of the run configuration.
//!
//! Three layers of values feed one run: command-line overrides, environment
//! overrides, and the persisted configuration file. A value supplied on the
//! command line wins over both of the others; an environment value wins over
//! the file; a field set nowhere is an error.

use vstd::prelude::*;

verus! {

/// One layer of configuration values; any field may be unset.
pub struct ConfigLayer {
    pub port: Option<u16>,
    pub dest: Option<String>,
    pub username: Option<String>,
}

/// The fields a run requires.
#[derive(Clone, Copy, PartialEq, Eq, Structural, Debug)]
pub enum ConfigField {
    Port,
    Dest,
    Username,
}

/// Failure of configuration resolution: a required field set in no layer, or
/// a merged value outside its allowed range.
#[derive(Clone, Copy, PartialEq, Eq, Structural, Debug)]
pub enum ConfigError {
    MissingField(ConfigField),
    /// The merged port lies outside 1..=65535.
    InvalidPort,
}

/// A usable port number: 1..=65535 (the upper bound is the type's own).
pub open spec fn valid_port(p: u16) -> bool {
    1 <= p
}

/// The fully resolved settings for one run, immutable thereafter.
#[derive(Clone, PartialEq, Eq, Debug)]
pub struct ResolvedConfig {
    pub port: u16,
    pub dest: String,
    pub username: String,
}

impl ResolvedConfig {
    /// Well-formedness: the port lies in 1..=65535.
    pub open spec fn wf(self) -> bool {
        valid_port(self.port)
    }
}

/// The upper value when present, else the lower one.
pub open spec fn overlay<T>(upper: Option<T>, lower: Option<T>) -> Option<T> {
    if upper is Some {
        upper
    } else {
        lower
    }
}

/// One field after merging all three layers: command line over environment
/// over file.
pub open spec fn merged<T>(cli: Option<T>, env: Option<T>, file: Option<T>) -> Option<T> {
    overlay(cli, overlay(env, file))
}

/// Merge one copyable field across the three layers.
pub fn merge_port(cli: &Option<u16>, env: &Option<u16>, file: &Option<u16>) -> (r: Option<u16>)
    ensures
        r == merged(*cli, *env, *file),
{
    match cli {
        Some(p) => Some(*p),
        None => match env {
            Some(p) => Some(*p),
            None => match file {
                Some(p) => Some(*p),
                None => None,
            },
        },
    }
}

/// Merge one string field across the three layers.
pub fn merge_string(cli: &Option<String>, env: &Option<String>, file: &Option<String>) -> (r:
    Option<String>)
    ensures
        r == merged(*cli, *env, *file),
{
    match cli {
        Some(s) => Some(s.clone()),
        None => match env {
            Some(s) => Some(s.clone()),
            None => match file {
                Some(s) => Some(s.clone()),
                None => None,
            },
        },
    }
}

/// All three required fields are set somewhere in the layers.
pub open spec fn resolvable(cli: ConfigLayer, env: ConfigLayer, file: ConfigLayer) -> bool {
    &&& merged(cli.port, env.port, file.port) is Some
    &&& merged(cli.dest, env.dest, file.dest) is Some
    &&& merged(cli.username, env.username, file.username) is Some
}

/// Produce the resolved settings from the three layers: report the first
/// missing required field (checked in the order port, dest, username), and
/// reject a merged port outside 1..=65535 as malformed.
pub fn resolve(cli: &ConfigLayer, env: &ConfigLayer, file: &ConfigLayer) -> (r: Result<
    ResolvedConfig,
    ConfigError,
>)
    ensures
        r is Ok <==> resolvable(*cli, *env, *file) && merged(cli.port, env.port, file.port)
            != Some(0u16),
        r is Ok ==> r->Ok_0.wf(),
        r is Ok ==> Some(r->Ok_0.port) == merged(cli.port, env.port, file.port),
        r is Ok ==> Some(r->Ok_0.dest) == merged(cli.dest, env.dest, file.dest),
        r is Ok ==> Some(r->Ok_0.username) == merged(cli.username, env.username, file.username),
        merged(cli.port, env.port, file.port) is None ==> r == Result::<ResolvedConfig,
        ConfigError>::Err(ConfigError::MissingField(ConfigField::Port)),
        merged(cli.port, env.port, file.port) == Some(0u16) ==> r == Result::<ResolvedConfig,
        ConfigError>::Err(ConfigError::InvalidPort),
        merged(cli.port, env.port, file.port) is Some && merged(cli.port, env.port, file.port)
            != Some(0u16) && merged(cli.dest, env.dest, file.dest) is None ==> r == Result::<
            ResolvedConfig,
            ConfigError,
        >::Err(ConfigError::MissingField(ConfigField::Dest)),
        merged(cli.port, env.port, file.port) is Some && merged(cli.port, env.port, file.port)
            != Some(0u16) && merged(cli.dest, env.dest, file.dest) is Some && merged(
            cli.username,
            env.username,
            file.username,
        ) is None ==> r == Result::<ResolvedConfig, ConfigError>::Err(ConfigError::MissingField(
            ConfigField::Username,
        )),
{
    let port = match merge_port(&cli.port, &env.port, &file.port) {
        Some(p) => p,
        None => {
            return Err(ConfigError::MissingField(ConfigField::Port));
        },
    };
    if port == 0 {
        return Err(ConfigError::InvalidPort);
    }
    let dest = match merge_string(&cli.dest, &env.dest, &file.dest) {
        Some(d) => d,
        None => {
            return Err(ConfigError::MissingField(ConfigField::Dest));
        },
    };
    let username = match merge_string(&cli.username, &env.username, &file.username) {
        Some(u) => u,
        None => {
            return Err(ConfigError::MissingField(ConfigField::Username));
        },
    };
    Ok(ResolvedConfig { port, dest, username })
}

/// A value supplied on the command line is the resolved value, whatever the
/// environment and the file hold.
pub proof fn lemma_cli_precedence<T>(cli: Option<T>, env: Option<T>, file: Option<T>)
    requires
        cli is Some,
    ensures
        merged(cli, env, file) == cli,
{
}

/// With no command-line and no environment value, the file's value is the
/// resolved value. (An environment value present would win over the file.)
pub proof fn lemma_file_value_kept<T>(cli: Option<T>, env: Option<T>, file: Option<T>)
    requires
        cli is None,
        env is None,
        file is Some,
    ensures
        merged(cli, env, file) == file,
{
}

} // verus!
