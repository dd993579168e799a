//! Sparse configuration layers and their precedence-ordered merge:
//! command line over environment over configuration file over built-in
//! defaults, field by field.

use vstd::prelude::*;

use crate::config::{
    default_settings, missing_field, Config, ConfigError, DbConfig, DbSettings, IpAddress,
    Settings,
};
use crate::level::{configured_level, read_level, LogLevel};

verus! {

/// Database settings that one source may set; the command line sets them with
/// its `--db_*` flags.
#[derive(Clone, Debug, Default, PartialEq, Eq)]
pub struct CliDb {
    pub username: Option<String>,
    pub password: Option<String>,
    pub port: Option<u16>,
    pub host: Option<String>,
    pub name: Option<String>,
}

/// The settings that one source (environment, configuration file) sets; an
/// absent field leaves the setting to lower sources.
#[derive(Clone, Debug, Default, PartialEq, Eq)]
pub struct PartialConfig {
    pub host: Option<IpAddress>,
    pub port: Option<u16>,
    pub log_level: Option<String>,
    pub db: CliDb,
}

/// The command line: where the configuration file is, and the settings it
/// overrides.
#[derive(Clone, Debug, Default, PartialEq, Eq)]
pub struct Cli {
    pub cfg_path: Option<String>,
    pub host: Option<IpAddress>,
    pub port: Option<u16>,
    pub log_level: Option<String>,
    pub db: CliDb,
}

/// What a `CliDb` sets.
pub struct PartialDbSettings {
    pub username: Option<Seq<char>>,
    pub password: Option<Seq<char>>,
    pub port: Option<u16>,
    pub host: Option<Seq<char>>,
    pub name: Option<Seq<char>>,
}

/// What a `PartialConfig` sets.
pub struct PartialSettings {
    pub host: Option<IpAddress>,
    pub port: Option<u16>,
    pub log_level: Option<Seq<char>>,
    pub db: PartialDbSettings,
}

/// The text an optional string holds, if any.
pub open spec fn text_of(o: Option<String>) -> Option<Seq<char>> {
    match o {
        Some(s) => Some(s@),
        None => None,
    }
}

/// The value of `hi` if it is set, else `lo`.
pub open spec fn either<T>(hi: Option<T>, lo: Option<T>) -> Option<T> {
    match hi {
        Some(v) => Some(v),
        None => lo,
    }
}

/// The value of `o` if it is set, else `d`.
pub open spec fn value_or<T>(o: Option<T>, d: T) -> T {
    match o {
        Some(v) => v,
        None => d,
    }
}

impl View for CliDb {
    type V = PartialDbSettings;

    open spec fn view(&self) -> PartialDbSettings {
        PartialDbSettings {
            username: text_of(self.username),
            password: text_of(self.password),
            port: self.port,
            host: text_of(self.host),
            name: text_of(self.name),
        }
    }
}

impl View for PartialConfig {
    type V = PartialSettings;

    open spec fn view(&self) -> PartialSettings {
        PartialSettings {
            host: self.host,
            port: self.port,
            log_level: text_of(self.log_level),
            db: self.db@,
        }
    }
}

impl PartialDbSettings {
    /// `self` laid over `lower`: what `self` sets wins.
    pub open spec fn over(self, lower: PartialDbSettings) -> PartialDbSettings {
        PartialDbSettings {
            username: either(self.username, lower.username),
            password: either(self.password, lower.password),
            port: either(self.port, lower.port),
            host: either(self.host, lower.host),
            name: either(self.name, lower.name),
        }
    }

    /// `base` with every setting that `self` sets replaced.
    pub open spec fn apply(self, base: DbSettings) -> DbSettings {
        DbSettings {
            username: value_or(self.username, base.username),
            password: value_or(self.password, base.password),
            port: value_or(self.port, base.port),
            host: value_or(self.host, base.host),
            name: value_or(self.name, base.name),
        }
    }
}

impl PartialSettings {
    /// `self` laid over `lower`: what `self` sets wins.
    pub open spec fn over(self, lower: PartialSettings) -> PartialSettings {
        PartialSettings {
            host: either(self.host, lower.host),
            port: either(self.port, lower.port),
            log_level: either(self.log_level, lower.log_level),
            db: self.db.over(lower.db),
        }
    }

    /// `base` with every setting that `self` sets replaced.
    pub open spec fn apply(self, base: Settings) -> Settings {
        Settings {
            host: value_or(self.host, base.host),
            port: value_or(self.port, base.port),
            log_level: value_or(self.log_level, base.log_level),
            db: self.db.apply(base.db),
        }
    }
}

impl Cli {
    /// The settings that the command line overrides.
    pub open spec fn overrides(self) -> PartialSettings {
        PartialSettings {
            host: self.host,
            port: self.port,
            log_level: text_of(self.log_level),
            db: self.db@,
        }
    }
}

/// The settings that the four sources give together.
pub open spec fn merged(
    cli: PartialSettings,
    env: PartialSettings,
    file: PartialSettings,
) -> Settings {
    cli.over(env).over(file).apply(default_settings())
}

fn either_text(hi: &Option<String>, lo: &Option<String>) -> (r: Option<String>)
    ensures
        r == either(*hi, *lo),
{
    match hi {
        Some(v) => Some(v.clone()),
        None => match lo {
            Some(v) => Some(v.clone()),
            None => None,
        },
    }
}

fn copy_text(o: &Option<String>) -> (r: Option<String>)
    ensures
        r == *o,
{
    match o {
        Some(v) => Some(v.clone()),
        None => None,
    }
}

fn text_or(o: Option<String>, d: String) -> (r: String)
    ensures
        r == value_or(o, d),
{
    match o {
        Some(v) => v,
        None => d,
    }
}

fn number_or(o: Option<u16>, d: u16) -> (r: u16)
    ensures
        r == value_or(o, d),
{
    match o {
        Some(v) => v,
        None => d,
    }
}

impl CliDb {
    /// This layer laid over `lower`.
    pub fn overlay(&self, lower: &CliDb) -> (r: CliDb)
        ensures
            r@ == self@.over(lower@),
    {
        CliDb {
            username: either_text(&self.username, &lower.username),
            password: either_text(&self.password, &lower.password),
            port: if self.port.is_some() { self.port } else { lower.port },
            host: either_text(&self.host, &lower.host),
            name: either_text(&self.name, &lower.name),
        }
    }

    /// `base` with the settings of this layer in place.
    pub fn apply_to(self, base: DbConfig) -> (r: DbConfig)
        ensures
            r@ == self@.apply(base@),
    {
        DbConfig {
            username: text_or(self.username, base.username),
            password: text_or(self.password, base.password),
            port: number_or(self.port, base.port),
            host: text_or(self.host, base.host),
            name: text_or(self.name, base.name),
        }
    }
}

impl PartialConfig {
    /// This layer laid over `lower`.
    pub fn overlay(&self, lower: &PartialConfig) -> (r: PartialConfig)
        ensures
            r@ == self@.over(lower@),
    {
        PartialConfig {
            host: if self.host.is_some() { self.host } else { lower.host },
            port: if self.port.is_some() { self.port } else { lower.port },
            log_level: either_text(&self.log_level, &lower.log_level),
            db: self.db.overlay(&lower.db),
        }
    }

    /// `base` with the settings of this layer in place.
    pub fn apply_to(self, base: Config) -> (r: Config)
        ensures
            r@ == self@.apply(base@),
    {
        Config {
            host: match self.host {
                Some(h) => h,
                None => base.host,
            },
            port: number_or(self.port, base.port),
            log_level: text_or(self.log_level, base.log_level),
            db: self.db.apply_to(base.db),
        }
    }
}

/// The configuration file read when the command line names none.
pub open spec fn default_config_path() -> Seq<char> {
    "config.yaml"@
}

/// The outcome of resolving the four sources: the merged settings when every
/// required one is present and the log level is one of `error`, `warn`,
/// `info`, `debug`, `trace`, else the first problem found.
pub open spec fn resolution_ok(s: Settings, r: Result<(Config, LogLevel), ConfigError>) -> bool {
    match missing_field(s) {
        Some(f) => r == Err::<(Config, LogLevel), ConfigError>(ConfigError::Missing(f)),
        None => match configured_level(s.log_level) {
            Some(l) => r is Ok && r->Ok_0.0@ == s && r->Ok_0.1 == l,
            None => r is Err && r->Err_0 is InvalidLogLevel && r->Err_0->InvalidLogLevel_0@
                == s.log_level,
        },
    }
}

impl Cli {
    /// The configuration file to read: the one given with `--cfg`, else
    /// `config.yaml`.
    pub fn config_path(&self) -> (r: String)
        ensures
            r@ == value_or(text_of(self.cfg_path), default_config_path()),
    {
        match &self.cfg_path {
            Some(p) => p.clone(),
            None => "config.yaml".to_owned(),
        }
    }

    /// The settings that the command line overrides, as a layer.
    pub fn layer(&self) -> (r: PartialConfig)
        ensures
            r@ == self.overrides(),
    {
        PartialConfig {
            host: self.host,
            port: self.port,
            log_level: copy_text(&self.log_level),
            db: CliDb {
                username: copy_text(&self.db.username),
                password: copy_text(&self.db.password),
                port: self.db.port,
                host: copy_text(&self.db.host),
                name: copy_text(&self.db.name),
            },
        }
    }
}

/// Merges the command line, the environment and the configuration file over
/// the built-in defaults, validates the result and reads its log level.
pub fn resolve(cli: &Cli, env: &PartialConfig, file: &PartialConfig) -> (r: Result<
    (Config, LogLevel),
    ConfigError,
>)
    ensures
        resolution_ok(merged(cli.overrides(), env@, file@), r),
{
    let layers = cli.layer().overlay(env).overlay(file);
    let config = layers.apply_to(Config::default());
    match config.validate() {
        Err(e) => Err(e),
        Ok(()) => match read_level(&config.log_level) {
            Some(level) => Ok((config, level)),
            None => Err(ConfigError::InvalidLogLevel(config.log_level.clone())),
        },
    }
}

/// The value of the highest of three sources that sets it, else `d`.
pub open spec fn highest<T>(a: Option<T>, b: Option<T>, c: Option<T>, d: T) -> T {
    if a is Some {
        a->Some_0
    } else if b is Some {
        b->Some_0
    } else if c is Some {
        c->Some_0
    } else {
        d
    }
}

/// At most one of three sources sets a value.
pub open spec fn at_most_one<T>(a: Option<T>, b: Option<T>, c: Option<T>) -> bool {
    &&& a is Some ==> b is None && c is None
    &&& b is Some ==> c is None
}

/// `m` is the value of whichever source sets one, and `d` when none does.
pub open spec fn taken_from<T>(m: T, a: Option<T>, b: Option<T>, c: Option<T>, d: T) -> bool {
    &&& a is Some ==> m == a->Some_0
    &&& b is Some ==> m == b->Some_0
    &&& c is Some ==> m == c->Some_0
    &&& (a is None && b is None && c is None) ==> m == d
}

/// Every merged setting is the one of the highest-precedence source that sets
/// it (command line, then environment, then configuration file), and the
/// built-in default when no source does.
pub proof fn lemma_highest_source_wins(cli: PartialSettings, env: PartialSettings, file: PartialSettings)
    ensures
        ({
            let m = merged(cli, env, file);
            let d = default_settings();
            &&& m.host == highest(cli.host, env.host, file.host, d.host)
            &&& m.port == highest(cli.port, env.port, file.port, d.port)
            &&& m.log_level == highest(cli.log_level, env.log_level, file.log_level, d.log_level)
            &&& m.db.username == highest(
                cli.db.username,
                env.db.username,
                file.db.username,
                d.db.username,
            )
            &&& m.db.password == highest(
                cli.db.password,
                env.db.password,
                file.db.password,
                d.db.password,
            )
            &&& m.db.port == highest(cli.db.port, env.db.port, file.db.port, d.db.port)
            &&& m.db.host == highest(cli.db.host, env.db.host, file.db.host, d.db.host)
            &&& m.db.name == highest(cli.db.name, env.db.name, file.db.name, d.db.name)
        }),
{
}

/// When the sources set disjoint fields, the merged settings are their union,
/// with the built-in defaults filling every field that no source sets.
pub proof fn lemma_disjoint_sources_union(
    cli: PartialSettings,
    env: PartialSettings,
    file: PartialSettings,
)
    requires
        at_most_one(cli.host, env.host, file.host),
        at_most_one(cli.port, env.port, file.port),
        at_most_one(cli.log_level, env.log_level, file.log_level),
        at_most_one(cli.db.username, env.db.username, file.db.username),
        at_most_one(cli.db.password, env.db.password, file.db.password),
        at_most_one(cli.db.port, env.db.port, file.db.port),
        at_most_one(cli.db.host, env.db.host, file.db.host),
        at_most_one(cli.db.name, env.db.name, file.db.name),
    ensures
        ({
            let m = merged(cli, env, file);
            let d = default_settings();
            &&& taken_from(m.host, cli.host, env.host, file.host, d.host)
            &&& taken_from(m.port, cli.port, env.port, file.port, d.port)
            &&& taken_from(m.log_level, cli.log_level, env.log_level, file.log_level, d.log_level)
            &&& taken_from(
                m.db.username,
                cli.db.username,
                env.db.username,
                file.db.username,
                d.db.username,
            )
            &&& taken_from(
                m.db.password,
                cli.db.password,
                env.db.password,
                file.db.password,
                d.db.password,
            )
            &&& taken_from(m.db.port, cli.db.port, env.db.port, file.db.port, d.db.port)
            &&& taken_from(m.db.host, cli.db.host, env.db.host, file.db.host, d.db.host)
            &&& taken_from(m.db.name, cli.db.name, env.db.name, file.db.name, d.db.name)
        }),
{
}

} // verus!
