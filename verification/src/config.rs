//! The read-only configuration that every request is served from.
//!
//! A [`Config`] is built once, before the first request, and only read after
//! that: no function of this crate takes it by mutable reference. It may
//! therefore be shared by any number of concurrent requests.

use vstd::prelude::*;

verus! {

/// `toml::map::Map`, the table of the `toml` crate. Nothing inside it is
/// visible to the verifier; what it holds is named by [`table_entries`].
#[verifier::external_type_specification]
#[verifier::external_body]
#[verifier::reject_recursive_types(K)]
#[verifier::reject_recursive_types(V)]
pub struct ExTomlMap<K, V>(toml::map::Map<K, V>);

/// `toml::Value`, one value of a table. Nothing inside it is visible to the
/// verifier, and no verified code handles one.
#[verifier::external_type_specification]
#[verifier::external_body]
pub struct ExTomlValue(toml::Value);

/// What a table holds: its keys, each with the text of its value, or with
/// `None` where the value is not a string.
pub uninterp spec fn table_entries(table: toml::Table) -> Map<Seq<char>, Option<Seq<char>>>;

/// `toml::map::Map::get`, with the value it finds read by
/// `toml::Value::as_str`. Assumed, not proved: the outer answer is `Some`
/// exactly for the keys of the table, and the inner one is the text of the
/// value stored under the key, or `None` where that value is not a string.
#[verifier::external_body]
fn table_get<'a>(table: &'a toml::Table, key: &str) -> (found: Option<Option<&'a str>>)
    ensures
        found.is_some() == table_entries(*table).contains_key(key@),
        found matches Some(text) ==> text.deep_view() == table_entries(*table)[key@],
{
    match table.get(key) {
        Some(value) => Some(value.as_str()),
        None => None,
    }
}

/// The command registry that a table of entries gives: every key whose value
/// is a string is a command name, and that string is its invocation string.
/// An entry of any other kind registers nothing.
pub open spec fn registry_of(entries: Map<Seq<char>, Option<Seq<char>>>) -> Map<
    Seq<char>,
    Seq<char>,
> {
    Map::new(
        |name: Seq<char>| entries.contains_key(name) && entries[name].is_some(),
        |name: Seq<char>| entries[name].unwrap(),
    )
}

/// The gateway's configuration: the secret that callers must present, the
/// path of the log file, and the table of registered commands.
#[derive(Debug)]
pub struct Config {
    pub(crate) auth: String,
    pub(crate) logfile: String,
    pub(crate) commands: toml::Table,
}

/// What a [`Config`] holds, with the command table read as a registry.
pub ghost struct ConfigView {
    /// The secret that a caller's bearer token must equal.
    pub auth: Seq<char>,
    /// Where the log is written.
    pub logfile: Seq<char>,
    /// The registry: command name to invocation string.
    pub commands: Map<Seq<char>, Seq<char>>,
}

impl View for Config {
    type V = ConfigView;

    closed spec fn view(&self) -> ConfigView {
        ConfigView {
            auth: self.auth@,
            logfile: self.logfile@,
            commands: registry_of(table_entries(self.commands)),
        }
    }
}

impl Config {
    /// A configuration with the given secret, log file and command table.
    pub fn new(auth: String, logfile: String, commands: toml::Table) -> (config: Config)
        ensures
            config@ == (ConfigView {
                auth: auth@,
                logfile: logfile@,
                commands: registry_of(table_entries(commands)),
            }),
    {
        Config { auth, logfile, commands }
    }

    /// The secret that a caller's bearer token must equal.
    pub fn auth(&self) -> (secret: &str)
        ensures
            secret@ == self@.auth,
    {
        self.auth.as_str()
    }

    /// True when `token` is the secret, character for character.
    pub fn accepts(&self, token: &str) -> (accepted: bool)
        ensures
            accepted == (token@ == self@.auth),
    {
        let presented = token.to_owned();
        presented == self.auth
    }

    /// Where the log is written.
    pub fn logfile(&self) -> (path: &str)
        ensures
            path@ == self@.logfile,
    {
        self.logfile.as_str()
    }

    /// The table of registered commands.
    pub fn commands(&self) -> (table: &toml::Table)
        ensures
            registry_of(table_entries(*table)) == self@.commands,
    {
        &self.commands
    }

    /// The invocation string registered under `name`, if there is one.
    pub fn lookup(&self, name: &str) -> (found: Option<&str>)
        ensures
            found.is_some() == self@.commands.contains_key(name@),
            found matches Some(line) ==> line@ == self@.commands[name@],
    {
        match table_get(&self.commands, name) {
            Some(Some(line)) => Some(line),
            _ => None,
        }
    }
}

} // verus!
