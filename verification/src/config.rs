//! Configuration commands and their argument parsing.
//!
//! A driver hands the library `key=value` strings; the functions here split
//! them into keys and raw values and map key namespaces onto scopes.  Entries
//! that do not parse are skipped, the rest keep their order — a deliberate,
//! documented choice for batch input.

use vstd::prelude::*;
use vstd::string::*;

use crate::install_settings::{spec_scope_of, Scope};
use crate::text::{spec_split_once, split_once_char};

verus! {

/// Represents a configuration key (e.g., "storage.lvm"): a namespace and a
/// field name.
#[derive(Debug, PartialEq, Eq, Hash)]
pub struct ConfigKey(pub String, pub String);

impl ConfigKey {
    /// Parses `"namespace.name"`, splitting at the first `.`; a key without a
    /// `.` is invalid.
    pub fn parse(s: &str) -> (r: Result<ConfigKey, String>)
        ensures
            match r {
                Ok(key) => spec_split_once(s@, '.') == Some((key.0@, key.1@)),
                Err(e) => spec_split_once(s@, '.') is None && e@ == "Not a valid key"@,
            },
    {
        match split_once_char(s, '.') {
            Some((namespace, name)) => Ok(
                ConfigKey(String::from_str(namespace), String::from_str(name)),
            ),
            None => Err(String::from_str("Not a valid key")),
        }
    }
}

impl core::str::FromStr for ConfigKey {
    type Err = String;

    fn from_str(s: &str) -> Result<ConfigKey, String> {
        ConfigKey::parse(s)
    }
}

/// A raw configuration value.
#[derive(Debug)]
pub struct ConfigValue(pub String);

/// A parsed `key=value` assignment.
#[derive(Debug)]
pub struct ConfigAssignment(pub ConfigKey, pub ConfigValue);

impl ConfigAssignment {
    /// Parses `"namespace.name=value"`: the text is split at its first `=`
    /// and the left part must parse as a key.
    pub fn parse(s: &str) -> (r: Result<ConfigAssignment, String>)
        ensures
            match r {
                Ok(a) => spec_split_once(s@, '=') matches Some(parts)
                    && spec_split_once(parts.0, '.') == Some((a.0.0@, a.0.1@))
                    && a.1.0@ == parts.1,
                Err(e) => e@ == "Not a valid assignment"@ && match spec_split_once(s@, '=') {
                    None => true,
                    Some(parts) => spec_split_once(parts.0, '.') is None,
                },
            },
    {
        match split_once_char(s, '=') {
            Some((key_text, value)) => match ConfigKey::parse(key_text) {
                Ok(key) => Ok(ConfigAssignment(key, ConfigValue(String::from_str(value)))),
                Err(_) => Err(String::from_str("Not a valid assignment")),
            },
            None => Err(String::from_str("Not a valid assignment")),
        }
    }
}

impl core::str::FromStr for ConfigAssignment {
    type Err = String;

    fn from_str(s: &str) -> Result<ConfigAssignment, String> {
        ConfigAssignment::parse(s)
    }
}

/// The configuration subcommands a driver offers.
#[derive(Debug)]
pub enum ConfigCommands {
    /// Add an element to a collection
    Add { key: String, values: Vec<String> },
    /// Set one or many installation settings
    Assign { values: Vec<String> },
    /// Shows the value of one or many configuration settings
    Show,
    /// Loads the configuration from a JSON file
    Load { path: String },
}

/// One configuration action, its arguments parsed into key/value pairs.
#[derive(Debug)]
pub enum ConfigAction {
    Add(String, Vec<(String, String)>),
    Assign(Vec<(String, String)>),
    Show,
    Load(String),
}

/// The key/value pairs a list of `key=value` arguments denotes: each argument
/// is split at its first `=`, arguments without `=` are dropped, order is
/// kept.
pub open spec fn spec_key_value_pairs(values: Seq<Seq<char>>) -> Seq<(Seq<char>, Seq<char>)>
    decreases values.len(),
{
    if values.len() == 0 {
        Seq::empty()
    } else {
        (match spec_split_once(values[0], '=') {
            Some(parts) => seq![parts],
            None => Seq::empty(),
        }) + spec_key_value_pairs(values.drop_first())
    }
}

/// Appends one key/value pair, relating the deep views.
fn push_pair(pairs: &mut Vec<(String, String)>, key: String, value: String)
    ensures
        final(pairs).deep_view() == old(pairs).deep_view().push((key@, value@)),
{
    let ghost kv = (key@, value@);
    pairs.push((key, value));
    proof {
        assert forall|j: int| 0 <= j < pairs.deep_view().len() implies pairs.deep_view()[j]
            == old(pairs).deep_view().push(kv)[j] by {
            assert(pairs.deep_view()[j] == pairs@[j].deep_view());
            if j < old(pairs)@.len() {
                assert(old(pairs).deep_view()[j] == old(pairs)@[j].deep_view());
            }
        }
        assert(pairs.deep_view() =~= old(pairs).deep_view().push(kv));
    }
}

/// Splits each `key=value` argument at its first `=`; arguments without `=`
/// are skipped, the pairs keep the argument order.
pub fn parse_keys_values(keys_values: Vec<String>) -> (r: Vec<(String, String)>)
    ensures
        r.deep_view() == spec_key_value_pairs(keys_values.deep_view()),
{
    let ghost all = keys_values.deep_view();
    let mut out: Vec<(String, String)> = Vec::new();
    let mut i: usize = 0;
    proof {
        assert(all.skip(0) =~= all);
        assert(out.deep_view() =~= Seq::<(Seq<char>, Seq<char>)>::empty());
    }
    while i < keys_values.len()
        invariant
            i <= keys_values@.len(),
            all == keys_values.deep_view(),
            out.deep_view() + spec_key_value_pairs(all.skip(i as int))
                == spec_key_value_pairs(all),
        decreases keys_values@.len() - i,
    {
        proof {
            assert(all[i as int] == keys_values@[i as int].deep_view());
            assert(all.skip(i as int)[0] == all[i as int]);
            assert(all.skip(i as int).drop_first() =~= all.skip(i as int + 1));
        }
        let ghost before = out.deep_view();
        match split_once_char(keys_values[i].as_str(), '=') {
            Some((key, value)) => {
                let ghost kv = (key@, value@);
                push_pair(&mut out, String::from_str(key), String::from_str(value));
                proof {
                    assert(spec_key_value_pairs(all.skip(i as int)) =~= seq![kv]
                        + spec_key_value_pairs(all.skip(i as int + 1)));
                    assert(out.deep_view() + spec_key_value_pairs(all.skip(i as int + 1))
                        =~= before + spec_key_value_pairs(all.skip(i as int)));
                }
            },
            None => {
                proof {
                    assert(spec_key_value_pairs(all.skip(i as int))
                        == spec_key_value_pairs(all.skip(i as int + 1)));
                }
            },
        }
        i += 1;
    }
    proof {
        assert(all.skip(all.len() as int).len() == 0);
        assert(out.deep_view() + spec_key_value_pairs(all.skip(all.len() as int))
            =~= out.deep_view());
    }
    out
}

/// Reduces a configuration subcommand to the action to run, parsing its
/// `key=value` arguments.
pub fn parse_config_command(subcommand: ConfigCommands) -> (r: ConfigAction)
    ensures
        match subcommand {
            ConfigCommands::Add { key, values } => r matches ConfigAction::Add(k, pairs)
                && k == key && pairs.deep_view() == spec_key_value_pairs(values.deep_view()),
            ConfigCommands::Assign { values } => r matches ConfigAction::Assign(pairs)
                && pairs.deep_view() == spec_key_value_pairs(values.deep_view()),
            ConfigCommands::Show => r is Show,
            ConfigCommands::Load { path } => r matches ConfigAction::Load(p) && p == path,
        },
{
    match subcommand {
        ConfigCommands::Add { key, values } => ConfigAction::Add(key, parse_keys_values(values)),
        ConfigCommands::Show => ConfigAction::Show,
        ConfigCommands::Assign { values } => ConfigAction::Assign(parse_keys_values(values)),
        ConfigCommands::Load { path } => ConfigAction::Load(path),
    }
}

/// The scope the namespace of a dotted key names, if any.
pub fn key_to_scope(key: &str) -> (r: Option<Scope>)
    ensures
        match r {
            Some(scope) => spec_split_once(key@, '.') matches Some(parts)
                && spec_scope_of(parts.0) == Some(scope),
            None => match spec_split_once(key@, '.') {
                None => true,
                Some(parts) => spec_scope_of(parts.0) is None,
            },
        },
{
    match split_once_char(key, '.') {
        Some((name, _)) => match Scope::from_name(name) {
            Ok(scope) => Some(scope),
            Err(_) => None,
        },
        None => None,
    }
}

} // verus!
