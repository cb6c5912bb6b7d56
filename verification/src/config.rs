//! The `docks.toml` configuration, as the tool reads it.
//!
//! The document is a table. Its `local` entry lists, under `containers`, the
//! containers deployed on this machine; each other entry is a server, with a
//! `username`, a `port`, an `ip` and the `containers` deployed there.
use vstd::prelude::*;
use crate::error::DockError;
use crate::invocation::text;

verus! {

/// A value of a TOML document.
#[derive(Debug)]
pub enum TomlValue {
    Text(String),
    Integer(i64),
    Boolean(bool),
    Array(Vec<TomlValue>),
    /// The entries of a table, in order (toml's tables come sorted by key).
    Table(Vec<(String, TomlValue)>),
    /// A float or a date, which the tool never reads.
    Other,
}

/// The value of the first entry named `key`.
pub open spec fn lookup(entries: Seq<(String, TomlValue)>, key: Seq<char>) -> Option<TomlValue>
    decreases entries.len(),
{
    if entries.len() == 0 {
        None
    } else if entries[0].0@ == key {
        Some(entries[0].1)
    } else {
        lookup(entries.drop_first(), key)
    }
}

/// The value under `key` when `v` is a table (`toml::Value::get`).
pub open spec fn value_get(v: TomlValue, key: Seq<char>) -> Option<TomlValue> {
    match v {
        TomlValue::Table(entries) => lookup(entries@, key),
        _ => None,
    }
}

/// The text of a value that is a string.
pub open spec fn text_of(v: Option<TomlValue>) -> Option<Seq<char>> {
    match v {
        Some(TomlValue::Text(s)) => Some(s@),
        _ => None,
    }
}

/// The text of a value that is a string, and the empty text otherwise.
pub open spec fn text_or_empty(v: Option<TomlValue>) -> Seq<char> {
    match text_of(v) {
        Some(t) => t,
        None => Seq::empty(),
    }
}

/// The items of a value that is an array.
pub open spec fn array_of(v: Option<TomlValue>) -> Option<Seq<TomlValue>> {
    match v {
        Some(TomlValue::Array(items)) => Some(items@),
        _ => None,
    }
}

/// The names of a table's entries, in order.
pub open spec fn names(entries: Seq<(String, TomlValue)>) -> Seq<Seq<char>> {
    entries.map_values(|e: (String, TomlValue)| e.0@)
}

/// Whether an entry names a server: every entry but `local`.
pub open spec fn is_server(name: Seq<char>) -> bool {
    name != "local"@
}

/// The servers that a configuration names, or why there are none.
pub open spec fn spec_servers(config: Result<TomlValue, DockError>) -> Result<Seq<Seq<char>>, DockError> {
    match config {
        Err(_) => Err(DockError::MissingConfiguration),
        Ok(TomlValue::Table(entries)) => Ok(names(entries@).filter(|n: Seq<char>| is_server(n))),
        Ok(_) => Err(DockError::NotATable),
    }
}

/// A reference, read as the value it points to.
pub open spec fn deref_opt(r: Option<&TomlValue>) -> Option<TomlValue> {
    match r {
        Some(v) => Some(*v),
        None => None,
    }
}

/// The texts of a vector of strings, as `Result`.
pub open spec fn texts_result(r: Result<Vec<String>, DockError>) -> Result<Seq<Seq<char>>, DockError> {
    match r {
        Ok(v) => Ok(crate::invocation::texts(v@)),
        Err(e) => Err(e),
    }
}

impl TomlValue {
    /// The value under `key`, when this value is a table.
    pub fn get(&self, key: &str) -> (r: Option<&TomlValue>)
        ensures
            deref_opt(r) == value_get(*self, key@),
    {
        match self {
            TomlValue::Table(entries) => {
                let k = text(key);
                let mut i: usize = 0;
                proof {
                    assert(entries@.skip(0) =~= entries@);
                }
                while i < entries.len()
                    invariant
                        i <= entries@.len(),
                        k@ == key@,
                        value_get(*self, key@) == lookup(entries@, key@),
                        lookup(entries@, key@) == lookup(entries@.skip(i as int), key@),
                    decreases entries@.len() - i,
                {
                    proof {
                        assert(entries@.skip(i as int).drop_first() =~= entries@.skip(i + 1));
                    }
                    proof {
                        assert(entries@.skip(i as int)[0] == entries@[i as int]);
                    }
                    if entries[i].0.eq(&k) {
                        assert(entries@[i as int].0@ == key@);
                        assert(entries@.skip(i as int).len() > 0);
                        return Some(&entries[i].1);
                    }
                    i = i + 1;
                }
                proof {
                    assert(entries@.skip(i as int).len() == 0);
                }
                None
            },
            _ => None,
        }
    }

    /// The text of this value, when it is a string.
    pub fn as_text(&self) -> (r: Option<&String>)
        ensures
            match r {
                Some(s) => text_of(Some(*self)) == Some(s@),
                None => text_of(Some(*self)) is None,
            },
    {
        match self {
            TomlValue::Text(s) => Some(s),
            _ => None,
        }
    }

    /// The items of this value, when it is an array.
    pub fn as_array(&self) -> (r: Option<&Vec<TomlValue>>)
        ensures
            match r {
                Some(items) => array_of(Some(*self)) == Some(items@),
                None => array_of(Some(*self)) is None,
            },
    {
        match self {
            TomlValue::Array(items) => Some(items),
            _ => None,
        }
    }
}

/// The servers that the configuration names: the entries of its table other
/// than `local`, in order. The configuration must have been read
/// (`MissingConfiguration`) and be a table (`NotATable`).
pub fn servers(config: &Result<TomlValue, DockError>) -> (r: Result<Vec<String>, DockError>)
    ensures
        texts_result(r) == spec_servers(*config),
{
    match config {
        Err(_) => Err(DockError::MissingConfiguration),
        Ok(TomlValue::Table(entries)) => {
            let ghost all = names(entries@);
            let mut found: Vec<String> = Vec::new();
            let mut i: usize = 0;
            while i < entries.len()
                invariant
                    i <= entries@.len(),
                    all == names(entries@),
                    crate::invocation::texts(found@) == all.take(i as int).filter(|n: Seq<char>| is_server(n)),
                decreases entries@.len() - i,
            {
                proof {
                    reveal_with_fuel(Seq::<Seq<char>>::filter, 1);
                    assert(all.take(i + 1).drop_last() =~= all.take(i as int));
                    assert(all.take(i + 1).last() == entries@[i as int].0@);
                }
                let name = &entries[i].0;
                let local = text("local");
                if !name.eq(&local) {
                    let ghost before = found@;
                    found.push(name.clone());
                    proof {
                        assert(found@ =~= before.push(found@[before.len() as int]));
                        assert(crate::invocation::texts(found@) =~= crate::invocation::texts(before).push(name@));
                    }
                }
                i = i + 1;
            }
            proof {
                assert(all.take(entries@.len() as int) =~= all);
            }
            Ok(found)
        },
        Ok(_) => Err(DockError::NotATable),
    }
}

} // verus!
