//! The values of a template's configuration, as the placeholder logic reads
//! them.

use vstd::prelude::*;
use crate::str_map::StrMap;

verus! {

/// A value of the template's TOML configuration.
#[derive(Debug, PartialEq, Eq)]
pub enum TomlValue {
    String(String),
    Integer(i64),
    Boolean(bool),
    Array(Vec<TomlValue>),
    Table(Vec<(String, TomlValue)>),
    /// A float, held as its debug text.
    Float(String),
    /// A date-time, held as its debug text.
    Datetime(String),
}

/// A table of the template's configuration, such as one placeholder.
pub type TomlMap = StrMap<TomlValue>;

} // verus!
