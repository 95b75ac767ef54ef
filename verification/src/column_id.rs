//! Identifies a result column, by position or by name.
use vstd::prelude::*;

verus! {

/// A column reference: a zero-based index or a column name.
#[derive(Debug, Clone, PartialEq)]
pub enum ColumnId {
    I32(i32),
    String(String),
}

impl From<i32> for ColumnId {
    fn from(value: i32) -> (r: Self) {
        ColumnId::I32(value)
    }
}

impl vstd::std_specs::convert::FromSpecImpl<i32> for ColumnId {
    open spec fn obeys_from_spec() -> bool {
        true
    }

    open spec fn from_spec(value: i32) -> Self {
        ColumnId::I32(value)
    }
}

impl From<String> for ColumnId {
    fn from(value: String) -> (r: Self) {
        ColumnId::String(value)
    }
}

impl vstd::std_specs::convert::FromSpecImpl<String> for ColumnId {
    open spec fn obeys_from_spec() -> bool {
        true
    }

    open spec fn from_spec(value: String) -> Self {
        ColumnId::String(value)
    }
}

impl From<&str> for ColumnId {
    fn from(value: &str) -> (r: Self) {
        ColumnId::String(value.to_owned())
    }
}

impl vstd::std_specs::convert::FromSpecImpl<&str> for ColumnId {
    open spec fn obeys_from_spec() -> bool {
        false
    }

    open spec fn from_spec(value: &str) -> Self {
        vstd::pervasive::arbitrary()
    }
}

} // verus!
