//! Plain descriptions of catalog entries as the catalog lists them.
use vstd::prelude::*;
use crate::text::{join, joined, string_views};

verus! {

/// A namespace as listed by the catalog: its path and its display name.
#[derive(Clone, Debug)]
pub struct NamespaceDeets {
    pub parts: Vec<String>,
    pub name: String,
    pub table_count: usize,
}

/// A table as listed by the catalog.
#[derive(Clone, Debug)]
pub struct TableDeets {
    pub namespace: Vec<String>,
    pub name: String,
    pub row_count: usize,
}

/// The display name of a namespace path: its parts joined by dots.
pub open spec fn namespace_name(parts: Seq<Seq<char>>) -> Seq<char> {
    joined(parts, seq!['.'])
}

impl NamespaceDeets {
    /// A namespace with the given path, named by its parts joined with `.`,
    /// and no tables counted yet.
    pub fn from_parts(parts: Vec<String>) -> (r: Self)
        ensures
            r.parts@ == parts@,
            r.name@ == namespace_name(string_views(parts@)),
            r.table_count == 0,
    {
        let dot = ".";
        proof {
            reveal_strlit(".");
        }
        assert(dot@ == seq!['.']);
        let name = join(&parts, dot);
        NamespaceDeets { parts, name, table_count: 0 }
    }
}

} // verus!
