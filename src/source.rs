//! The translations of one language: namespace, then key, then text.
use vstd::prelude::*;
use vstd::string::StringExecFns;
use crate::table::{find_last, last_index, lemma_to_map_lookup, to_map};

verus! {

/// The namespace that a lookup without an explicit one goes to.
pub open spec fn ns_name(ns: Option<String>) -> Seq<char> {
    match ns {
        Some(n) => n@,
        None => "common"@,
    }
}

/// The keys of one namespace and their texts.
pub open spec fn entries_map(e: Vec<(String, String)>) -> Map<Seq<char>, Seq<char>> {
    to_map(e@, |v: String| v@)
}

/// Namespaces, each with its keys and texts; later entries hide earlier ones.
pub open spec fn namespaces_map(s: Seq<(String, Vec<(String, String)>)>) -> Map<
    Seq<char>,
    Map<Seq<char>, Seq<char>>,
> {
    to_map(s, |e: Vec<(String, String)>| entries_map(e))
}

/// The text stored under namespace `ns` and key `key`, if both exist.
pub open spec fn lookup(m: Map<Seq<char>, Map<Seq<char>, Seq<char>>>, ns: Seq<char>, key: Seq<char>) -> Option<Seq<char>> {
    if m.contains_key(ns) && m[ns].contains_key(key) {
        Some(m[ns][key])
    } else {
        None
    }
}

/// The translation table of a single language.
#[derive(Debug, Clone)]
pub struct Source {
    namespaces: Vec<(String, Vec<(String, String)>)>,
}

impl View for Source {
    type V = Map<Seq<char>, Map<Seq<char>, Seq<char>>>;

    closed spec fn view(&self) -> Self::V {
        namespaces_map(self.namespaces@)
    }
}

impl Source {
    /// Builds a table from namespaces and their (key, text) pairs. Where a
    /// namespace, or a key within one, occurs twice, the later one counts.
    pub fn new(namespaces: Vec<(String, Vec<(String, String)>)>) -> (r: Source)
        ensures
            r@ == namespaces_map(namespaces@),
    {
        Source { namespaces }
    }

    /// The text under `key` in namespace `ns` (`"common"` when `None`).
    pub fn get_val(&self, key: &str, ns: Option<String>) -> (r: Option<String>)
        ensures
            match r {
                Some(v) => lookup(self@, ns_name(ns), key@) == Some(v@),
                None => lookup(self@, ns_name(ns), key@) is None,
            },
    {
        let ghost n = ns_name(ns);
        let ns = match ns {
            Some(n) => n,
            None => String::from_str("common"),
        };
        assert(ns@ == n);
        let key = String::from_str(key);
        let outer = &self.namespaces;
        proof {
            lemma_to_map_lookup(outer@, |e: Vec<(String, String)>| entries_map(e), n);
        }
        match find_last(outer, &ns) {
            None => None,
            Some(i) => {
                let entries = &outer[i].1;
                proof {
                    lemma_to_map_lookup(entries@, |v: String| v@, key@);
                }
                match find_last(entries, &key) {
                    None => None,
                    Some(j) => Some(entries[j].1.clone()),
                }
            },
        }
    }
}

} // verus!
