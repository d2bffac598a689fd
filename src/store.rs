//! The translation store: one table per language, and the active language.
use vstd::prelude::*;
use vstd::string::{StrSliceExecFns, StringExecFns};
use crate::interp::{interpolate, interpolation};
use crate::source::{lookup, ns_name, Source};
use crate::table::{find_last, lemma_to_map_lookup, to_map};
use crate::text::{lower_of, lowercase, upper_of, uppercase, views};

verus! {

/// A table of one language, as namespace, then key, then text.
pub type SourceMap = Map<Seq<char>, Map<Seq<char>, Seq<char>>>;

/// Language tables by language id; a later entry hides an earlier one.
pub open spec fn tables_map(s: Seq<(String, Source)>) -> Map<Seq<char>, SourceMap> {
    to_map(s, |v: Source| v@)
}

/// What a lookup of `key` in namespace `ns` gives with `lang` active: the
/// stored text, or the key itself where the language, the namespace or the
/// key is missing.
pub open spec fn translated(tables: Map<Seq<char>, SourceMap>, lang: Seq<char>, key: Seq<char>, ns: Seq<char>) -> Seq<char> {
    if tables.contains_key(lang) {
        match lookup(tables[lang], ns, key) {
            Some(v) => v,
            None => key,
        }
    } else {
        key
    }
}

/// Position of the last `.` in a file name.
pub open spec fn last_dot(s: Seq<char>) -> Option<int>
    decreases s.len(),
{
    if s.len() == 0 {
        None
    } else if s.last() == '.' {
        Some(s.len() - 1)
    } else {
        last_dot(s.drop_last())
    }
}

/// The language that a file name gives: the part before the last `.`, in
/// upper case, where the part after it is `json` in any case.
pub open spec fn file_language(name: Seq<char>) -> Option<Seq<char>> {
    match last_dot(name) {
        Some(i) => if lower_of(name.skip(i + 1)) == "json"@ {
            Some(upper_of(name.take(i)))
        } else {
            None
        },
        None => None,
    }
}

/// The tables that a list of (file name, table) pairs gives: files whose
/// name gives no language are left out, and a later file replaces an
/// earlier one of the same language.
pub open spec fn loaded(files: Seq<(String, Source)>) -> Map<Seq<char>, SourceMap>
    decreases files.len(),
{
    if files.len() == 0 {
        Map::empty()
    } else {
        let prev = loaded(files.drop_last());
        match file_language(files.last().0@) {
            Some(id) => prev.insert(id, files.last().1@),
            None => prev,
        }
    }
}

/// Finds the last `.` in a file name.
fn find_last_dot(name: &str) -> (r: Option<usize>)
    ensures
        r matches Some(i) ==> i < name@.len() && last_dot(name@) == Some(i as int),
        r is None ==> last_dot(name@) is None,
{
    let mut i: usize = name.unicode_len();
    assert(name@.take(i as int) =~= name@);
    while i > 0
        invariant
            i <= name@.len(),
            last_dot(name@) == last_dot(name@.take(i as int)),
        decreases i,
    {
        assert(name@.take(i as int).drop_last() =~= name@.take(i - 1));
        if name.get_char(i - 1) == '.' {
            return Some(i - 1);
        }
        i = i - 1;
    }
    None
}

/// The language id that a source file name gives, if it names a JSON file.
pub fn language_of_file(name: &str) -> (r: Option<String>)
    ensures
        match r {
            Some(id) => file_language(name@) == Some(id@),
            None => file_language(name@) is None,
        },
{
    match find_last_dot(name) {
        None => None,
        Some(i) => {
            let n = name.unicode_len();
            let ext = lowercase(name.substring_char(i + 1, n));
            assert(name@.subrange(i + 1, n as int) =~= name@.skip(i + 1));
            if ext == String::from_str("json") {
                assert(name@.subrange(0, i as int) =~= name@.take(i as int));
                Some(uppercase(name.substring_char(0, i)))
            } else {
                None
            }
        },
    }
}

/// A translation store: the active language and the table of each language.
#[derive(Debug, Clone)]
pub struct I18n {
    pub(crate) lang: String,
    pub(crate) source: Vec<(String, Source)>,
}

impl I18n {
    /// The active language id.
    pub closed spec fn lang_id(&self) -> Seq<char> {
        self.lang@
    }

    /// The table of each language.
    pub closed spec fn tables(&self) -> Map<Seq<char>, SourceMap> {
        tables_map(self.source@)
    }

    /// A store with `lang` active (in upper case) and no tables.
    pub fn new(lang: &str) -> (r: I18n)
        ensures
            r.lang_id() == upper_of(lang@),
            r.tables() == Map::<Seq<char>, SourceMap>::empty(),
    {
        I18n { lang: uppercase(lang), source: Vec::new() }
    }

    /// Makes `lang` (in upper case) the active language.
    pub fn set_lang(&mut self, lang: &str)
        ensures
            final(self).lang_id() == upper_of(lang@),
            final(self).tables() == old(self).tables(),
    {
        self.lang = uppercase(lang);
    }

    /// Replaces all tables with those of `files`, pairs of a file name and
    /// the table read from that file, in the order the files were found.
    pub fn set_source(&mut self, files: Vec<(String, Source)>)
        ensures
            final(self).lang_id() == old(self).lang_id(),
            final(self).tables() == loaded(files@),
    {
        let ghost orig = files@;
        let ghost mut k: int = 0;
        let mut files = files;
        let mut out: Vec<(String, Source)> = Vec::new();
        while files.len() > 0
            invariant
                0 <= k <= orig.len(),
                files@ == orig.skip(k),
                tables_map(out@) == loaded(orig.take(k)),
            decreases files@.len(),
        {
            assert(orig.take(k + 1).drop_last() =~= orig.take(k));
            let (name, src) = files.remove(0);
            assert(orig.skip(k + 1) =~= orig.skip(k).remove(0));
            match language_of_file(name.as_str()) {
                Some(id) => {
                    let ghost before = out@;
                    out.push((id, src));
                    assert(out@.drop_last() =~= before);
                },
                None => {},
            }
            proof {
                k = k + 1;
            }
        }
        assert(orig.take(k) =~= orig);
        self.source = out;
    }

    /// The text for `text` in namespace `ns` (`"common"` when `None`) of the
    /// active language, or `text` itself where there is none.
    pub fn translate(&self, text: &str, ns: Option<String>) -> (r: String)
        ensures
            r@ == translated(self.tables(), self.lang_id(), text@, ns_name(ns)),
    {
        proof {
            lemma_to_map_lookup(self.source@, |v: Source| v@, self.lang@);
        }
        match find_last(&self.source, &self.lang) {
            Some(i) => match self.source[i].1.get_val(text, ns) {
                Some(v) => v,
                None => String::from_str(text),
            },
            None => String::from_str(text),
        }
    }

    /// Translates `text`, then replaces each `%N` in the result with the
    /// N-th of `vals` (counting from 1), or with nothing where there is none.
    pub fn trans_with_inter(&self, text: &str, vals: Vec<String>, ns: Option<String>) -> (r: String)
        ensures
            r@ == interpolation(
                translated(self.tables(), self.lang_id(), text@, ns_name(ns)),
                views(vals@),
            ),
    {
        let t = self.translate(text, ns);
        interpolate(t.as_str(), &vals)
    }
}

/// A key with no text under the active language and the given namespace
/// translates to itself.
pub proof fn lemma_missing_key_is_kept(store: I18n, key: Seq<char>, ns: Seq<char>)
    requires
        !(store.tables().contains_key(store.lang_id()) && lookup(store.tables()[store.lang_id()], ns, key) is Some),
    ensures
        translated(store.tables(), store.lang_id(), key, ns) == key,
{
}

/// Once `lang` is made active, every loaded text of that language is what
/// its key and namespace translate to, unchanged.
pub proof fn lemma_loaded_text_is_returned(store: I18n, lang: Seq<char>, key: Seq<char>, ns: Seq<char>)
    requires
        store.lang_id() == upper_of(lang),
        store.tables().contains_key(upper_of(lang)),
        lookup(store.tables()[upper_of(lang)], ns, key) is Some,
    ensures
        translated(store.tables(), store.lang_id(), key, ns) == lookup(store.tables()[upper_of(lang)], ns, key).unwrap(),
{
}

/// Two language ids with the same upper-case form select the same table, so
/// every key translates alike under either.
pub proof fn lemma_language_case_ignored(tables: Map<Seq<char>, SourceMap>, a: Seq<char>, b: Seq<char>, key: Seq<char>, ns: Seq<char>)
    requires
        upper_of(a) == upper_of(b),
    ensures
        translated(tables, upper_of(a), key, ns) == translated(tables, upper_of(b), key, ns),
{
}

/// A lookup without a namespace is a lookup in `"common"`.
pub proof fn lemma_default_namespace(store: I18n, key: Seq<char>, common: String)
    requires
        common@ == "common"@,
    ensures
        translated(store.tables(), store.lang_id(), key, ns_name(None))
            == translated(store.tables(), store.lang_id(), key, ns_name(Some(common))),
{
}

/// Loading from no files at all leaves no language, and then every key
/// translates to itself.
pub proof fn lemma_no_files_no_translation(files: Seq<(String, Source)>, lang: Seq<char>, key: Seq<char>, ns: Seq<char>)
    requires
        files.len() == 0,
    ensures
        loaded(files) == Map::<Seq<char>, SourceMap>::empty(),
        translated(loaded(files), lang, key, ns) == key,
{
}

} // verus!
