//! Parsed configuration documents: an ordered list of named sections, each
//! an ordered list of key/value pairs. Parsing the INI syntax is delegated
//! to the `ini` crate behind a trusted wrapper; every lookup over the parsed
//! document is verified here.

use crate::text::str_eq;
use vstd::prelude::*;

verus! {

/// One `key = value` pair of a configuration section.
pub struct ConfigEntry {
    pub key: String,
    pub value: String,
}

/// One section of a document; `None` names the unnamed general section.
pub struct ConfigSection {
    pub name: Option<String>,
    pub entries: Vec<ConfigEntry>,
}

/// A whole configuration document: its sections in document order.
pub struct ConfigDoc {
    pub sections: Vec<ConfigSection>,
}

impl View for ConfigEntry {
    type V = (Seq<char>, Seq<char>);

    open spec fn view(&self) -> Self::V {
        (self.key@, self.value@)
    }
}

impl View for ConfigSection {
    type V = (Option<Seq<char>>, Seq<(Seq<char>, Seq<char>)>);

    open spec fn view(&self) -> Self::V {
        (
            match self.name {
                Some(n) => Some(n@),
                None => None,
            },
            self.entries@.map_values(|e: ConfigEntry| e@),
        )
    }
}

impl View for ConfigDoc {
    type V = Seq<(Option<Seq<char>>, Seq<(Seq<char>, Seq<char>)>)>;

    open spec fn view(&self) -> Self::V {
        self.sections@.map_values(|s: ConfigSection| s@)
    }
}

#[verifier::external_type_specification]
#[verifier::external_body]
pub struct ExParseError(ini::ParseError);

/// The document that the INI text denotes, or `None` for malformed text.
pub uninterp spec fn ini_doc_of(text: Seq<char>) -> Option<
    Seq<(Option<Seq<char>>, Seq<(Seq<char>, Seq<char>)>)>,
>;

/// Relies on `ini::Ini::load_from_str` and the iterators of `ini::Ini` and
/// `ini::Properties`: parsing depends on the text alone, sections and their
/// properties come back in document order, and malformed syntax is a
/// `ParseError`.
#[verifier::external_body]
pub fn parse_config_text(text: &str) -> (r: Result<ConfigDoc, ini::ParseError>)
    ensures
        r matches Ok(doc) ==> ini_doc_of(text@) == Some(doc@),
        r is Err <==> ini_doc_of(text@) is None,
{
    let ini = match ini::Ini::load_from_str(text) {
        Ok(i) => i,
        Err(e) => return Err(e),
    };
    let mut sections = Vec::new();
    for (name, props) in ini.iter() {
        let mut entries = Vec::new();
        for (k, v) in props.iter() {
            entries.push(ConfigEntry { key: k.to_string(), value: v.to_string() });
        }
        sections.push(ConfigSection { name: name.map(|n| n.to_string()), entries });
    }
    Ok(ConfigDoc { sections })
}

/// The first section of `doc` named `name`, as `ini::Ini::section` finds it.
pub open spec fn find_section(
    doc: Seq<(Option<Seq<char>>, Seq<(Seq<char>, Seq<char>)>)>,
    name: Seq<char>,
) -> Option<(Option<Seq<char>>, Seq<(Seq<char>, Seq<char>)>)>
    decreases doc.len(),
{
    if doc.len() == 0 {
        None
    } else if doc[0].0 == Some(name) {
        Some(doc[0])
    } else {
        find_section(doc.drop_first(), name)
    }
}

/// The value of the first entry with the given key, as `ini::Properties::get`
/// finds it.
pub open spec fn find_value(entries: Seq<(Seq<char>, Seq<char>)>, key: Seq<char>) -> Option<
    Seq<char>,
>
    decreases entries.len(),
{
    if entries.len() == 0 {
        None
    } else if entries[0].0 == key {
        Some(entries[0].1)
    } else {
        find_value(entries.drop_first(), key)
    }
}

/// The value under `key` in the first section named `name`, if both exist.
pub open spec fn lookup(
    doc: Seq<(Option<Seq<char>>, Seq<(Seq<char>, Seq<char>)>)>,
    name: Seq<char>,
    key: Seq<char>,
) -> Option<Seq<char>> {
    match find_section(doc, name) {
        Some(s) => find_value(s.1, key),
        None => None,
    }
}

impl ConfigSection {
    /// The value of the first entry with the given key.
    pub fn get<'a>(&'a self, key: &str) -> (r: Option<&'a String>)
        ensures
            match r {
                Some(v) => find_value(self@.1, key@) == Some(v@),
                None => find_value(self@.1, key@) is None,
            },
    {
        let n = self.entries.len();
        let mut i: usize = 0;
        proof {
            assert(self@.1.skip(0) =~= self@.1);
        }
        while i < n
            invariant
                i <= n,
                n == self.entries.len(),
                find_value(self@.1, key@) == find_value(self@.1.skip(i as int), key@),
            decreases n - i,
        {
            proof {
                assert(self@.1.skip(i as int)[0] == self@.1[i as int]);
                assert(self@.1.skip(i as int).drop_first() =~= self@.1.skip(i + 1));
            }
            if str_eq(self.entries[i].key.as_str(), key) {
                return Some(&self.entries[i].value);
            }
            i += 1;
        }
        proof {
            assert(self@.1.skip(n as int).len() == 0);
        }
        None
    }
}

impl ConfigDoc {
    /// The first section named `name`.
    pub fn section<'a>(&'a self, name: &str) -> (r: Option<&'a ConfigSection>)
        ensures
            match r {
                Some(s) => find_section(self@, name@) == Some(s@),
                None => find_section(self@, name@) is None,
            },
    {
        let n = self.sections.len();
        let mut i: usize = 0;
        proof {
            assert(self@.skip(0) =~= self@);
        }
        while i < n
            invariant
                i <= n,
                n == self.sections.len(),
                find_section(self@, name@) == find_section(self@.skip(i as int), name@),
            decreases n - i,
        {
            proof {
                assert(self@.skip(i as int)[0] == self@[i as int]);
                assert(self@.skip(i as int).drop_first() =~= self@.skip(i + 1));
            }
            let matches_name = match &self.sections[i].name {
                Some(sec_name) => str_eq(sec_name.as_str(), name),
                None => false,
            };
            if matches_name {
                return Some(&self.sections[i]);
            }
            i += 1;
        }
        proof {
            assert(self@.skip(n as int).len() == 0);
        }
        None
    }

    /// The index of the first section named `name`.
    pub fn section_index(&self, name: &str) -> (r: Option<usize>)
        ensures
            match r {
                Some(ix) => ix < self@.len() && self@[ix as int].0 == Some(name@) && (forall|
                    k: int,
                |
                    0 <= k < ix ==> self@[k].0 != Some(name@)) && find_section(self@, name@)
                    == Some(self@[ix as int]),
                None => find_section(self@, name@) is None,
            },
    {
        let n = self.sections.len();
        let mut i: usize = 0;
        proof {
            assert(self@.skip(0) =~= self@);
        }
        while i < n
            invariant
                i <= n,
                n == self.sections.len(),
                find_section(self@, name@) == find_section(self@.skip(i as int), name@),
                forall|k: int| 0 <= k < i ==> self@[k].0 != Some(name@),
            decreases n - i,
        {
            proof {
                assert(self@.skip(i as int)[0] == self@[i as int]);
                assert(self@.skip(i as int).drop_first() =~= self@.skip(i + 1));
            }
            let matches_name = match &self.sections[i].name {
                Some(sec_name) => str_eq(sec_name.as_str(), name),
                None => false,
            };
            if matches_name {
                return Some(i);
            }
            i += 1;
        }
        proof {
            assert(self@.skip(n as int).len() == 0);
        }
        None
    }

    /// The value under `key` in the first section named `name`.
    pub fn get<'a>(&'a self, name: &str, key: &str) -> (r: Option<&'a String>)
        ensures
            match r {
                Some(v) => lookup(self@, name@, key@) == Some(v@),
                None => lookup(self@, name@, key@) is None,
            },
    {
        match self.section(name) {
            Some(sec) => sec.get(key),
            None => None,
        }
    }
}

} // verus!
