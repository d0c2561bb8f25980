//! The preset catalog: enumerates the `preset.N` sections of the presets
//! configuration in ascending index order, stopping at the first missing
//! index, and filters the result by an optional caller-supplied allow-list.

use crate::config::{find_section, find_value, parse_config_text, ConfigDoc};
use crate::exporters::{Error, ExportPreset};
use crate::text::{
    dec_digits, lemma_dec_digits_injective, push_decimal, str_eq, string_from_chars,
};
use vstd::prelude::*;
use vstd::set_lib::{lemma_int_range, lemma_len_subset, set_int_range};
use vstd::string::StringExecFns;

verus! {

/// The name of the preset section with the given index.
pub open spec fn preset_section_name(i: nat) -> Seq<char> {
    seq!['p', 'r', 'e', 's', 'e', 't', '.'] + dec_digits(i)
}

fn preset_key(i: usize) -> (r: String)
    ensures
        r@ == preset_section_name(i as nat),
{
    let mut v: Vec<char> = Vec::new();
    v.push('p');
    v.push('r');
    v.push('e');
    v.push('s');
    v.push('e');
    v.push('t');
    v.push('.');
    proof {
        assert(v@ =~= seq!['p', 'r', 'e', 's', 'e', 't', '.']);
    }
    push_decimal(i, &mut v);
    string_from_chars(&v)
}

/// Distinct indices name distinct preset sections.
proof fn lemma_preset_name_injective(a: nat, b: nat)
    requires
        preset_section_name(a) == preset_section_name(b),
    ensures
        a == b,
{
    assert(preset_section_name(a).skip(7) =~= dec_digits(a));
    assert(preset_section_name(b).skip(7) =~= dec_digits(b));
    lemma_dec_digits_injective(a, b);
}

/// Whether the document has a section for preset index `i`.
pub open spec fn has_preset_section(
    doc: Seq<(Option<Seq<char>>, Seq<(Seq<char>, Seq<char>)>)>,
    i: nat,
) -> bool {
    find_section(doc, preset_section_name(i)) is Some
}

/// The preset fields a section defines: a missing `name` or `platform` key
/// falls back to a sentinel string instead of failing, and the storefront
/// flag is the `steam` key being literally `true`.
pub open spec fn preset_of_section(
    s: (Option<Seq<char>>, Seq<(Seq<char>, Seq<char>)>),
) -> (Seq<char>, Seq<char>, bool) {
    (
        match find_value(s.1, "name"@) {
            Some(n) => n,
            None => "no name"@,
        },
        match find_value(s.1, "platform"@) {
            Some(p) => p,
            None => "no platform"@,
        },
        find_value(s.1, "steam"@) == Some("true"@),
    )
}

/// The fields of the preset at index `i`, where its section exists.
pub open spec fn preset_fields_at(
    doc: Seq<(Option<Seq<char>>, Seq<(Seq<char>, Seq<char>)>)>,
    i: nat,
) -> Option<(Seq<char>, Seq<char>, bool)> {
    match find_section(doc, preset_section_name(i)) {
        Some(s) => Some(preset_of_section(s)),
        None => None,
    }
}

/// `presets` is exactly the catalog of `doc`: one preset per `preset.N`
/// section in ascending index order, halting at the first missing index,
/// whatever higher indices appear later in the document.
pub open spec fn is_catalog(
    doc: Seq<(Option<Seq<char>>, Seq<(Seq<char>, Seq<char>)>)>,
    presets: Seq<ExportPreset>,
) -> bool {
    &&& forall|j: int|
        0 <= j < presets.len() ==> Some(
            ((#[trigger] presets[j]).name@, presets[j].platform@, presets[j].steam),
        ) == preset_fields_at(doc, j as nat)
    &&& !has_preset_section(doc, presets.len() as nat)
}

/// Enumerates the catalog of a parsed presets document.
pub fn enumerate_presets(doc: &ConfigDoc) -> (r: Vec<ExportPreset>)
    ensures
        is_catalog(doc@, r@),
{
    let mut out: Vec<ExportPreset> = Vec::new();
    let mut stop = false;
    let ghost mut used: Seq<int> = Seq::empty();
    while !stop
        invariant
            out@.len() == used.len(),
            used.len() <= doc@.len(),
            forall|j: int|
                0 <= j < used.len() ==> 0 <= #[trigger] used[j] < doc@.len() && doc@[used[j]].0
                    == Some(preset_section_name(j as nat)),
            forall|j: int|
                0 <= j < out@.len() ==> Some(
                    ((#[trigger] out@[j]).name@, out@[j].platform@, out@[j].steam),
                ) == preset_fields_at(doc@, j as nat),
            stop ==> !has_preset_section(doc@, out@.len() as nat),
        decreases doc@.len() - out@.len() + (if stop {
            0int
        } else {
            1int
        }),
    {
        let i = out.len();
        let key = preset_key(i);
        match doc.section_index(key.as_str()) {
            Some(ix) => {
                let sec = &doc.sections[ix];
                proof {
                    assert(sec@ == doc@[ix as int]);
                }
                let name = match sec.get("name") {
                    Some(v) => v.clone(),
                    None => String::from_str("no name"),
                };
                let platform = match sec.get("platform") {
                    Some(v) => v.clone(),
                    None => String::from_str("no platform"),
                };
                let steam = match sec.get("steam") {
                    Some(v) => str_eq(v.as_str(), "true"),
                    None => false,
                };
                let ghost pname = name@;
                let ghost pplatform = platform@;
                let ghost prev_out = out@;
                out.push(ExportPreset { name, platform, steam });
                proof {
                    let newp = out@.last();
                    assert(out@ =~= prev_out.push(newp));
                    assert((newp.name@, newp.platform@, newp.steam) == (pname, pplatform, steam));
                    assert(find_section(doc@, preset_section_name(i as nat)) == Some(
                        doc@[ix as int],
                    ));
                    assert((pname, pplatform, steam) == preset_of_section(doc@[ix as int]));
                    assert(preset_fields_at(doc@, i as nat) == Some((pname, pplatform, steam)));
                    assert forall|j: int|
                        0 <= j < out@.len() implies Some(
                        ((#[trigger] out@[j]).name@, out@[j].platform@, out@[j].steam),
                    ) == preset_fields_at(doc@, j as nat) by {
                        if j < prev_out.len() {
                            assert(out@[j] == prev_out[j]);
                        } else {
                            assert(out@[j] == newp);
                        }
                    }
                    used = used.push(ix as int);
                    assert forall|x: int, y: int| 0 <= x < y < used.len() implies used[x]
                        != used[y] by {
                        if used[x] == used[y] {
                            assert(doc@[used[x]].0 == Some(preset_section_name(x as nat)));
                            assert(doc@[used[y]].0 == Some(preset_section_name(y as nat)));
                            lemma_preset_name_injective(x as nat, y as nat);
                        }
                    }
                    assert(used.no_duplicates());
                    used.unique_seq_to_set();
                    assert forall|e: int|
                        used.to_set().contains(e) implies set_int_range(
                        0,
                        doc@.len() as int,
                    ).contains(e) by {
                        let j = choose|j: int| 0 <= j < used.len() && used[j] == e;
                        assert(0 <= e < doc@.len());
                    }
                    lemma_int_range(0, doc@.len() as int);
                    lemma_len_subset(used.to_set(), set_int_range(0, doc@.len() as int));
                }
            },
            None => {
                stop = true;
            },
        }
    }
    out
}

/// A document has exactly one catalog: any two preset lists that both halt
/// at the first missing index and read the same sections agree entirely, so
/// enumeration is deterministic.
pub proof fn lemma_catalog_unique(
    doc: Seq<(Option<Seq<char>>, Seq<(Seq<char>, Seq<char>)>)>,
    a: Seq<ExportPreset>,
    b: Seq<ExportPreset>,
)
    requires
        is_catalog(doc, a),
        is_catalog(doc, b),
    ensures
        a.len() == b.len(),
        forall|j: int|
            0 <= j < a.len() ==> ((#[trigger] a[j]).name@ == b[j].name@ && a[j].platform@
                == b[j].platform@ && a[j].steam == b[j].steam),
{
    if a.len() < b.len() {
        let j = a.len() as int;
        assert(Some((b[j].name@, b[j].platform@, b[j].steam)) == preset_fields_at(
            doc,
            j as nat,
        ));
        assert(has_preset_section(doc, a.len() as nat));
    }
    if b.len() < a.len() {
        let j = b.len() as int;
        assert(Some((a[j].name@, a[j].platform@, a[j].steam)) == preset_fields_at(
            doc,
            j as nat,
        ));
        assert(has_preset_section(doc, b.len() as nat));
    }
}

/// Whether a preset name passes the allow-list: an empty list admits all.
pub open spec fn allowed_by(allow: Seq<Seq<char>>) -> spec_fn(ExportPreset) -> bool {
    |p: ExportPreset| allow.len() == 0 || allow.contains(p.name@)
}

/// Whether the list holds a string equal to `s`.
pub fn contains_string(v: &Vec<String>, s: &str) -> (r: bool)
    ensures
        r == v.deep_view().contains(s@),
{
    let n = v.len();
    let mut i: usize = 0;
    while i < n
        invariant
            i <= n,
            n == v@.len(),
            forall|j: int| 0 <= j < i ==> v.deep_view()[j] != s@,
        decreases n - i,
    {
        if str_eq(v[i].as_str(), s) {
            proof {
                assert(v.deep_view()[i as int] == s@);
            }
            return true;
        }
        i += 1;
    }
    proof {
        if v.deep_view().contains(s@) {
            let j = choose|j: int| 0 <= j < v.deep_view().len() && v.deep_view()[j] == s@;
            assert(v.deep_view()[j] != s@);
        }
    }
    false
}

/// Keeps the presets whose names the allow-list admits, in catalog order;
/// an empty allow-list keeps every preset.
pub fn filter_presets(presets: Vec<ExportPreset>, allow: &Vec<String>) -> (r: Vec<ExportPreset>)
    ensures
        r@ == presets@.filter(allowed_by(allow.deep_view())),
{
    let ghost orig = presets@;
    let ghost pred = allowed_by(allow.deep_view());
    let mut rest = presets;
    let mut out: Vec<ExportPreset> = Vec::new();
    proof {
        reveal(Seq::<_>::filter);
        assert(orig.subrange(0, 0) =~= Seq::<ExportPreset>::empty());
        assert(rest@ =~= orig.skip(0));
    }
    while rest.len() > 0
        invariant
            rest@.len() <= orig.len(),
            rest@ =~= orig.skip(orig.len() - rest@.len()),
            pred == allowed_by(allow.deep_view()),
            out@ =~= orig.subrange(0, orig.len() - rest@.len()).filter(pred),
        decreases rest@.len(),
    {
        let ghost k = orig.len() - rest@.len();
        let f = rest.remove(0);
        proof {
            assert(f == orig.skip(k as int)[0]);
            assert(f == orig[k as int]);
            assert(rest@ =~= orig.skip(k + 1));
        }
        let keep = allow.len() == 0 || contains_string(allow, f.name.as_str());
        proof {
            assert(keep == pred(f));
        }
        if keep {
            out.push(f);
        }
        proof {
            reveal(Seq::<_>::filter);
            let pre = orig.subrange(0, k + 1);
            assert(pre.drop_last() =~= orig.subrange(0, k as int));
            assert(pre.last() == orig[k as int]);
            assert(out@ =~= pre.filter(pred));
        }
    }
    proof {
        assert(orig.subrange(0, orig.len() as int) =~= orig);
    }
    out
}

/// Reads the export presets from the presets configuration text: the whole
/// catalog in document order, filtered by the allow-list. Malformed text is
/// the only failure.
pub fn get_export_presets(cli_presets: &Vec<String>, presets_text: &str) -> (r: Result<
    Vec<ExportPreset>,
    Error,
>)
    ensures
        r is Ok <==> crate::config::ini_doc_of(presets_text@) is Some,
        r matches Ok(v) ==> exists|full: Seq<ExportPreset>|
            #[trigger] is_catalog(crate::config::ini_doc_of(presets_text@).unwrap(), full) && v@
                == full.filter(allowed_by(cli_presets.deep_view())),
        r is Err ==> r matches Err(Error::IniError(_)),
{
    let doc = match parse_config_text(presets_text) {
        Ok(d) => d,
        Err(e) => {
            return Err(Error::IniError(e));
        },
    };
    let full = enumerate_presets(&doc);
    let ghost full_seq = full@;
    let filtered = filter_presets(full, cli_presets);
    proof {
        assert(crate::config::ini_doc_of(presets_text@) == Some(doc@));
        assert(crate::config::ini_doc_of(presets_text@).unwrap() == doc@);
        assert(is_catalog(crate::config::ini_doc_of(presets_text@).unwrap(), full_seq));
        assert(filtered@ == full_seq.filter(allowed_by(cli_presets.deep_view())));
    }
    Ok(filtered)
}

} // verus!
