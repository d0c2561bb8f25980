//! Staged build artifacts and the shapes a packaged preset can take: a
//! compressed archive or a named output directory. Also the deterministic
//! container naming shared by every platform packager.

use crate::text::{
    dots_to_underscores, lower_of, lowercase, replace_dots, replace_separators, slug_of, str_eq,
};
use vstd::prelude::*;
use vstd::string::StringExecFns;

verus! {

/// One file of a preset's staging directory: its base name and its bytes.
pub struct StagedFile {
    pub name: String,
    pub data: Vec<u8>,
}

impl View for StagedFile {
    type V = (Seq<char>, Seq<u8>);

    open spec fn view(&self) -> Self::V {
        (self.name@, self.data@)
    }
}

/// The name/content pairs a list of staged files denotes.
pub open spec fn files_view(files: Seq<StagedFile>) -> Seq<(Seq<char>, Seq<u8>)> {
    files.map_values(|f: StagedFile| f@)
}

/// The final distributable for one preset.
pub enum PackageOutput {
    /// One compressed archive named `file_name`, holding exactly `entries`,
    /// already encoded as `bytes`.
    Archive { file_name: String, entries: Vec<StagedFile>, bytes: Vec<u8> },
    /// A directory named `dir_name` into which `files` move.
    Directory { dir_name: String, files: Vec<StagedFile> },
}

/// The deterministic base name of a preset's archive or output directory:
/// executable base name, normalized preset name and normalized version,
/// joined by underscores.
pub open spec fn container_name_of(
    base: Seq<char>,
    preset_name: Seq<char>,
    version: Seq<char>,
) -> Seq<char> {
    base + "_"@ + slug_of(lower_of(preset_name)) + "_"@ + dots_to_underscores(version)
}

pub fn container_name(base: &str, preset_name: &str, version: &str) -> (r: String)
    ensures
        r@ == container_name_of(base@, preset_name@, version@),
{
    let mut s = String::new();
    s.append(base);
    s.append("_");
    let preset_lower = lowercase(preset_name);
    let preset_slug = replace_separators(preset_lower.as_str());
    s.append(preset_slug.as_str());
    s.append("_");
    let version_part = replace_dots(version);
    s.append(version_part.as_str());
    s
}

/// The lower-cased, separator-free form of the project name, used as the
/// base name of the exported executable.
pub open spec fn executable_base_of(project_name: Seq<char>) -> Seq<char> {
    slug_of(lower_of(project_name))
}

pub fn executable_base_name(project_name: &str) -> (r: String)
    ensures
        r@ == executable_base_of(project_name@),
{
    let l = lowercase(project_name);
    replace_separators(l.as_str())
}

/// Whether some file in the list bears the given name.
pub open spec fn has_name(files: Seq<(Seq<char>, Seq<u8>)>, name: Seq<char>) -> bool {
    exists|i: int| 0 <= i < files.len() && files[i].0 == name
}

/// Keeps the files whose names the incoming set does not overwrite.
pub open spec fn keeps(incoming: Seq<(Seq<char>, Seq<u8>)>) -> spec_fn(
    (Seq<char>, Seq<u8>),
) -> bool {
    |f: (Seq<char>, Seq<u8>)| !has_name(incoming, f.0)
}

/// The contents of a directory after `incoming` files move into it: files
/// with a clashing name are overwritten, the rest survive, and the incoming
/// files follow in order.
pub open spec fn dir_after(
    existing: Seq<(Seq<char>, Seq<u8>)>,
    incoming: Seq<(Seq<char>, Seq<u8>)>,
) -> Seq<(Seq<char>, Seq<u8>)> {
    existing.filter(keeps(incoming)) + incoming
}

proof fn lemma_filter_all<A>(s: Seq<A>, pred: spec_fn(A) -> bool)
    requires
        forall|i: int| 0 <= i < s.len() ==> pred(s[i]),
    ensures
        s.filter(pred) == s,
    decreases s.len(),
{
    reveal(Seq::<_>::filter);
    if s.len() == 0 {
        assert(s.filter(pred) =~= s);
    } else {
        lemma_filter_all(s.drop_last(), pred);
        assert(s.filter(pred) =~= s.drop_last().push(s.last()));
        assert(s.drop_last().push(s.last()) =~= s);
    }
}

proof fn lemma_filter_none<A>(s: Seq<A>, pred: spec_fn(A) -> bool)
    requires
        forall|i: int| 0 <= i < s.len() ==> !pred(s[i]),
    ensures
        s.filter(pred) == Seq::<A>::empty(),
    decreases s.len(),
{
    reveal(Seq::<_>::filter);
    if s.len() == 0 {
        assert(s.filter(pred) =~= Seq::<A>::empty());
    } else {
        lemma_filter_none(s.drop_last(), pred);
    }
}

/// Directory-mode packaging is idempotent: moving the same files into the
/// container directory a second time leaves exactly the contents one move
/// leaves — same-named files are overwritten, never duplicated, and an
/// already existing directory is no failure.
pub proof fn lemma_directory_mode_idempotent(
    existing: Seq<(Seq<char>, Seq<u8>)>,
    incoming: Seq<(Seq<char>, Seq<u8>)>,
)
    ensures
        dir_after(dir_after(existing, incoming), incoming) == dir_after(existing, incoming),
{
    let pred = keeps(incoming);
    let once = dir_after(existing, incoming);
    Seq::filter_distributes_over_add(existing.filter(pred), incoming, pred);
    assert forall|i: int| 0 <= i < existing.filter(pred).len() implies pred(
        existing.filter(pred)[i],
    ) by {
        existing.lemma_filter_pred(pred, i);
    }
    lemma_filter_all(existing.filter(pred), pred);
    assert forall|i: int| 0 <= i < incoming.len() implies !pred(incoming[i]) by {
        assert(has_name(incoming, incoming[i].0));
    }
    lemma_filter_none(incoming, pred);
    assert(once.filter(pred) =~= existing.filter(pred));
    assert(dir_after(once, incoming) =~= dir_after(existing, incoming));
}

/// Whether some staged file bears the given name.
pub fn contains_name(files: &Vec<StagedFile>, name: &str) -> (r: bool)
    ensures
        r == has_name(files_view(files@), name@),
{
    let n = files.len();
    let mut i: usize = 0;
    while i < n
        invariant
            i <= n,
            n == files@.len(),
            forall|j: int| 0 <= j < i ==> files_view(files@)[j].0 != name@,
        decreases n - i,
    {
        if str_eq(files[i].name.as_str(), name) {
            proof {
                assert(files_view(files@)[i as int].0 == name@);
            }
            return true;
        }
        i += 1;
    }
    false
}

/// The contents of a directory holding `existing` after `incoming` files
/// move into it, overwriting files with the same name, as a filesystem
/// rename does.
pub fn apply_to_directory(existing: Vec<StagedFile>, incoming: Vec<StagedFile>) -> (r: Vec<
    StagedFile,
>)
    ensures
        files_view(r@) == dir_after(files_view(existing@), files_view(incoming@)),
{
    let ghost orig = existing@;
    let ghost incv = incoming@;
    let mut rest = existing;
    let mut out: Vec<StagedFile> = Vec::new();
    proof {
        reveal(Seq::<_>::filter);
        assert(files_view(orig).subrange(0, 0) =~= Seq::<(Seq<char>, Seq<u8>)>::empty());
        assert(rest@ =~= orig.skip(0));
    }
    while rest.len() > 0
        invariant
            incoming@ == incv,
            rest@.len() <= orig.len(),
            rest@ =~= orig.skip(orig.len() - rest@.len()),
            files_view(out@) =~= files_view(orig).subrange(
                0,
                orig.len() - rest@.len(),
            ).filter(keeps(files_view(incv))),
        decreases rest@.len(),
    {
        let ghost k = orig.len() - rest@.len();
        let f = rest.remove(0);
        proof {
            assert(f == orig.skip(k as int)[0]);
            assert(f == orig[k as int]);
            assert(rest@ =~= orig.skip(k + 1));
        }
        let keep = !contains_name(&incoming, f.name.as_str());
        if keep {
            out.push(f);
        }
        proof {
            reveal(Seq::<_>::filter);
            let pre = files_view(orig).subrange(0, k + 1);
            assert(pre.drop_last() =~= files_view(orig).subrange(0, k as int));
            assert(pre.last() == files_view(orig)[k as int]);
            assert(keeps(files_view(incv))(files_view(orig)[k as int]) == keep);
            assert(files_view(out@) =~= pre.filter(keeps(files_view(incv))));
        }
    }
    proof {
        assert(files_view(orig).subrange(0, orig.len() as int) =~= files_view(orig));
    }
    let mut inc = incoming;
    out.append(&mut inc);
    proof {
        assert(files_view(out@) =~= dir_after(files_view(orig), files_view(incv)));
    }
    out
}

} // verus!
