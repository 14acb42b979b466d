//! Candidate names derived from the subdirectories of a base directory.
use vstd::prelude::*;
use vstd::string::StringExecFns;

verus! {

/// One immediate entry of the scanned directory: its base name, and whether
/// its metadata says it is a directory.
pub struct ScannedEntry {
    pub name: String,
    pub is_dir: bool,
}

/// The candidate built from a directory's base name and the file name:
/// `<dir>_<file>`.
pub open spec fn spec_candidate(dir: Seq<char>, file_name: Seq<char>) -> Seq<char> {
    dir + seq!['_'] + file_name
}

/// The candidates for a scan, one per directory entry, in scan order.
pub open spec fn spec_candidates(entries: Seq<ScannedEntry>, file_name: Seq<char>) -> Seq<Seq<char>>
    decreases entries.len(),
{
    if entries.len() == 0 {
        Seq::empty()
    } else {
        let rest = spec_candidates(entries.drop_last(), file_name);
        let e = entries.last();
        if e.is_dir {
            rest.push(spec_candidate(e.name@, file_name))
        } else {
            rest
        }
    }
}

/// The number of directory entries in a scan.
pub open spec fn count_dirs(entries: Seq<ScannedEntry>) -> nat
    decreases entries.len(),
{
    if entries.len() == 0 {
        0
    } else {
        count_dirs(entries.drop_last()) + if entries.last().is_dir { 1nat } else { 0nat }
    }
}

/// Joins a directory's base name and the file name with an underscore.
pub fn candidate_name(dir: &str, file_name: &str) -> (r: String)
    ensures
        r@ == spec_candidate(dir@, file_name@),
{
    let r = String::from_str(dir);
    let r = r.concat("_");
    proof {
        reveal_strlit("_");
    }
    let r = r.concat(file_name);
    r
}

/// The candidate names for a directory scan: one for each entry that is a
/// directory, in the order of the scan; files are left out.
pub fn get_possible_file_names(entries: &Vec<ScannedEntry>, file_name: &str) -> (r: Vec<String>)
    ensures
        r@.map_values(|s: String| s@) == spec_candidates(entries@, file_name@),
{
    let mut r: Vec<String> = Vec::new();
    let mut i: usize = 0;
    while i < entries.len()
        invariant
            i <= entries@.len(),
            r@.map_values(|s: String| s@) == spec_candidates(entries@.subrange(0, i as int), file_name@),
        decreases entries@.len() - i,
    {
        proof {
            assert(entries@.subrange(0, i as int + 1).drop_last() =~= entries@.subrange(0, i as int));
        }
        let e = &entries[i];
        if e.is_dir {
            let c = candidate_name(e.name.as_str(), file_name);
            r.push(c);
            assert(r@.map_values(|s: String| s@) =~= spec_candidates(entries@.subrange(0, i as int + 1), file_name@));
        }
        i = i + 1;
    }
    assert(entries@.subrange(0, entries@.len() as int) =~= entries@);
    r
}

/// Whether `s` ends with `suffix`.
pub open spec fn ends_with(s: Seq<char>, suffix: Seq<char>) -> bool {
    suffix.len() <= s.len() && s.subrange(s.len() - suffix.len(), s.len() as int) == suffix
}

/// A scan with N directories gives exactly N candidates, and each one ends
/// with `_` followed by the file name.
pub proof fn lemma_candidates_count_and_suffix(entries: Seq<ScannedEntry>, file_name: Seq<char>)
    ensures
        spec_candidates(entries, file_name).len() == count_dirs(entries),
        forall|k: int|
            0 <= k < spec_candidates(entries, file_name).len() ==> ends_with(
                #[trigger] spec_candidates(entries, file_name)[k],
                seq!['_'] + file_name,
            ),
    decreases entries.len(),
{
    if entries.len() > 0 {
        lemma_candidates_count_and_suffix(entries.drop_last(), file_name);
        let e = entries.last();
        let c = spec_candidate(e.name@, file_name);
        let suffix = seq!['_'] + file_name;
        assert(c.subrange(c.len() - suffix.len(), c.len() as int) =~= suffix);
    }
}

/// A scan that holds no directory gives no candidate.
pub proof fn lemma_no_dirs_no_candidates(entries: Seq<ScannedEntry>, file_name: Seq<char>)
    requires
        forall|k: int| 0 <= k < entries.len() ==> !(#[trigger] entries[k]).is_dir,
    ensures
        spec_candidates(entries, file_name) == Seq::<Seq<char>>::empty(),
    decreases entries.len(),
{
    if entries.len() > 0 {
        let rest = entries.drop_last();
        assert forall|k: int| 0 <= k < rest.len() implies !(#[trigger] rest[k]).is_dir by {
            assert(rest[k] == entries[k]);
        }
        lemma_no_dirs_no_candidates(rest, file_name);
        assert(!entries[entries.len() - 1].is_dir);
    }
}

} // verus!
