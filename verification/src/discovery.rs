//! Building jobs out of raw directory listings.
//!
//! The control loop walks the filesystem and hands over, per job
//! directory, the directory's name, its entries and the already-parsed
//! parameter and sidecar values; everything after that — which entries
//! count as geometry files, their validation, and the deterministic
//! ordering — is decided here.

use vstd::prelude::*;

use crate::job::{FileParams, SimulationParams, SubmissionState};
use crate::params::{
    CreateSimulationV7ParamsFromJson, FileV7ParamsFromJson, ParamsError,
};

verus! {

/// One entry of a job directory, as the control loop found it on disk.
#[derive(Clone, Debug, PartialEq)]
pub struct RawFileEntry {
    /// Path of the entry on disk.
    pub path: String,
    /// Bare file name of the entry.
    pub filename: String,
    /// The entry is itself a directory.
    pub is_dir: bool,
    /// Size in bytes.
    pub size: u64,
    /// The entry's parsed parameter sidecar, when one exists.
    pub params: Option<FileV7ParamsFromJson>,
}

/// Why a job directory was rejected.
#[derive(Clone, Debug, PartialEq)]
pub enum DiscoveryError {
    /// The parameters attached to the named file are inconsistent.
    InvalidFileParams { file: String, error: ParamsError },
}

/// Lexicographic order on the characters at or after position `i`.
pub open spec fn lex_le_from(a: Seq<char>, b: Seq<char>, i: int) -> bool
    decreases a.len() - i,
{
    if i < 0 || i >= a.len() {
        true
    } else if i >= b.len() {
        false
    } else if a[i] == b[i] {
        lex_le_from(a, b, i + 1)
    } else {
        a[i] < b[i]
    }
}

/// Lexicographic order on character sequences, by scalar value.
pub open spec fn lex_le(a: Seq<char>, b: Seq<char>) -> bool {
    lex_le_from(a, b, 0)
}

/// Decides the lexicographic order of two strings.
pub fn lex_le_str(a: &str, b: &str) -> (r: bool)
    ensures
        r == lex_le(a@, b@),
{
    let na = a.unicode_len();
    let nb = b.unicode_len();
    let mut i: usize = 0;
    while i < na
        invariant
            na == a@.len(),
            nb == b@.len(),
            i <= na,
            lex_le(a@, b@) == lex_le_from(a@, b@, i as int),
        decreases na - i,
    {
        if i >= nb {
            return false;
        }
        let ca = a.get_char(i);
        let cb = b.get_char(i);
        if ca != cb {
            return ca < cb;
        }
        i = i + 1;
    }
    true
}

/// The order is total: of any two strings, one comes no later.
pub proof fn lemma_lex_total(a: Seq<char>, b: Seq<char>)
    ensures
        lex_le(a, b) || lex_le(b, a),
{
    lemma_lex_total_from(a, b, 0);
}

proof fn lemma_lex_total_from(a: Seq<char>, b: Seq<char>, i: int)
    requires
        0 <= i,
    ensures
        lex_le_from(a, b, i) || lex_le_from(b, a, i),
    decreases a.len() - i,
{
    if i < a.len() && i < b.len() && a[i] == b[i] {
        lemma_lex_total_from(a, b, i + 1);
    }
}

/// The order is transitive.
pub proof fn lemma_lex_trans(a: Seq<char>, b: Seq<char>, c: Seq<char>)
    requires
        lex_le(a, b),
        lex_le(b, c),
    ensures
        lex_le(a, c),
{
    lemma_lex_trans_from(a, b, c, 0);
}

proof fn lemma_lex_trans_from(a: Seq<char>, b: Seq<char>, c: Seq<char>, i: int)
    requires
        0 <= i,
        lex_le_from(a, b, i),
        lex_le_from(b, c, i),
    ensures
        lex_le_from(a, c, i),
    decreases a.len() - i,
{
    if i < a.len() {
        if i < b.len() && i < c.len() && a[i] == b[i] && b[i] == c[i] {
            lemma_lex_trans_from(a, b, c, i + 1);
        }
    }
}

/// The files stand in non-decreasing path order.
pub open spec fn sorted_by_path(files: Seq<FileParams>) -> bool {
    forall|i: int, j: int|
        0 <= i < j < files.len() ==> lex_le(
            (#[trigger] files[i]).path@,
            (#[trigger] files[j]).path@,
        )
}

/// A usable geometry file name: non-empty and free of path separators.
pub open spec fn spec_filename_ok(name: Seq<char>) -> bool {
    name.len() > 0 && forall|i: int| 0 <= i < name.len() ==> name[i] != '/' && name[i] != '\\'
}

/// Decides whether a file name is usable.
pub fn filename_ok(name: &str) -> (r: bool)
    ensures
        r == spec_filename_ok(name@),
{
    let n = name.unicode_len();
    if n == 0 {
        return false;
    }
    for i in 0..n
        invariant
            n == name@.len(),
            forall|j: int| 0 <= j < i ==> name@[j] != '/' && name@[j] != '\\',
    {
        let c = name.get_char(i);
        if c == '/' || c == '\\' {
            return false;
        }
    }
    true
}

/// The name carries the parameter-file extension.
pub open spec fn spec_has_json_ext(name: Seq<char>) -> bool {
    name.len() >= 5 && name.skip(name.len() - 5) == ".json"@
}

/// Decides whether a name carries the parameter-file extension.
pub fn has_json_ext(name: &str) -> (r: bool)
    ensures
        r == spec_has_json_ext(name@),
{
    let n = name.unicode_len();
    if n < 5 {
        return false;
    }
    let c0 = name.get_char(n - 5);
    let c1 = name.get_char(n - 4);
    let c2 = name.get_char(n - 3);
    let c3 = name.get_char(n - 2);
    let c4 = name.get_char(n - 1);
    let r = c0 == '.' && c1 == 'j' && c2 == 's' && c3 == 'o' && c4 == 'n';
    proof {
        reveal_strlit(".json");
        if r {
            assert(name@.skip(n as int - 5) =~= ".json"@);
        } else {
            if name@.skip(n as int - 5) == ".json"@ {
                assert(name@.skip(n as int - 5)[0] == '.');
                assert(name@.skip(n as int - 5)[1] == 'j');
                assert(name@.skip(n as int - 5)[2] == 's');
                assert(name@.skip(n as int - 5)[3] == 'o');
                assert(name@.skip(n as int - 5)[4] == 'n');
            }
        }
    }
    r
}

/// An entry that becomes a geometry file of the job: a plain file whose
/// name is usable and is no parameter sidecar.
pub open spec fn entry_kept(e: RawFileEntry) -> bool {
    !e.is_dir && !spec_has_json_ext(e.filename@) && spec_filename_ok(e.filename@)
}

/// The geometry file a kept entry becomes: its path, name and size, with
/// its sidecar parameters or, absent those, the default parameters.
pub open spec fn file_of_entry(e: RawFileEntry, f: FileParams) -> bool {
    &&& f.path == e.path
    &&& f.filename == e.filename
    &&& f.size == e.size
    &&& match e.params {
        Some(p) => f.params.unit == p.unit && f.params.rotation == p.rotation && f.params.parts@
            == p.parts@,
        None => {
            &&& f.params.unit == crate::types::FileUnit::M
            &&& f.params.rotation is None
            &&& f.params.parts@ == Seq::<(String, crate::params::UpdatePartV7Params)>::empty()
        },
    }
}

/// `files` is exactly the kept prefix of the first `n` entries, in entry
/// order.
pub open spec fn kept_files_rel(entries: Seq<RawFileEntry>, n: int, files: Seq<FileParams>)
    -> bool
    decreases n,
{
    if n <= 0 {
        files.len() == 0
    } else if entry_kept(entries[n - 1]) {
        &&& files.len() > 0
        &&& file_of_entry(entries[n - 1], files.last())
        &&& kept_files_rel(entries, n - 1, files.drop_last())
    } else {
        kept_files_rel(entries, n - 1, files)
    }
}

/// The parameters of an entry, valid or not.
pub open spec fn entry_params_valid(e: RawFileEntry) -> bool {
    match e.params {
        Some(p) => p.all_parts_valid(),
        None => true,
    }
}

/// Every kept entry of the listing carries consistent parameters.
pub open spec fn all_kept_valid(entries: Seq<RawFileEntry>) -> bool {
    forall|j: int|
        0 <= j < entries.len() && entry_kept(#[trigger] entries[j]) ==> entry_params_valid(
            entries[j],
        )
}

/// The discovery error names the first kept entry with inconsistent
/// parameters, at position `j` of the listing.
pub open spec fn rejected_at(entries: Seq<RawFileEntry>, e: DiscoveryError, j: int) -> bool {
    &&& 0 <= j < entries.len()
    &&& entry_kept(entries[j])
    &&& !entry_params_valid(entries[j])
    &&& forall|j2: int|
        0 <= j2 < j && entry_kept(#[trigger] entries[j2]) ==> entry_params_valid(entries[j2])
    &&& e matches DiscoveryError::InvalidFileParams { file, error } && file == entries[j].path
        && match entries[j].params {
        Some(p) => p.rejects_with(error),
        None => false,
    }
}

/// The discovery error names the first kept entry with inconsistent
/// parameters.
pub open spec fn rejects(entries: Seq<RawFileEntry>, e: DiscoveryError) -> bool {
    exists|j: int| #[trigger] rejected_at(entries, e, j)
}

/// The job's files are exactly the kept entries of the listing, in some
/// order.
pub open spec fn files_match(entries: Seq<RawFileEntry>, files: Seq<FileParams>) -> bool {
    exists|pre: Seq<FileParams>|
        #[trigger] kept_files_rel(entries, entries.len() as int, pre) && files.to_multiset()
            == pre.to_multiset()
}

/// Sorts the job's files by path, keeping exactly the same files.
fn sort_files_by_path(files: Vec<FileParams>) -> (r: Vec<FileParams>)
    ensures
        sorted_by_path(r@),
        r@.to_multiset() == files@.to_multiset(),
{
    broadcast use vstd::seq_lib::group_to_multiset_ensures;
    broadcast use vstd::multiset::group_multiset_axioms;

    let ghost all = files@;
    let mut input = files;
    let mut out: Vec<FileParams> = Vec::new();
    while input.len() > 0
        invariant
            sorted_by_path(out@),
            out@.to_multiset().add(input@.to_multiset()) == all.to_multiset(),
        decreases input@.len(),
    {
        let ghost inp0 = input@;
        let e = input.remove(0);
        proof {
            vstd::seq_lib::to_multiset_remove(inp0, 0);
        }
        // position of the first element that must follow `e`
        let mut pos: usize = 0;
        let n_out = out.len();
        while pos < n_out && lex_le_str(out[pos].path.as_str(), e.path.as_str())
            invariant
                n_out == out@.len(),
                pos <= n_out,
                forall|k: int| 0 <= k < pos ==> lex_le((#[trigger] out@[k]).path@, e.path@),
            decreases n_out - pos,
        {
            pos = pos + 1;
        }
        proof {
            if (pos as int) < out@.len() {
                lemma_lex_total(out@[pos as int].path@, e.path@);
            }
            assert forall|k: int|
                pos <= k < out@.len() implies lex_le(e.path@, (#[trigger] out@[k]).path@) by {
                if (pos as int) < k {
                    lemma_lex_trans(e.path@, out@[pos as int].path@, out@[k].path@);
                }
            }
        }
        let ghost out_before = out@;
        out.insert(pos, e);
        proof {
            vstd::seq_lib::to_multiset_insert(out_before, pos as int, e);
            assert(inp0.contains(e));
            vstd::seq_lib::to_multiset_contains(inp0, e);
            assert(inp0.to_multiset().count(e) > 0);
            assert(out@.to_multiset().add(input@.to_multiset()) =~= all.to_multiset());
            assert forall|i: int, j: int|
                0 <= i < j < out@.len() implies lex_le(
                (#[trigger] out@[i]).path@,
                (#[trigger] out@[j]).path@,
            ) by {
                let p = pos as int;
                if j < p {
                    assert(out@[i] == out_before[i]);
                    assert(out@[j] == out_before[j]);
                } else if i > p {
                    assert(out@[i] == out_before[i - 1]);
                    assert(out@[j] == out_before[j - 1]);
                } else if i < p && j == p {
                    assert(out@[i] == out_before[i]);
                } else if i == p && j > p {
                    assert(out@[j] == out_before[j - 1]);
                } else if i < p && j > p {
                    assert(out@[i] == out_before[i]);
                    assert(out@[j] == out_before[j - 1]);
                }
            }
        }
    }
    proof {
        assert(out@.to_multiset() =~= all.to_multiset());
    }
    out
}

/// Copies a file's parameters, part list included.
fn clone_file_params(p: &FileV7ParamsFromJson) -> (r: FileV7ParamsFromJson)
    ensures
        r.unit == p.unit,
        r.rotation == p.rotation,
        r.parts@ == p.parts@,
{
    let n = p.parts.len();
    let mut parts: Vec<(String, crate::params::UpdatePartV7Params)> = Vec::new();
    for i in 0..n
        invariant
            n == p.parts@.len(),
            parts@ == p.parts@.take(i as int),
    {
        let (nm, pp) = &p.parts[i];
        parts.push((nm.clone(), *pp));
        proof {
            assert(parts@ =~= p.parts@.take(i as int + 1));
        }
    }
    proof {
        assert(p.parts@.take(n as int) =~= p.parts@);
    }
    FileV7ParamsFromJson { unit: p.unit, rotation: p.rotation, parts }
}

/// Builds one job out of its directory listing: keeps the plain,
/// validly-named, non-sidecar entries as geometry files with their
/// attached or default parameters, rejects the job on the first file
/// with inconsistent parameters, sorts the files by path, and starts
/// the job selected, in the persisted (or `Ready`) submission state.
///
/// The correlation id is left at zero; the session assigns it on load.
pub fn build_job(
    dir: String,
    name: String,
    entries: Vec<RawFileEntry>,
    params: Option<CreateSimulationV7ParamsFromJson>,
    sidecar: Option<SubmissionState>,
) -> (r: Result<SimulationParams, DiscoveryError>)
    ensures
        r is Ok <==> all_kept_valid(entries@),
        r matches Ok(job) ==> {
            &&& job.dir == dir
            &&& job.internal_id == 0
            &&& job.selected == true
            &&& match sidecar {
                Some(st) => job.submission_state == st,
                None => job.submission_state is Ready,
            }
            &&& job.params.name == name
            &&& match params {
                Some(p) => job.params == (CreateSimulationV7ParamsFromJson { name, ..p }),
                None => {
                    &&& job.params.revision is None
                    &&& job.params.quality == crate::types::SimulationQuality::Basic
                    &&& job.params.fluid == crate::types::Fluid::Air
                    &&& job.params.has_ground == true
                },
            }
            &&& sorted_by_path(job.files@)
            &&& files_match(entries@, job.files@)
        },
        r matches Err(e) ==> rejects(entries@, e),
{
    let mut p = match params {
        Some(p) => p,
        None => Default::default(),
    };
    p.name = name;
    let n = entries.len();
    let mut files: Vec<FileParams> = Vec::new();
    for i in 0..n
        invariant
            n == entries@.len(),
            kept_files_rel(entries@, i as int, files@),
            forall|j: int|
                0 <= j < i && entry_kept(#[trigger] entries@[j]) ==> entry_params_valid(
                    entries@[j],
                ),
    {
        let e = &entries[i];
        let keep = !e.is_dir && !has_json_ext(e.filename.as_str()) && filename_ok(
            e.filename.as_str(),
        );
        if keep {
            let fparams: FileV7ParamsFromJson = match &e.params {
                Some(fp) => clone_file_params(fp),
                None => Default::default(),
            };
            if let Err(error) = fparams.ensure_is_valid() {
                let err = DiscoveryError::InvalidFileParams { file: e.path.clone(), error };
                proof {
                    let gi = i as int;
                    assert(entry_kept(entries@[gi]));
                    assert(rejected_at(entries@, err, gi));
                    assert(rejects(entries@, err));
                    assert(!all_kept_valid(entries@));
                }
                return Err(err);
            }
            let ghost fprev = files@;
            files.push(
                FileParams {
                    path: e.path.clone(),
                    filename: e.filename.clone(),
                    size: e.size,
                    params: fparams,
                },
            );
            proof {
                assert(files@.drop_last() =~= fprev);
                assert(file_of_entry(entries@[i as int], files@.last()));
            }
        }
    }
    let ghost pre_sort = files@;
    let files = sort_files_by_path(files);
    proof {
        assert(kept_files_rel(entries@, entries@.len() as int, pre_sort));
        assert(files_match(entries@, files@));
        assert(all_kept_valid(entries@));
    }
    Ok(
        SimulationParams {
            internal_id: 0,
            dir,
            params: p,
            files,
            selected: true,
            submission_state: SubmissionState::from_sidecar(sidecar),
        },
    )
}

} // verus!
