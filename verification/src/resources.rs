//! Locating the Ghostty resources directory (themes, shell integration and
//! terminfo) relative to the executable.
//!
//! Paths are held as strings. The two path operations the search needs,
//! `Path::parent` and `Path::join`, are the standard library's, behind
//! wrappers; the file-system checks are made by the host, which hands their
//! answers back here.

use vstd::prelude::*;

verus! {

/// `Path::parent` of a path: the path without its final component, or
/// `None` where the path ends in a root or is empty.
pub uninterp spec fn path_parent(path: Seq<char>) -> Option<Seq<char>>;

/// `Path::join` of two paths.
pub uninterp spec fn path_join(base: Seq<char>, rest: Seq<char>) -> Seq<char>;

/// `std::path::Path::parent`. Its documentation: the path without its final
/// component, if there is one; so a parent is shorter than its path.
#[verifier::external_body]
fn parent_of(path: &str) -> (p: Option<String>)
    ensures
        p matches Some(q) ==> path_parent(path@) == Some(q@) && q@.len() < path@.len(),
        p is None ==> path_parent(path@) is None,
{
    match std::path::Path::new(path).parent() {
        Some(q) => Some(q.to_string_lossy().into_owned()),
        None => None,
    }
}

/// `std::path::Path::join`: `rest` joined onto `base`.
#[verifier::external_body]
fn join_path(base: &str, rest: &str) -> (j: String)
    ensures
        j@ == path_join(base@, rest@),
{
    std::path::Path::new(base).join(rest).to_string_lossy().into_owned()
}

/// The characters of each string.
pub open spec fn texts(v: Seq<String>) -> Seq<Seq<char>> {
    v.map_values(|s: String| s@)
}

/// A path and its ancestors, as `Path::ancestors` yields them: the path,
/// then its parent, its parent's parent, and so on while there is one.
pub open spec fn ancestors(path: Seq<char>) -> Seq<Seq<char>>
    decreases path.len(),
{
    seq![path] + match path_parent(path) {
        Some(q) => if q.len() < path.len() {
            ancestors(q)
        } else {
            seq![]
        },
        None => seq![],
    }
}

/// The resource directories looked for under one ancestor of the
/// executable's directory: an app-specific install, a plain install, and a
/// development checkout of Ghostty.
pub open spec fn candidates_under(dir: Seq<char>) -> Seq<Seq<char>> {
    seq![
        path_join(dir, "share/limux/ghostty"@),
        path_join(dir, "share/ghostty"@),
        path_join(dir, "ghostty/zig-out/share/ghostty"@),
    ]
}

/// The candidates under a path and under each of its ancestors, nearest
/// first.
pub open spec fn ancestor_candidates(path: Seq<char>) -> Seq<Seq<char>>
    decreases path.len(),
{
    candidates_under(path) + match path_parent(path) {
        Some(q) => if q.len() < path.len() {
            ancestor_candidates(q)
        } else {
            seq![]
        },
        None => seq![],
    }
}

/// Every resource directory the search tries, in order: the candidates
/// under the executable's directory and its ancestors, then the system-wide
/// installs.
pub open spec fn resource_candidates(exe_dir: Seq<char>) -> Seq<Seq<char>> {
    ancestor_candidates(exe_dir) + seq!["/usr/local/share/ghostty"@, "/usr/share/ghostty"@]
}

/// Lists the resource directories to try for an executable in `exe_dir`.
pub fn ghostty_resources_candidates(exe_dir: &str) -> (candidates: Vec<String>)
    ensures
        texts(candidates@) == resource_candidates(exe_dir@),
{
    let mut candidates: Vec<String> = Vec::new();
    let mut cur = String::from_str(exe_dir);
    assert(texts(candidates@) + ancestor_candidates(cur@) =~= ancestor_candidates(exe_dir@));
    loop
        invariant_except_break
            texts(candidates@) + ancestor_candidates(cur@) == ancestor_candidates(exe_dir@),
        ensures
            texts(candidates@) == ancestor_candidates(exe_dir@),
        decreases cur@.len(),
    {
        let ghost before = candidates@;
        let c0 = join_path(cur.as_str(), "share/limux/ghostty");
        let c1 = join_path(cur.as_str(), "share/ghostty");
        let c2 = join_path(cur.as_str(), "ghostty/zig-out/share/ghostty");
        candidates.push(c0);
        candidates.push(c1);
        candidates.push(c2);
        proof {
            assert(texts(candidates@) =~= texts(before) + candidates_under(cur@));
        }
        match parent_of(cur.as_str()) {
            Some(p) => {
                proof {
                    assert(texts(candidates@) + ancestor_candidates(p@) =~= texts(before)
                        + ancestor_candidates(cur@));
                }
                cur = p;
            },
            None => {
                proof {
                    assert(ancestor_candidates(cur@) =~= candidates_under(cur@));
                    assert(texts(candidates@) =~= texts(before) + ancestor_candidates(cur@));
                }
                break ;
            },
        }
    }
    let ghost before = candidates@;
    candidates.push(String::from_str("/usr/local/share/ghostty"));
    candidates.push(String::from_str("/usr/share/ghostty"));
    proof {
        assert(texts(candidates@) =~= texts(before) + seq![
            "/usr/local/share/ghostty"@,
            "/usr/share/ghostty"@,
        ]);
    }
    candidates
}

/// Where to start the search for an executable at `exe_path`: the
/// candidates for its directory, or `None` where the path has no parent.
pub fn resources_search(exe_path: &str) -> (candidates: Option<Vec<String>>)
    ensures
        candidates is Some <==> path_parent(exe_path@) is Some,
        candidates matches Some(c) ==> texts(c@) == resource_candidates(
            path_parent(exe_path@)->0,
        ),
{
    match parent_of(exe_path) {
        Some(dir) => Some(ghostty_resources_candidates(dir.as_str())),
        None => None,
    }
}

// -------------------------------------------------------------------
// Checking a candidate
// -------------------------------------------------------------------

/// The file-system checks that decide whether a path is a resources
/// directory: each of `dirs` must be a directory, and one of
/// `terminfo_files` must be a file.
pub struct ResourceProbe {
    pub dirs: Vec<String>,
    pub terminfo_files: Vec<String>,
}

/// The terminfo entries looked for next to a resources directory, in the
/// `terminfo` directory beside it.
pub open spec fn terminfo_paths(path: Seq<char>) -> Seq<Seq<char>> {
    match path_parent(path) {
        Some(p) => seq![
            path_join(p, "terminfo/g/ghostty"@),
            path_join(p, "terminfo/x/xterm-ghostty"@),
        ],
        None => seq![],
    }
}

/// The checks for `path`: it and its `themes` and `shell-integration`
/// subdirectories must be directories, and a Ghostty terminfo entry must sit
/// beside it (a path without a parent has none).
pub fn resources_dir_probe(path: &str) -> (probe: ResourceProbe)
    ensures
        texts(probe.dirs@) == seq![
            path@,
            path_join(path@, "themes"@),
            path_join(path@, "shell-integration"@),
        ],
        texts(probe.terminfo_files@) == terminfo_paths(path@),
{
    let mut dirs: Vec<String> = Vec::new();
    dirs.push(String::from_str(path));
    dirs.push(join_path(path, "themes"));
    dirs.push(join_path(path, "shell-integration"));
    let mut terminfo_files: Vec<String> = Vec::new();
    match parent_of(path) {
        Some(parent) => {
            terminfo_files.push(join_path(parent.as_str(), "terminfo/g/ghostty"));
            terminfo_files.push(join_path(parent.as_str(), "terminfo/x/xterm-ghostty"));
        },
        None => {},
    }
    proof {
        assert(texts(dirs@) =~= seq![
            path@,
            path_join(path@, "themes"@),
            path_join(path@, "shell-integration"@),
        ]);
        assert(texts(terminfo_files@) =~= terminfo_paths(path@));
    }
    ResourceProbe { dirs, terminfo_files }
}

/// Whether the answers to a probe make its path a resources directory: every
/// directory check holds and some terminfo check holds.
pub open spec fn probe_passes(dir_checks: Seq<bool>, terminfo_checks: Seq<bool>) -> bool {
    &&& forall|i: int| 0 <= i < dir_checks.len() ==> dir_checks[i]
    &&& exists|i: int| 0 <= i < terminfo_checks.len() && terminfo_checks[i]
}

/// Decides from the answers to a probe whether its path is a resources
/// directory. `dir_checks[i]` says whether `dirs[i]` is a directory,
/// `terminfo_checks[i]` whether `terminfo_files[i]` is a file.
pub fn is_ghostty_resources_dir(dir_checks: &Vec<bool>, terminfo_checks: &Vec<bool>) -> (b: bool)
    ensures
        b == probe_passes(dir_checks@, terminfo_checks@),
{
    let mut i: usize = 0;
    while i < dir_checks.len()
        invariant
            i <= dir_checks.len(),
            forall|j: int| 0 <= j < i ==> dir_checks@[j],
        decreases dir_checks.len() - i,
    {
        if !dir_checks[i] {
            return false;
        }
        i = i + 1;
    }
    let mut k: usize = 0;
    while k < terminfo_checks.len()
        invariant
            k <= terminfo_checks.len(),
            forall|j: int| 0 <= j < dir_checks.len() ==> dir_checks@[j],
            forall|j: int| 0 <= j < k ==> !terminfo_checks@[j],
        decreases terminfo_checks.len() - k,
    {
        if terminfo_checks[k] {
            return true;
        }
        k = k + 1;
    }
    false
}

// -------------------------------------------------------------------
// Choosing the directory
// -------------------------------------------------------------------

/// The first candidate that is a resources directory. `verdicts[i]` says
/// whether `candidates[i]` is one.
pub fn first_resources_dir(candidates: &Vec<String>, verdicts: &Vec<bool>) -> (found: Option<
    String,
>)
    requires
        candidates.len() == verdicts.len(),
    ensures
        found matches Some(d) ==> exists|i: int|
            0 <= i < candidates.len() && verdicts@[i] && d@ == candidates@[i]@ && forall|j: int|
                0 <= j < i ==> !verdicts@[j],
        found is None <==> forall|i: int| 0 <= i < verdicts.len() ==> !verdicts@[i],
{
    let mut i: usize = 0;
    while i < candidates.len()
        invariant
            i <= candidates.len(),
            candidates.len() == verdicts.len(),
            forall|j: int| 0 <= j < i ==> !verdicts@[j],
        decreases candidates.len() - i,
    {
        if verdicts[i] {
            return Some(candidates[i].clone());
        }
        i = i + 1;
    }
    None
}

// -------------------------------------------------------------------
// Laws
// -------------------------------------------------------------------

/// The search prefers what lies next to the executable: the three
/// candidates under the executable's own directory come first (the
/// app-specific install, then the plain install, then a development
/// checkout), and the system-wide installs come last.
pub proof fn lemma_candidate_order(exe_dir: Seq<char>)
    ensures
        resource_candidates(exe_dir).len() >= 5,
        resource_candidates(exe_dir).subrange(0, 3) == candidates_under(exe_dir),
        resource_candidates(exe_dir)[resource_candidates(exe_dir).len() - 2]
            == "/usr/local/share/ghostty"@,
        resource_candidates(exe_dir)[resource_candidates(exe_dir).len() - 1]
            == "/usr/share/ghostty"@,
{
    let c = resource_candidates(exe_dir);
    assert(ancestor_candidates(exe_dir).len() >= 3);
    assert(c.subrange(0, 3) =~= candidates_under(exe_dir));
}

/// A directory without a Ghostty terminfo entry beside it is never taken,
/// whatever its subdirectories hold.
pub proof fn lemma_terminfo_required(dir_checks: Seq<bool>, terminfo_checks: Seq<bool>)
    requires
        forall|i: int| 0 <= i < terminfo_checks.len() ==> !terminfo_checks[i],
    ensures
        !probe_passes(dir_checks, terminfo_checks),
{
}

/// A probe passes exactly when no directory check failed and some terminfo
/// check held: one failed directory check, wherever it stands, rejects the
/// path.
pub proof fn lemma_probe_verdict(dir_checks: Seq<bool>, terminfo_checks: Seq<bool>, i: int, k: int)
    ensures
        0 <= i < dir_checks.len() && !dir_checks[i] ==> !probe_passes(dir_checks, terminfo_checks),
        (forall|j: int| 0 <= j < dir_checks.len() ==> dir_checks[j]) && 0 <= k
            < terminfo_checks.len() && terminfo_checks[k] ==> probe_passes(
            dir_checks,
            terminfo_checks,
        ),
{
}

/// The candidate list, spelled out: under the executable's directory the
/// app-specific install, the plain install and the development checkout, in
/// that order; then the same three under its parent (where it has one); and
/// last the two system-wide installs. A directory with no parent has just its
/// own three candidates before the system ones.
pub proof fn lemma_candidates_listed(dir: Seq<char>)
    ensures
        ({
            let c = resource_candidates(dir);
            &&& c[0] == path_join(dir, "share/limux/ghostty"@)
            &&& c[1] == path_join(dir, "share/ghostty"@)
            &&& c[2] == path_join(dir, "ghostty/zig-out/share/ghostty"@)
            &&& c[c.len() - 2] == "/usr/local/share/ghostty"@
            &&& c[c.len() - 1] == "/usr/share/ghostty"@
            &&& path_parent(dir) is None ==> c.len() == 5
            &&& (path_parent(dir) is Some && path_parent(dir)->0.len() < dir.len()) ==> {
                &&& c.len() >= 8
                &&& c[3] == path_join(path_parent(dir)->0, "share/limux/ghostty"@)
                &&& c[4] == path_join(path_parent(dir)->0, "share/ghostty"@)
                &&& c[5] == path_join(path_parent(dir)->0, "ghostty/zig-out/share/ghostty"@)
            }
        }),
{
    let c = resource_candidates(dir);
    assert(ancestor_candidates(dir).len() >= 3);
    match path_parent(dir) {
        Some(q) => {
            if q.len() < dir.len() {
                assert(ancestor_candidates(q).len() >= 3);
            }
        },
        None => {},
    }
}

/// The terminfo entries looked for beside a directory are the `g/ghostty`
/// and `x/xterm-ghostty` entries of the `terminfo` directory in its parent;
/// a directory without a parent has none.
pub proof fn lemma_terminfo_paths(path: Seq<char>)
    ensures
        path_parent(path) is None ==> terminfo_paths(path).len() == 0,
        path_parent(path) is Some ==> terminfo_paths(path) == seq![
            path_join(path_parent(path)->0, "terminfo/g/ghostty"@),
            path_join(path_parent(path)->0, "terminfo/x/xterm-ghostty"@),
        ],
{
}

/// The candidates are the three installs under each ancestor of the
/// executable's directory, nearest ancestor first, then the two system-wide
/// installs: the i-th ancestor's app-specific, plain and development
/// candidates stand at 3i, 3i + 1 and 3i + 2.
pub proof fn lemma_candidates_per_ancestor(dir: Seq<char>)
    ensures
        resource_candidates(dir).len() == 3 * ancestors(dir).len() + 2,
        forall|i: int|
            #![trigger ancestors(dir)[i]]
            0 <= i < ancestors(dir).len() ==> {
                &&& resource_candidates(dir)[3 * i] == path_join(
                    ancestors(dir)[i],
                    "share/limux/ghostty"@,
                )
                &&& resource_candidates(dir)[3 * i + 1] == path_join(
                    ancestors(dir)[i],
                    "share/ghostty"@,
                )
                &&& resource_candidates(dir)[3 * i + 2] == path_join(
                    ancestors(dir)[i],
                    "ghostty/zig-out/share/ghostty"@,
                )
            },
        ancestors(dir)[0] == dir,
{
    lemma_ancestor_candidates(dir);
}

proof fn lemma_ancestor_candidates(dir: Seq<char>)
    ensures
        ancestor_candidates(dir).len() == 3 * ancestors(dir).len(),
        ancestors(dir).len() >= 1,
        ancestors(dir)[0] == dir,
        forall|i: int|
            #![trigger ancestors(dir)[i]]
            0 <= i < ancestors(dir).len() ==> {
                &&& ancestor_candidates(dir)[3 * i] == path_join(
                    ancestors(dir)[i],
                    "share/limux/ghostty"@,
                )
                &&& ancestor_candidates(dir)[3 * i + 1] == path_join(
                    ancestors(dir)[i],
                    "share/ghostty"@,
                )
                &&& ancestor_candidates(dir)[3 * i + 2] == path_join(
                    ancestors(dir)[i],
                    "ghostty/zig-out/share/ghostty"@,
                )
            },
    decreases dir.len(),
{
    let rest_a: Seq<Seq<char>> = match path_parent(dir) {
        Some(q) => if q.len() < dir.len() {
            ancestors(q)
        } else {
            seq![]
        },
        None => seq![],
    };
    let rest_c: Seq<Seq<char>> = match path_parent(dir) {
        Some(q) => if q.len() < dir.len() {
            ancestor_candidates(q)
        } else {
            seq![]
        },
        None => seq![],
    };
    assert(ancestors(dir) == seq![dir] + rest_a);
    assert(ancestor_candidates(dir) == candidates_under(dir) + rest_c);
    if path_parent(dir) is Some && path_parent(dir)->0.len() < dir.len() {
        let q = path_parent(dir)->0;
        lemma_ancestor_candidates(q);
    }
    assert(rest_c.len() == 3 * rest_a.len());
    assert forall|i: int|
        #![trigger ancestors(dir)[i]]
        0 <= i < ancestors(dir).len() implies {
            &&& ancestor_candidates(dir)[3 * i] == path_join(
                ancestors(dir)[i],
                "share/limux/ghostty"@,
            )
            &&& ancestor_candidates(dir)[3 * i + 1] == path_join(ancestors(dir)[i], "share/ghostty"@)
            &&& ancestor_candidates(dir)[3 * i + 2] == path_join(
                ancestors(dir)[i],
                "ghostty/zig-out/share/ghostty"@,
            )
        } by {
        if i > 0 {
            assert(ancestors(dir)[i] == rest_a[i - 1]);
            assert(ancestor_candidates(dir)[3 * i] == rest_c[3 * (i - 1)]);
            assert(ancestor_candidates(dir)[3 * i + 1] == rest_c[3 * (i - 1) + 1]);
            assert(ancestor_candidates(dir)[3 * i + 2] == rest_c[3 * (i - 1) + 2]);
            let q = path_parent(dir)->0;
            assert(rest_a == ancestors(q));
            assert(ancestors(q)[i - 1] == rest_a[i - 1]);
        }
    }
}

/// The characters of a list of strings are the lists' strings' characters,
/// one for one, in order.
pub proof fn lemma_texts(v: Seq<String>)
    ensures
        texts(v).len() == v.len(),
        forall|i: int| 0 <= i < v.len() ==> #[trigger] texts(v)[i] == v[i]@,
{
}

} // verus!
