//! Where the backend executable may live, and which of the places that exist
//! wins.
//!
//! A candidate is a root directory that only the host knows (the packaged
//! resource directory, the working directory, the directory of the running
//! executable) and the components below it. The host turns a candidate into a
//! path, probes it, and reports what it found.

use vstd::prelude::*;

verus! {

/// File name of the backend executable.
pub const BACKEND_EXE: &'static str = "shanten-backend.exe";

/// A directory that the host resolves.
#[derive(Clone, Copy, Debug, PartialEq, Eq, Structural)]
pub enum PathRoot {
    /// The resource directory of the packaged application.
    ResourceDir,
    /// The working directory: the components form a relative path.
    WorkingDir,
    /// The directory that holds the running executable.
    ExeDir,
}

/// The places where the backend executable is looked for, best first.
#[derive(Clone, Copy, Debug, PartialEq, Eq, Structural)]
pub enum Candidate {
    /// `<resources>/bin/<exe>`
    Packaged,
    /// `src-tauri/resources/bin/<exe>`
    DevResources,
    /// `src-tauri/bin/<exe>`
    DevBin,
    /// `<exe dir>/resources/bin/<exe>`
    BesideExeResources,
    /// `<exe dir>/bin/<exe>`
    BesideExeBin,
}

/// What the host found at one candidate.
#[derive(Clone, Copy, Debug, PartialEq, Eq, Structural)]
pub struct Probe {
    pub candidate: Candidate,
    pub exists: bool,
}

impl Candidate {
    /// Position in the order of preference; lower wins.
    pub open spec fn rank(self) -> nat {
        match self {
            Candidate::Packaged => 0,
            Candidate::DevResources => 1,
            Candidate::DevBin => 2,
            Candidate::BesideExeResources => 3,
            Candidate::BesideExeBin => 4,
        }
    }

    pub open spec fn spec_root(self) -> PathRoot {
        match self {
            Candidate::Packaged => PathRoot::ResourceDir,
            Candidate::DevResources => PathRoot::WorkingDir,
            Candidate::DevBin => PathRoot::WorkingDir,
            Candidate::BesideExeResources => PathRoot::ExeDir,
            Candidate::BesideExeBin => PathRoot::ExeDir,
        }
    }

    /// The components below the root, outermost first.
    pub open spec fn spec_components(self) -> Seq<Seq<char>> {
        match self {
            Candidate::Packaged => seq!["bin"@, BACKEND_EXE@],
            Candidate::DevResources => seq!["src-tauri"@, "resources"@, "bin"@, BACKEND_EXE@],
            Candidate::DevBin => seq!["src-tauri"@, "bin"@, BACKEND_EXE@],
            Candidate::BesideExeResources => seq!["resources"@, "bin"@, BACKEND_EXE@],
            Candidate::BesideExeBin => seq!["bin"@, BACKEND_EXE@],
        }
    }

    /// Whether the candidate is a packaged location rather than a fallback
    /// into the development tree.
    pub open spec fn is_packaged(self) -> bool {
        self == Candidate::Packaged
    }

    pub fn priority(&self) -> (r: u8)
        ensures
            r == self.rank(),
    {
        match self {
            Candidate::Packaged => 0,
            Candidate::DevResources => 1,
            Candidate::DevBin => 2,
            Candidate::BesideExeResources => 3,
            Candidate::BesideExeBin => 4,
        }
    }

    pub fn root(&self) -> (r: PathRoot)
        ensures
            r == self.spec_root(),
    {
        match self {
            Candidate::Packaged => PathRoot::ResourceDir,
            Candidate::DevResources => PathRoot::WorkingDir,
            Candidate::DevBin => PathRoot::WorkingDir,
            Candidate::BesideExeResources => PathRoot::ExeDir,
            Candidate::BesideExeBin => PathRoot::ExeDir,
        }
    }

    /// The components that the host joins onto the root, outermost first.
    pub fn components(&self) -> (r: Vec<&'static str>)
        ensures
            r@.len() == self.spec_components().len(),
            forall|i: int| 0 <= i < r@.len() ==> (#[trigger] r@[i])@ == self.spec_components()[i],
    {
        match self {
            Candidate::Packaged => vec!["bin", BACKEND_EXE],
            Candidate::DevResources => vec!["src-tauri", "resources", "bin", BACKEND_EXE],
            Candidate::DevBin => vec!["src-tauri", "bin", BACKEND_EXE],
            Candidate::BesideExeResources => vec!["resources", "bin", BACKEND_EXE],
            Candidate::BesideExeBin => vec!["bin", BACKEND_EXE],
        }
    }
}

/// Whether the host could resolve `root`. The working directory needs no
/// resolving.
pub open spec fn root_known(root: PathRoot, resource_dir_known: bool, exe_dir_known: bool) -> bool {
    match root {
        PathRoot::ResourceDir => resource_dir_known,
        PathRoot::WorkingDir => true,
        PathRoot::ExeDir => exe_dir_known,
    }
}

/// The candidates that can be probed, in the order of preference: each
/// candidate whose root the host could resolve, once, best first.
pub fn candidates(resource_dir_known: bool, exe_dir_known: bool) -> (r: Vec<Candidate>)
    ensures
        forall|c: Candidate|
            r@.contains(c) <==> root_known(c.spec_root(), resource_dir_known, exe_dir_known),
        forall|i: int, j: int| 0 <= i < j < r@.len() ==> r@[i].rank() < r@[j].rank(),
{
    let mut out: Vec<Candidate> = Vec::new();
    if resource_dir_known {
        out.push(Candidate::Packaged);
    }
    out.push(Candidate::DevResources);
    out.push(Candidate::DevBin);
    if exe_dir_known {
        out.push(Candidate::BesideExeResources);
        out.push(Candidate::BesideExeBin);
    }
    proof {
        let s = out@;
        assert forall|c: Candidate|
            s.contains(c) <==> root_known(c.spec_root(), resource_dir_known, exe_dir_known) by {
            if root_known(c.spec_root(), resource_dir_known, exe_dir_known) {
                let base: int = if resource_dir_known {
                    1
                } else {
                    0
                };
                let at: int = match c {
                    Candidate::Packaged => 0,
                    Candidate::DevResources => base,
                    Candidate::DevBin => base + 1,
                    Candidate::BesideExeResources => base + 2,
                    Candidate::BesideExeBin => base + 3,
                };
                assert(s[at] == c);
            }
        }
    }
    out
}

/// Some probe reports that `c` exists.
pub open spec fn found(probes: Seq<Probe>, c: Candidate) -> bool {
    exists|i: int| 0 <= i < probes.len() && probes[i].exists && probes[i].candidate == c
}

/// `c` was found, and nothing that was found is preferred to it.
pub open spec fn is_best(probes: Seq<Probe>, c: Candidate) -> bool {
    &&& found(probes, c)
    &&& forall|j: int|
        0 <= j < probes.len() && probes[j].exists ==> c.rank() <= (#[trigger] probes[j]).candidate.rank()
}

/// Nothing was found.
pub open spec fn none_exists(probes: Seq<Probe>) -> bool {
    forall|j: int| 0 <= j < probes.len() ==> !(#[trigger] probes[j]).exists
}

/// Picks the executable from what the host found: the most preferred
/// candidate among those that exist, in whatever order they were probed, or
/// `None` if none exists.
pub fn resolve_backend_path(probes: &Vec<Probe>) -> (r: Option<Candidate>)
    ensures
        match r {
            Some(c) => is_best(probes@, c),
            None => none_exists(probes@),
        },
{
    let mut best: Option<Candidate> = None;
    let mut i: usize = 0;
    while i < probes.len()
        invariant
            i <= probes.len(),
            match best {
                Some(c) => is_best(probes@.take(i as int), c),
                None => none_exists(probes@.take(i as int)),
            },
        decreases probes.len() - i,
    {
        let probe = probes[i];
        let ghost before = probes@.take(i as int);
        let ghost after = probes@.take(i + 1);
        proof {
            assert(after.len() == i + 1);
            assert(after[i as int] == probe);
            assert forall|j: int| 0 <= j < i implies after[j] == before[j] by {}
        }
        if probe.exists {
            let better = match best {
                Some(c) => probe.candidate.priority() < c.priority(),
                None => true,
            };
            if better {
                best = Some(probe.candidate);
                proof {
                    assert(after[i as int].exists && after[i as int].candidate == probe.candidate);
                }
            } else {
                proof {
                    let c = best->0;
                    let w = choose|k: int| 0 <= k < before.len() && before[k].exists && before[k].candidate == c;
                    assert(after[w].exists && after[w].candidate == c);
                }
            }
        } else {
            proof {
                if let Some(c) = best {
                    let w = choose|k: int| 0 <= k < before.len() && before[k].exists && before[k].candidate == c;
                    assert(after[w].exists && after[w].candidate == c);
                }
            }
        }
        i += 1;
    }
    proof {
        assert(probes@.take(i as int) =~= probes@);
    }
    best
}

/// No two candidates share a rank, so "the best" is one candidate.
pub proof fn law_rank_is_injective(a: Candidate, b: Candidate)
    requires
        a.rank() == b.rank(),
    ensures
        a == b,
{
}

/// Among candidates that exist, the resolver never returns one while a
/// preferred one exists too: if `hi` and `lo` were both found and `hi` is
/// preferred, the answer is not `lo`, and it is at least as good as `hi`.
/// In particular the packaged location wins over every fallback.
pub proof fn law_resolution_order(probes: Seq<Probe>, hi: int, lo: int, chosen: Candidate)
    requires
        0 <= hi < probes.len(),
        0 <= lo < probes.len(),
        probes[hi].exists,
        probes[lo].exists,
        probes[hi].candidate.rank() < probes[lo].candidate.rank(),
        is_best(probes, chosen),
    ensures
        chosen != probes[lo].candidate,
        chosen.rank() <= probes[hi].candidate.rank(),
        probes[hi].candidate.is_packaged() ==> chosen.is_packaged(),
{
}

/// What is found is found whatever else was probed: the answer depends only
/// on which candidates exist, not on the order of the probes.
pub proof fn law_resolution_ignores_probe_order(a: Seq<Probe>, b: Seq<Probe>, ca: Candidate, cb: Candidate)
    requires
        forall|c: Candidate| found(a, c) <==> found(b, c),
        is_best(a, ca),
        is_best(b, cb),
    ensures
        ca == cb,
{
    assert(found(a, cb) && found(b, ca));
    let ja = choose|i: int| 0 <= i < a.len() && a[i].exists && a[i].candidate == cb;
    let jb = choose|j: int| 0 <= j < b.len() && b[j].exists && b[j].candidate == ca;
    assert(ca.rank() <= a[ja].candidate.rank());
    assert(cb.rank() <= b[jb].candidate.rank());
}

} // verus!
