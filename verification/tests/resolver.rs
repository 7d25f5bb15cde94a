use backend_supervisor::resolver::{
    candidates, resolve_backend_path, Candidate, PathRoot, Probe, BACKEND_EXE,
};

fn probe(candidate: Candidate, exists: bool) -> Probe {
    Probe { candidate, exists }
}

#[test]
fn executable_name() {
    assert_eq!(BACKEND_EXE, "shanten-backend.exe");
}

#[test]
fn all_candidates_in_order_of_preference() {
    assert_eq!(
        candidates(true, true),
        vec![
            Candidate::Packaged,
            Candidate::DevResources,
            Candidate::DevBin,
            Candidate::BesideExeResources,
            Candidate::BesideExeBin,
        ]
    );
}

#[test]
fn candidates_without_their_root_are_left_out() {
    assert_eq!(
        candidates(false, true),
        vec![
            Candidate::DevResources,
            Candidate::DevBin,
            Candidate::BesideExeResources,
            Candidate::BesideExeBin,
        ]
    );
    assert_eq!(
        candidates(true, false),
        vec![Candidate::Packaged, Candidate::DevResources, Candidate::DevBin]
    );
    assert_eq!(candidates(false, false), vec![Candidate::DevResources, Candidate::DevBin]);
}

#[test]
fn roots_and_components() {
    assert_eq!(Candidate::Packaged.root(), PathRoot::ResourceDir);
    assert_eq!(Candidate::Packaged.components(), vec!["bin", "shanten-backend.exe"]);
    assert_eq!(Candidate::DevResources.root(), PathRoot::WorkingDir);
    assert_eq!(
        Candidate::DevResources.components(),
        vec!["src-tauri", "resources", "bin", "shanten-backend.exe"]
    );
    assert_eq!(Candidate::DevBin.root(), PathRoot::WorkingDir);
    assert_eq!(Candidate::DevBin.components(), vec!["src-tauri", "bin", "shanten-backend.exe"]);
    assert_eq!(Candidate::BesideExeResources.root(), PathRoot::ExeDir);
    assert_eq!(
        Candidate::BesideExeResources.components(),
        vec!["resources", "bin", "shanten-backend.exe"]
    );
    assert_eq!(Candidate::BesideExeBin.root(), PathRoot::ExeDir);
    assert_eq!(Candidate::BesideExeBin.components(), vec!["bin", "shanten-backend.exe"]);
}

#[test]
fn priorities_follow_the_order() {
    let all = candidates(true, true);
    for (i, c) in all.iter().enumerate() {
        assert_eq!(c.priority() as usize, i);
    }
}

#[test]
fn nothing_found() {
    assert_eq!(resolve_backend_path(&vec![]), None);
    let probes: Vec<Probe> = candidates(true, true).into_iter().map(|c| probe(c, false)).collect();
    assert_eq!(resolve_backend_path(&probes), None);
}

#[test]
fn packaged_wins_over_development_fallback() {
    let probes = vec![
        probe(Candidate::Packaged, true),
        probe(Candidate::DevResources, true),
        probe(Candidate::DevBin, false),
    ];
    assert_eq!(resolve_backend_path(&probes), Some(Candidate::Packaged));
}

#[test]
fn higher_priority_wins_for_every_pair() {
    let all = candidates(true, true);
    for i in 0..all.len() {
        for j in (i + 1)..all.len() {
            let probes: Vec<Probe> =
                all.iter().enumerate().map(|(k, c)| probe(*c, k == i || k == j)).collect();
            assert_eq!(resolve_backend_path(&probes), Some(all[i]));
        }
    }
}

#[test]
fn the_order_of_the_probes_does_not_matter() {
    let probes = vec![
        probe(Candidate::BesideExeBin, true),
        probe(Candidate::DevBin, true),
        probe(Candidate::Packaged, false),
        probe(Candidate::DevResources, true),
    ];
    assert_eq!(resolve_backend_path(&probes), Some(Candidate::DevResources));
}

#[test]
fn single_fallback_is_found() {
    let probes = vec![
        probe(Candidate::Packaged, false),
        probe(Candidate::DevResources, false),
        probe(Candidate::DevBin, false),
        probe(Candidate::BesideExeResources, false),
        probe(Candidate::BesideExeBin, true),
    ];
    assert_eq!(resolve_backend_path(&probes), Some(Candidate::BesideExeBin));
}
