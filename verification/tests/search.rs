use backend_supervisor::locator::{
    binary_names, candidates, first_existing, locate_backend_binary, search_roots, BaseDir,
    BinaryCandidate, KnownDirs, SearchRoot,
};

fn all_known() -> KnownDirs {
    KnownDirs { resource_dir: true, resource_parent: true, app_data_dir: true, executable_dir: true }
}

#[test]
fn name_variants_in_order() {
    assert_eq!(
        binary_names(),
        vec![
            "xfactor-backend",
            "xfactor-backend-x86_64-apple-darwin",
            "xfactor-backend-aarch64-apple-darwin",
            "xfactor-backend-x86_64-unknown-linux-gnu",
            "xfactor-backend-x86_64-pc-windows-msvc.exe",
        ]
    );
}

#[test]
fn all_roots_in_order() {
    assert_eq!(
        search_roots(&all_known()),
        vec![
            SearchRoot::BundleExecutables,
            SearchRoot::Resources,
            SearchRoot::ResourceBinaries,
            SearchRoot::AppData,
            SearchRoot::ExecutableDir,
            SearchRoot::ExecutableBinaries,
        ]
    );
}

#[test]
fn unknown_directories_are_left_out() {
    let no_resources = KnownDirs { resource_dir: false, ..all_known() };
    assert_eq!(
        search_roots(&no_resources),
        vec![SearchRoot::AppData, SearchRoot::ExecutableDir, SearchRoot::ExecutableBinaries]
    );
    let no_parent = KnownDirs { resource_parent: false, ..all_known() };
    assert_eq!(
        search_roots(&no_parent),
        vec![
            SearchRoot::Resources,
            SearchRoot::ResourceBinaries,
            SearchRoot::AppData,
            SearchRoot::ExecutableDir,
            SearchRoot::ExecutableBinaries,
        ]
    );
    let only_data = KnownDirs {
        resource_dir: false,
        resource_parent: true,
        app_data_dir: true,
        executable_dir: false,
    };
    assert_eq!(search_roots(&only_data), vec![SearchRoot::AppData]);
    let nothing = KnownDirs {
        resource_dir: false,
        resource_parent: false,
        app_data_dir: false,
        executable_dir: false,
    };
    assert_eq!(search_roots(&nothing), Vec::<SearchRoot>::new());
}

#[test]
fn roots_name_their_base_and_folder() {
    assert_eq!(SearchRoot::BundleExecutables.base(), BaseDir::ResourceParent);
    assert_eq!(SearchRoot::BundleExecutables.subfolder(), Some("MacOS"));
    assert_eq!(SearchRoot::Resources.base(), BaseDir::ResourceDir);
    assert_eq!(SearchRoot::Resources.subfolder(), None);
    assert_eq!(SearchRoot::ResourceBinaries.base(), BaseDir::ResourceDir);
    assert_eq!(SearchRoot::ResourceBinaries.subfolder(), Some("binaries"));
    assert_eq!(SearchRoot::AppData.base(), BaseDir::AppDataDir);
    assert_eq!(SearchRoot::AppData.subfolder(), None);
    assert_eq!(SearchRoot::ExecutableDir.base(), BaseDir::ExecutableDir);
    assert_eq!(SearchRoot::ExecutableDir.subfolder(), None);
    assert_eq!(SearchRoot::ExecutableBinaries.base(), BaseDir::ExecutableDir);
    assert_eq!(SearchRoot::ExecutableBinaries.subfolder(), Some("binaries"));
}

#[test]
fn candidates_are_root_major_name_minor() {
    assert_eq!(
        candidates(2, 3),
        vec![
            BinaryCandidate { root: 0, name: 0 },
            BinaryCandidate { root: 0, name: 1 },
            BinaryCandidate { root: 0, name: 2 },
            BinaryCandidate { root: 1, name: 0 },
            BinaryCandidate { root: 1, name: 1 },
            BinaryCandidate { root: 1, name: 2 },
        ]
    );
    assert_eq!(candidates(0, 5), Vec::<BinaryCandidate>::new());
    assert_eq!(candidates(5, 0), Vec::<BinaryCandidate>::new());
    assert_eq!(candidates(6, 5).len(), 30);
}

#[test]
fn earlier_root_wins_over_earlier_name() {
    let roots = ["A", "B"];
    let names = ["x", "y"];
    let present = ["A/y", "B/x"];
    let exists: Vec<bool> = candidates(roots.len(), names.len())
        .iter()
        .map(|c| present.contains(&format!("{}/{}", roots[c.root], names[c.name]).as_str()))
        .collect();
    assert_eq!(exists, vec![false, true, true, false]);
    let found = locate_backend_binary(roots.len(), names.len(), &exists).expect("a match");
    assert_eq!(format!("{}/{}", roots[found.root], names[found.name]), "A/y");
    assert_eq!(first_existing(&exists), Some(1));
}

#[test]
fn first_of_several_matches_is_returned() {
    let exists = vec![false, false, false, false, true, false, true, true, true, true];
    assert_eq!(locate_backend_binary(2, 5, &exists), Some(BinaryCandidate { root: 0, name: 4 }));
    let exists = vec![false, false, false, false, false, false, false, true, false, false];
    assert_eq!(locate_backend_binary(2, 5, &exists), Some(BinaryCandidate { root: 1, name: 2 }));
    let exists = vec![true; 10];
    assert_eq!(locate_backend_binary(2, 5, &exists), Some(BinaryCandidate { root: 0, name: 0 }));
}

#[test]
fn nothing_found_when_nothing_exists() {
    assert_eq!(locate_backend_binary(6, 5, &vec![false; 30]), None);
    assert_eq!(locate_backend_binary(0, 5, &vec![]), None);
    assert_eq!(locate_backend_binary(3, 0, &vec![]), None);
    assert_eq!(first_existing(&vec![false; 4]), None);
    assert_eq!(first_existing(&vec![]), None);
}

#[test]
fn observations_beyond_the_candidates_are_ignored_and_missing_ones_count_as_absent() {
    assert_eq!(locate_backend_binary(1, 2, &vec![false, false, true]), None);
    assert_eq!(locate_backend_binary(2, 2, &vec![false]), None);
    assert_eq!(
        locate_backend_binary(2, 2, &vec![false, false, true]),
        Some(BinaryCandidate { root: 1, name: 0 })
    );
}

#[test]
fn the_match_is_the_first_listed_candidate_that_exists() {
    for n_roots in 0usize..4 {
        for n_names in 0usize..4 {
            let listed = candidates(n_roots, n_names);
            let total = n_roots * n_names;
            assert_eq!(listed.len(), total);
            for pattern in 0u32..(1u32 << total) {
                let exists: Vec<bool> = (0..total).map(|k| pattern & (1 << k) != 0).collect();
                let expected = first_existing(&exists).map(|k| listed[k]);
                assert_eq!(locate_backend_binary(n_roots, n_names, &exists), expected);
            }
        }
    }
}
