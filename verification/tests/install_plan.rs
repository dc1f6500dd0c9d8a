use addon_core::install::{plan_install, toc_root, top_component, ArchiveEntry};

fn entry(path: &str, is_dir: bool) -> ArchiveEntry {
    ArchiveEntry { path: path.to_string(), is_dir }
}

#[test]
fn toc_root_detects_directory_matching_its_toc() {
    assert_eq!(toc_root("Foo/Foo.toc"), Some("Foo".to_string()));
    assert_eq!(toc_root("Foo.bar/Foo.bar.toc"), Some("Foo.bar".to_string()));
    assert_eq!(toc_root("Foo/Bar.toc"), None);
    assert_eq!(toc_root("A/B/B.toc"), None);
    assert_eq!(toc_root("Foo.toc"), None);
    assert_eq!(toc_root("Foo/lib/x.lua"), None);
    assert_eq!(toc_root("Foo/Foo.lua"), None);
}

#[test]
fn top_component_is_first_path_component() {
    assert_eq!(top_component("Foo/lib/x.lua"), "Foo".to_string());
    assert_eq!(top_component("Foo"), "Foo".to_string());
}

#[test]
fn archive_with_one_bundle_yields_one_root_and_wipes_it_once() {
    let entries = vec![entry("Foo/Foo.toc", false), entry("Foo/lib/x.lua", false)];
    let plan = plan_install(&entries);

    assert_eq!(plan.addon_roots, vec!["Foo".to_string()]);

    assert_eq!(plan.steps.len(), 2);
    assert_eq!(plan.steps[0].path, "Foo/Foo.toc");
    assert!(!plan.steps[0].is_dir);
    // The first entry under `Foo` wipes the stale directory, so a
    // leftover file from an earlier install cannot survive.
    assert_eq!(plan.steps[0].wipe_top, Some("Foo".to_string()));
    assert_eq!(plan.steps[1].path, "Foo/lib/x.lua");
    assert_eq!(plan.steps[1].wipe_top, None);
}

#[test]
fn archive_with_two_bundles_yields_both_roots() {
    let entries = vec![
        entry("Foo", true),
        entry("Foo/Foo.toc", false),
        entry("Bar", true),
        entry("Bar/Bar.toc", false),
        entry("Bar/media/icon.tga", false),
    ];
    let plan = plan_install(&entries);
    assert_eq!(plan.addon_roots, vec!["Foo".to_string(), "Bar".to_string()]);
    assert_eq!(plan.steps[0].wipe_top, Some("Foo".to_string()));
    assert_eq!(plan.steps[1].wipe_top, None);
    assert_eq!(plan.steps[2].wipe_top, Some("Bar".to_string()));
    assert_eq!(plan.steps[3].wipe_top, None);
    assert_eq!(plan.steps[4].wipe_top, None);
    assert!(plan.steps[0].is_dir);
}
