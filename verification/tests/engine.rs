use addon_core::addon::{
    Addon, AddonFolder, AddonState, ReleaseChannel, RemotePackage, RemotePackages, Repository,
    RepositoryIdentifiers, RepositoryMetadata,
};
use addon_core::repository::{AddonFingerprintInfo, CurseFile, CurseModule, Flavor, TukuiPackage};
use std::cmp::Ordering;

fn ids(tukui: Option<&str>, curse: Option<u32>) -> RepositoryIdentifiers {
    RepositoryIdentifiers {
        wowi: None,
        tukui: tukui.map(|s| s.to_string()),
        curse,
    }
}

fn folder(id: &str, title: &str, tukui: Option<&str>, curse: Option<u32>, deps: Vec<&str>) -> AddonFolder {
    AddonFolder::new(
        id.to_string(),
        title.to_string(),
        format!("/addons/{}", id),
        Some("Author".to_string()),
        None,
        Some("1.0.0".to_string()),
        ids(tukui, curse),
        deps.into_iter().map(|d| d.to_string()).collect(),
    )
}

fn tukui_package(lastupdate: &str) -> TukuiPackage {
    TukuiPackage {
        version: "2.1.0".to_string(),
        url: "https://example.invalid/download/42".to_string(),
        lastupdate: lastupdate.to_string(),
        web_url: "https://example.invalid/addon/42".to_string(),
        patch: Some("9.2".to_string()),
    }
}

#[test]
fn tukui_package_builds_addon_with_primary_and_dependents() {
    let folders = vec![
        folder("Base", "Base", Some("42"), None, vec![]),
        folder("Base_Options", "Base Options", None, None, vec!["Base"]),
        folder("Other", "Other", None, None, vec![]),
    ];
    let addon = Addon::from_tukui_package("42".to_string(), &folders, &tukui_package("2020-01-02 03:04:05"));

    assert_eq!(addon.primary_folder_id, "Base");
    let names: Vec<&str> = addon.folders.iter().map(|f| f.id.as_str()).collect();
    assert_eq!(names, vec!["Base", "Base_Options"]);

    let stable = addon.remote_packages().stable.as_ref().expect("stable package");
    assert_eq!(stable.version, "2.1.0");
    assert_eq!(stable.download_url, "https://example.invalid/download/42");
    assert_eq!(stable.date_time, Some(1_577_934_245));
    assert_eq!(stable.file_id, None);
    assert!(addon.remote_packages().beta.is_none());
    assert!(addon.remote_packages().alpha.is_none());

    assert_eq!(addon.website_url(), Some("https://example.invalid/addon/42"));
    assert_eq!(addon.game_version(), Some("9.2"));
    assert_eq!(addon.tukui_id(), Some("42"));
    assert_eq!(addon.repository_id(), Some("42".to_string()));
    assert!(matches!(addon.active_repository, Some(Repository::Tukui)));
    assert!(matches!(addon.state, AddonState::Unmanaged(None)));
    assert_eq!(addon.release_channel, ReleaseChannel::Stable);
}

#[test]
fn tukui_date_only_timestamp_is_rejected_by_both_formats() {
    let folders = vec![folder("Base", "Base", Some("42"), None, vec![])];
    let addon = Addon::from_tukui_package("42".to_string(), &folders, &tukui_package("2020-01-02"));
    let stable = addon.remote_packages().stable.as_ref().expect("stable package");
    assert_eq!(stable.date_time, None);
}

fn curse_file(
    id: i64,
    display_name: &str,
    release_type: u32,
    is_alternate: bool,
    flavor: Option<&str>,
) -> CurseFile {
    CurseFile {
        id,
        display_name: display_name.to_string(),
        download_url: format!("https://example.invalid/files/{}", id),
        file_date: "2020-01-02T03:04:05Z".to_string(),
        release_type,
        is_alternate,
        game_version_flavor: flavor.map(|s| s.to_string()),
        game_version: vec![],
        modules: vec![],
    }
}

fn fingerprint_info() -> AddonFingerprintInfo {
    let mut matched = curse_file(200, "MainAddon v3", 1, false, Some("wow_retail"));
    matched.game_version = vec!["9.2.0".to_string(), "9.1.5".to_string()];
    matched.modules = vec![
        CurseModule { foldername: "Main".to_string() },
        CurseModule { foldername: "Main_Extra".to_string() },
    ];
    AddonFingerprintInfo {
        file: matched,
        latest_files: vec![
            curse_file(100, "v1-stable", 1, false, Some("wow_retail")),
            curse_file(101, "v2-beta", 2, false, Some("wow_retail")),
            curse_file(102, "v2-unknown", 4, false, Some("wow_retail")),
            curse_file(103, "v2-alternate", 1, true, Some("wow_retail")),
            curse_file(104, "v2-classic", 1, false, Some("wow_classic")),
        ],
    }
}

#[test]
fn fingerprint_info_builds_addon_from_module_list() {
    let folders = vec![
        folder("Irrelevant", "Irrelevant", None, None, vec![]),
        folder("Main", "Main", None, Some(17), vec![]),
        folder("Main_Extra", "Main Extra", None, None, vec![]),
    ];
    let info = fingerprint_info();
    let addon = Addon::from_curse_fingerprint_info(17, &info, Flavor::Retail, &folders);

    assert_eq!(addon.primary_folder_id, "Main");
    let names: Vec<&str> = addon.folders.iter().map(|f| f.id.as_str()).collect();
    assert_eq!(names, vec!["Main", "Main_Extra"]);

    let stable = addon.remote_packages().stable.as_ref().expect("stable package");
    assert_eq!(stable.version, "v1-stable");
    assert_eq!(stable.file_id, Some(100));
    assert_eq!(stable.date_time, Some(1_577_934_245));
    let beta = addon.remote_packages().beta.as_ref().expect("beta package");
    assert_eq!(beta.version, "v2-beta");
    assert_eq!(beta.file_id, Some(101));
    assert!(addon.remote_packages().alpha.is_none());

    assert_eq!(addon.version(), Some("MainAddon v3"));
    assert_eq!(addon.file_id(), Some(200));
    assert_eq!(addon.game_version(), Some("9.2.0"));
    assert_eq!(addon.curse_id(), Some(17));
    assert_eq!(addon.repository_id(), Some("17".to_string()));
    assert!(matches!(addon.active_repository, Some(Repository::Curse)));
}

#[test]
fn fingerprint_primary_falls_back_to_first_module_folder() {
    // No folder declares the repository identifier: the first folder
    // named in the module list anchors the add-on.
    let folders = vec![
        folder("Main", "Main", None, None, vec![]),
        folder("Main_Extra", "Main Extra", None, None, vec![]),
    ];
    let info = fingerprint_info();
    let addon = Addon::from_curse_fingerprint_info(17, &info, Flavor::Retail, &folders);
    assert_eq!(addon.primary_folder_id, "Main");
}

#[test]
fn unknown_release_type_codes_yield_no_packages() {
    let folders = vec![folder("Main", "Main", None, Some(17), vec![])];
    let mut info = fingerprint_info();
    info.file.modules = vec![CurseModule { foldername: "Main".to_string() }];
    info.latest_files = vec![
        curse_file(100, "v1", 0, false, Some("wow_retail")),
        curse_file(101, "v2", 4, false, Some("wow_retail")),
        curse_file(102, "v3", 99, false, Some("wow_retail")),
    ];
    let addon = Addon::from_curse_fingerprint_info(17, &info, Flavor::Retail, &folders);
    assert!(addon.remote_packages().stable.is_none());
    assert!(addon.remote_packages().beta.is_none());
    assert!(addon.remote_packages().alpha.is_none());
}

fn package(version: &str, file_id: Option<i64>) -> RemotePackage {
    RemotePackage {
        version: version.to_string(),
        download_url: "https://example.invalid/file".to_string(),
        date_time: None,
        file_id,
    }
}

fn addon_with_packages(
    primary: &str,
    channel: ReleaseChannel,
    stable: Option<RemotePackage>,
    beta: Option<RemotePackage>,
    alpha: Option<RemotePackage>,
) -> Addon {
    let mut addon = Addon::empty(primary);
    addon.release_channel = channel;
    addon.repository_metadata = RepositoryMetadata {
        version: None,
        title: None,
        author: None,
        notes: None,
        website_url: None,
        game_version: None,
        file_id: None,
        remote_packages: RemotePackages { stable, beta, alpha },
    };
    addon
}

#[test]
fn relevant_package_with_only_stable_on_stable_channel() {
    let addon = addon_with_packages(
        "X",
        ReleaseChannel::Stable,
        Some(package("1.0", Some(10))),
        None,
        None,
    );
    let relevant = addon.relevant_release_package().expect("relevant package");
    assert_eq!(relevant.version, "1.0");
    assert_eq!(relevant.file_id, Some(10));
}

#[test]
fn relevant_package_on_alpha_channel_promotes_newer_beta() {
    // Beta's file id is above Alpha's and Stable's is below Beta's:
    // the Alpha selection resolves to the Beta package.
    let addon = addon_with_packages(
        "X",
        ReleaseChannel::Alpha,
        Some(package("s", Some(1))),
        Some(package("b", Some(10))),
        Some(package("a", Some(5))),
    );
    let relevant = addon.relevant_release_package().expect("relevant package");
    assert_eq!(relevant.version, "b");
    assert_eq!(relevant.file_id, Some(10));
}

#[test]
fn relevant_package_on_beta_channel_promotes_newer_stable() {
    let addon = addon_with_packages(
        "X",
        ReleaseChannel::Beta,
        Some(package("s", Some(20))),
        Some(package("b", Some(10))),
        None,
    );
    let relevant = addon.relevant_release_package().expect("relevant package");
    assert_eq!(relevant.version, "s");
}

#[test]
fn updatable_by_version_comparison_substring_means_current() {
    let mut addon = Addon::empty("X");
    addon.set_version("v1.2.3".to_string());
    assert!(!addon.is_updatable(&package("1.2.3", None)));
    assert!(addon.is_updatable(&package("1.2.4", None)));
}

#[test]
fn updatable_with_embedded_remote_version_is_current() {
    let mut addon = Addon::empty("X");
    addon.set_version("Interface-10_0_2v3".to_string());
    assert!(!addon.is_updatable(&package("v3", None)));
}

#[test]
fn updatable_by_file_id_requires_strictly_greater() {
    let mut addon = Addon::empty("X");
    addon.set_version("1.0.0".to_string());
    addon.repository_metadata.file_id = Some(5);
    assert!(addon.is_updatable(&package("2.0.0", Some(6))));
    assert!(!addon.is_updatable(&package("2.0.0", Some(5))));
    assert!(!addon.is_updatable(&package("2.0.0", None)));
}

#[test]
fn ordering_is_by_title_then_reverse_package() {
    let mut a = addon_with_packages("A", ReleaseChannel::Stable, Some(package("v10", Some(10))), None, None);
    let mut b = addon_with_packages("B", ReleaseChannel::Stable, Some(package("v05", Some(5))), None, None);
    a.repository_metadata.title = Some("Same".to_string());
    b.repository_metadata.title = Some("Same".to_string());
    // Equal titles: the greater relevant package sorts first.
    assert_eq!(a.cmp(&b), Ordering::Less);
    assert_eq!(b.cmp(&a), Ordering::Greater);

    b.repository_metadata.title = Some("Tame".to_string());
    assert_eq!(a.cmp(&b), Ordering::Less);
}

#[test]
fn equality_is_identity_only() {
    let mut a = Addon::empty("Same");
    let b = Addon::empty("Same");
    let c = Addon::empty("Other");
    a.set_version("9.9.9".to_string());
    assert!(a == b);
    assert!(a != c);
}

#[test]
fn title_and_author_fall_back_to_primary_folder() {
    let folders = vec![folder("Base", "Base Title", Some("42"), None, vec![])];
    let mut addon = Addon::from_tukui_package("42".to_string(), &folders, &tukui_package("x"));
    assert_eq!(addon.title(), "Base Title");
    assert_eq!(addon.author(), Some("Author"));
    addon.repository_metadata.title = Some("Repo Title".to_string());
    addon.repository_metadata.author = Some("Repo Author".to_string());
    assert_eq!(addon.title(), "Repo Title");
    assert_eq!(addon.author(), Some("Repo Author"));
}

#[test]
fn version_falls_back_to_primary_folder() {
    let folders = vec![folder("Base", "Base", Some("42"), None, vec![])];
    let mut addon = Addon::from_tukui_package("42".to_string(), &folders, &tukui_package("x"));
    assert_eq!(addon.version(), Some("1.0.0"));
    addon.set_version("2.0.0".to_string());
    assert_eq!(addon.version(), Some("2.0.0"));
}

#[test]
fn title_of_empty_addon_is_its_identifier() {
    let addon = Addon::empty("Lonely");
    assert_eq!(addon.title(), "Lonely");
    assert_eq!(addon.version(), None);
    assert_eq!(addon.author(), None);
}

#[test]
fn identifier_setters_override_folder_identifiers() {
    let mut addon = Addon::empty("X");
    assert_eq!(addon.curse_id(), None);
    assert_eq!(addon.tukui_id(), None);
    assert_eq!(addon.wowi_id(), None);
    addon.set_curse_id(7);
    addon.set_tukui_id("t7".to_string());
    addon.set_wowi_id("w7".to_string());
    assert_eq!(addon.curse_id(), Some(7));
    assert_eq!(addon.tukui_id(), Some("t7"));
    assert_eq!(addon.wowi_id(), Some("w7"));
}

#[test]
fn ignore_list_is_checked_by_primary_identifier() {
    let addon = Addon::empty("Mine");
    let ignored = vec!["Other".to_string(), "Mine".to_string()];
    assert!(addon.is_ignored(Some(&ignored)));
    let not_ignored = vec!["Other".to_string()];
    assert!(!addon.is_ignored(Some(&not_ignored)));
    assert!(!addon.is_ignored(None));
}

#[test]
fn release_channel_names_and_default() {
    assert_eq!(ReleaseChannel::default(), ReleaseChannel::Stable);
    assert_eq!(ReleaseChannel::Stable.name(), "Stable");
    assert_eq!(ReleaseChannel::Beta.name(), "Beta");
    assert_eq!(ReleaseChannel::Alpha.name(), "Alpha");
}
