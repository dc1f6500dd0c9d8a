//! Building a logical add-on out of one repository's response plus the
//! list of locally discovered folders: one path for a Tukui-style
//! package response, one for a fingerprint-match response that may
//! bundle several folders into one add-on.

use vstd::prelude::*;
use vstd::string::StringExecFns;

use crate::addon::{
    Addon, AddonFolder, AddonState, FolderView, ReleaseChannel, RemotePackage, RemotePackages,
    Repository, RepositoryMetadata, clone_opt_string, folder_views, seq_names_id,
};
use crate::time::{parse_rfc3339_epoch, parse_update_timestamp, rfc3339_epoch_of,
    spec_fallback_epoch};

verus! {

/// The client flavor a release must target to be considered.
#[derive(Clone, Copy, Debug, PartialEq, Eq, Structural)]
pub enum Flavor {
    Retail,
    Classic,
}

impl Flavor {
    /// The tag a repository uses for this flavor.
    pub open spec fn spec_tag(self) -> Seq<char> {
        match self {
            Flavor::Retail => "wow_retail"@,
            Flavor::Classic => "wow_classic"@,
        }
    }

    /// Returns the tag a repository uses for this flavor.
    pub fn tag(&self) -> (r: &'static str)
        ensures
            r@ == self.spec_tag(),
    {
        match self {
            Flavor::Retail => "wow_retail",
            Flavor::Classic => "wow_classic",
        }
    }
}

/// A Tukui-style package response: one release, with its last-update
/// time as text in one of two accepted formats.
pub struct TukuiPackage {
    pub version: String,
    pub url: String,
    pub lastupdate: String,
    pub web_url: String,
    pub patch: Option<String>,
}

/// One folder name bundled by a release.
pub struct CurseModule {
    pub foldername: String,
}

/// One release artifact in a fingerprint-match response.
pub struct CurseFile {
    pub id: i64,
    pub display_name: String,
    pub download_url: String,
    pub file_date: String,
    pub release_type: u32,
    pub is_alternate: bool,
    pub game_version_flavor: Option<String>,
    pub game_version: Vec<String>,
    pub modules: Vec<CurseModule>,
}

/// A fingerprint-match response: the authoritative matched file plus
/// the repository's current latest files.
pub struct AddonFingerprintInfo {
    pub file: CurseFile,
    pub latest_files: Vec<CurseFile>,
}

/// A candidate file counts for the caller's flavor exactly when it is
/// not flagged alternate and its flavor tag equals the requested one.
pub open spec fn file_qualifies(f: CurseFile, tag: Seq<char>) -> bool {
    &&& !f.is_alternate
    &&& match f.game_version_flavor {
        Some(t) => t@ == tag,
        None => false,
    }
}

/// The package built out of one candidate file.
pub open spec fn package_of_file(f: CurseFile) -> RemotePackage {
    RemotePackage {
        version: f.display_name,
        download_url: f.download_url,
        date_time: rfc3339_epoch_of(f.file_date@),
        file_id: Some(f.id),
    }
}

/// The package filed under the release-type code `code`: the last
/// qualifying file with that code wins, and files with any other code
/// contribute nothing.
pub open spec fn channel_package(files: Seq<CurseFile>, tag: Seq<char>, code: u32) -> Option<
    RemotePackage,
>
    decreases files.len(),
{
    if files.len() == 0 {
        None
    } else if file_qualifies(files.last(), tag) && files.last().release_type == code {
        Some(package_of_file(files.last()))
    } else {
        channel_package(files.drop_last(), tag, code)
    }
}

/// A file whose release-type code is none of the three known ones
/// leaves every channel unchanged.
pub proof fn lemma_unknown_release_code_dropped(files: Seq<CurseFile>, tag: Seq<char>, f: CurseFile)
    requires
        f.release_type != 1,
        f.release_type != 2,
        f.release_type != 3,
    ensures
        channel_package(files.push(f), tag, 1) == channel_package(files, tag, 1),
        channel_package(files.push(f), tag, 2) == channel_package(files, tag, 2),
        channel_package(files.push(f), tag, 3) == channel_package(files, tag, 3),
{
    assert(files.push(f).last() == f);
    assert(files.push(f).drop_last() =~= files);
}

/// Some module in `modules` names the folder `id`.
pub open spec fn modules_name(modules: Seq<CurseModule>, id: Seq<char>) -> bool
    decreases modules.len(),
{
    if modules.len() == 0 {
        false
    } else {
        modules[0].foldername@ == id || modules_name(modules.drop_first(), id)
    }
}

/// Decides whether some module names the folder `id`.
fn modules_contain(modules: &Vec<CurseModule>, id: &String) -> (r: bool)
    ensures
        r == modules_name(modules@, id@),
{
    let n = modules.len();
    let mut i: usize = 0;
    proof {
        assert(modules@.skip(0) =~= modules@);
    }
    while i < n
        invariant
            n == modules@.len(),
            i <= n,
            modules_name(modules@, id@) == modules_name(modules@.skip(i as int), id@),
        decreases n - i,
    {
        proof {
            let rest = modules@.skip(i as int);
            assert(rest[0] == modules@[i as int]);
            assert(rest.drop_first() =~= modules@.skip(i + 1 as int));
        }
        if modules[i].foldername == *id {
            proof {
                assert(modules@.skip(i as int)[0].foldername@ == id@);
            }
            return true;
        }
        i = i + 1;
    }
    false
}

/// Whether the folder declares the Tukui identifier `tukui_id`.
pub open spec fn folder_declares_tukui(f: AddonFolder, tukui_id: Seq<char>) -> bool {
    match f.repository_identifiers.tukui {
        Some(t) => t@ == tukui_id,
        None => false,
    }
}

/// The first folder declaring the Tukui identifier `tukui_id`.
pub open spec fn first_tukui_folder(s: Seq<AddonFolder>, tukui_id: Seq<char>) -> Option<
    AddonFolder,
>
    decreases s.len(),
{
    if s.len() == 0 {
        None
    } else if folder_declares_tukui(s[0], tukui_id) {
        Some(s[0])
    } else {
        first_tukui_folder(s.drop_first(), tukui_id)
    }
}

/// Whether the folder belongs to the add-on anchored at `primary`: it
/// is the primary folder itself or depends on it.
pub open spec fn tukui_member(f: AddonFolder, primary: Seq<char>) -> bool {
    f.id@ == primary || seq_names_id(f.dependencies@, primary)
}

/// The views of the folders belonging to the add-on anchored at
/// `primary`, in discovery order.
pub open spec fn tukui_folder_views(s: Seq<AddonFolder>, primary: Seq<char>) -> Seq<FolderView>
    decreases s.len(),
{
    if s.len() == 0 {
        Seq::empty()
    } else {
        tukui_folder_views(s.drop_last(), primary) + (if tukui_member(s.last(), primary) {
            seq![s.last()@]
        } else {
            Seq::<FolderView>::empty()
        })
    }
}

/// The views of the folders named in the module list, in discovery
/// order.
pub open spec fn module_folder_views(s: Seq<AddonFolder>, modules: Seq<CurseModule>) -> Seq<
    FolderView,
>
    decreases s.len(),
{
    if s.len() == 0 {
        Seq::empty()
    } else {
        module_folder_views(s.drop_last(), modules) + (if modules_name(modules, s.last().id@) {
            seq![s.last()@]
        } else {
            Seq::<FolderView>::empty()
        })
    }
}

/// The first folder that both declares the numeric identifier
/// `curse_id` and is named in the module list.
pub open spec fn first_declared_module_folder(
    s: Seq<AddonFolder>,
    curse_id: u32,
    modules: Seq<CurseModule>,
) -> Option<AddonFolder>
    decreases s.len(),
{
    if s.len() == 0 {
        None
    } else if s[0].repository_identifiers.curse == Some(curse_id) && modules_name(
        modules,
        s[0].id@,
    ) {
        Some(s[0])
    } else {
        first_declared_module_folder(s.drop_first(), curse_id, modules)
    }
}

/// The first folder named in the module list.
pub open spec fn first_module_folder(s: Seq<AddonFolder>, modules: Seq<CurseModule>) -> Option<
    AddonFolder,
>
    decreases s.len(),
{
    if s.len() == 0 {
        None
    } else if modules_name(modules, s[0].id@) {
        Some(s[0])
    } else {
        first_module_folder(s.drop_first(), modules)
    }
}

/// The folder chosen as identity anchor for a fingerprint match: a
/// folder that already declares the repository's identifier and is
/// named in the module list wins; otherwise the first folder named in
/// the module list.
pub open spec fn curse_primary_folder(
    s: Seq<AddonFolder>,
    curse_id: u32,
    modules: Seq<CurseModule>,
) -> Option<AddonFolder> {
    match first_declared_module_folder(s, curse_id, modules) {
        Some(f) => Some(f),
        None => first_module_folder(s, modules),
    }
}

/// The first folder declaring a Tukui identifier is one of the
/// discovered folders and declares that identifier.
pub proof fn lemma_first_tukui_folder_in_list(s: Seq<AddonFolder>, tukui_id: Seq<char>)
    requires
        first_tukui_folder(s, tukui_id) is Some,
    ensures
        s.contains(first_tukui_folder(s, tukui_id)->0),
        folder_declares_tukui(first_tukui_folder(s, tukui_id)->0, tukui_id),
    decreases s.len(),
{
    if folder_declares_tukui(s[0], tukui_id) {
        assert(s.contains(s[0]));
    } else {
        lemma_first_tukui_folder_in_list(s.drop_first(), tukui_id);
        let f = first_tukui_folder(s, tukui_id)->0;
        let i = choose|i: int| 0 <= i < s.drop_first().len() && s.drop_first()[i] == f;
        assert(s[i + 1] == f);
    }
}

/// The folder anchoring a fingerprint match is one of the discovered
/// folders and is named in the module list.
pub proof fn lemma_curse_primary_in_list(
    s: Seq<AddonFolder>,
    curse_id: u32,
    modules: Seq<CurseModule>,
)
    requires
        curse_primary_folder(s, curse_id, modules) is Some,
    ensures
        s.contains(curse_primary_folder(s, curse_id, modules)->0),
        modules_name(modules, curse_primary_folder(s, curse_id, modules)->0.id@),
    decreases s.len(),
{
    if first_declared_module_folder(s, curse_id, modules) is Some {
        lemma_first_declared_in_list(s, curse_id, modules);
    } else {
        lemma_first_module_folder_in_list(s, modules);
    }
}

proof fn lemma_first_declared_in_list(s: Seq<AddonFolder>, curse_id: u32, modules: Seq<CurseModule>)
    requires
        first_declared_module_folder(s, curse_id, modules) is Some,
    ensures
        s.contains(first_declared_module_folder(s, curse_id, modules)->0),
        modules_name(modules, first_declared_module_folder(s, curse_id, modules)->0.id@),
    decreases s.len(),
{
    if s[0].repository_identifiers.curse == Some(curse_id) && modules_name(modules, s[0].id@) {
        assert(s.contains(s[0]));
    } else {
        lemma_first_declared_in_list(s.drop_first(), curse_id, modules);
        let f = first_declared_module_folder(s, curse_id, modules)->0;
        let i = choose|i: int| 0 <= i < s.drop_first().len() && s.drop_first()[i] == f;
        assert(s[i + 1] == f);
    }
}

proof fn lemma_first_module_folder_in_list(s: Seq<AddonFolder>, modules: Seq<CurseModule>)
    requires
        first_module_folder(s, modules) is Some,
    ensures
        s.contains(first_module_folder(s, modules)->0),
        modules_name(modules, first_module_folder(s, modules)->0.id@),
    decreases s.len(),
{
    if modules_name(modules, s[0].id@) {
        assert(s.contains(s[0]));
    } else {
        lemma_first_module_folder_in_list(s.drop_first(), modules);
        let f = first_module_folder(s, modules)->0;
        let i = choose|i: int| 0 <= i < s.drop_first().len() && s.drop_first()[i] == f;
        assert(s[i + 1] == f);
    }
}

/// The anchor folder of a Tukui match belongs to the folders built for
/// it: the add-on always carries its primary folder.
pub proof fn lemma_tukui_primary_included(s: Seq<AddonFolder>, tukui_id: Seq<char>)
    requires
        first_tukui_folder(s, tukui_id) is Some,
    ensures
        tukui_folder_views(s, first_tukui_folder(s, tukui_id)->0.id@).contains(
            first_tukui_folder(s, tukui_id)->0@,
        ),
{
    let f = first_tukui_folder(s, tukui_id)->0;
    lemma_first_tukui_folder_in_list(s, tukui_id);
    lemma_tukui_folders_membership(s, f.id@, f@);
    assert(s.contains(f) && f@ == f@ && tukui_member(f, f.id@));
}

/// The anchor folder of a fingerprint match belongs to the folders
/// built for it: the add-on always carries its primary folder.
pub proof fn lemma_curse_primary_included(
    s: Seq<AddonFolder>,
    curse_id: u32,
    modules: Seq<CurseModule>,
)
    requires
        curse_primary_folder(s, curse_id, modules) is Some,
    ensures
        module_folder_views(s, modules).contains(curse_primary_folder(s, curse_id, modules)->0@),
{
    let f = curse_primary_folder(s, curse_id, modules)->0;
    lemma_curse_primary_in_list(s, curse_id, modules);
    lemma_module_folders_membership(s, modules, f@);
    assert(s.contains(f) && f@ == f@ && modules_name(modules, f.id@));
}

/// The folder scanner guarantees identifiers unique within one
/// discovery pass; the engine assumes it.
pub open spec fn distinct_folder_ids(s: Seq<AddonFolder>) -> bool {
    forall|i: int, j: int|
        #![trigger s[i], s[j]]
        0 <= i < j < s.len() ==> s[i].id@ != s[j].id@
}

/// Under unique identifiers, two folders of the list with the same
/// identifier are the same folder.
proof fn lemma_same_id_same_folder(s: Seq<AddonFolder>, f1: AddonFolder, f2: AddonFolder)
    requires
        distinct_folder_ids(s),
        s.contains(f1),
        s.contains(f2),
        f1.id@ == f2.id@,
    ensures
        f1 == f2,
{
    let i = choose|i: int| 0 <= i < s.len() && s[i] == f1;
    let j = choose|j: int| 0 <= j < s.len() && s[j] == f2;
    if i < j {
        assert(s[i].id@ != s[j].id@);
    } else if j < i {
        assert(s[j].id@ != s[i].id@);
    }
}

/// Among the folders built for a Tukui match, exactly one carries the
/// primary identifier: any built folder whose identifier equals it is
/// the anchor folder itself.
pub proof fn lemma_tukui_primary_unique(s: Seq<AddonFolder>, tukui_id: Seq<char>)
    requires
        distinct_folder_ids(s),
        first_tukui_folder(s, tukui_id) is Some,
    ensures
        forall|v: FolderView|
            #[trigger] tukui_folder_views(s, first_tukui_folder(s, tukui_id)->0.id@).contains(v)
                && v.id == first_tukui_folder(s, tukui_id)->0.id@ ==> v == first_tukui_folder(
                s,
                tukui_id,
            )->0@,
{
    let anchor = first_tukui_folder(s, tukui_id)->0;
    lemma_first_tukui_folder_in_list(s, tukui_id);
    assert forall|v: FolderView|
        #[trigger] tukui_folder_views(s, anchor.id@).contains(v) && v.id
            == anchor.id@ implies v == anchor@ by {
        lemma_tukui_folders_membership(s, anchor.id@, v);
        let f = choose|f: AddonFolder|
            #[trigger] s.contains(f) && f@ == v && tukui_member(f, anchor.id@);
        lemma_same_id_same_folder(s, f, anchor);
    }
}

/// Among the folders built for a fingerprint match, exactly one
/// carries the primary identifier: any built folder whose identifier
/// equals it is the anchor folder itself.
pub proof fn lemma_curse_primary_unique(
    s: Seq<AddonFolder>,
    curse_id: u32,
    modules: Seq<CurseModule>,
)
    requires
        distinct_folder_ids(s),
        curse_primary_folder(s, curse_id, modules) is Some,
    ensures
        forall|v: FolderView|
            #[trigger] module_folder_views(s, modules).contains(v) && v.id == curse_primary_folder(
                s,
                curse_id,
                modules,
            )->0.id@ ==> v == curse_primary_folder(s, curse_id, modules)->0@,
{
    let anchor = curse_primary_folder(s, curse_id, modules)->0;
    lemma_curse_primary_in_list(s, curse_id, modules);
    assert forall|v: FolderView|
        #[trigger] module_folder_views(s, modules).contains(v) && v.id
            == anchor.id@ implies v == anchor@ by {
        lemma_module_folders_membership(s, modules, v);
        let f = choose|f: AddonFolder|
            #[trigger] s.contains(f) && f@ == v && modules_name(modules, f.id@);
        lemma_same_id_same_folder(s, f, anchor);
    }
}

/// The folders built for a Tukui match are, as a set, exactly the
/// folders that are the primary folder or depend on it: a folder view
/// occurs among them exactly when some discovered folder with that
/// view is the anchor itself or names it as a dependency, whatever
/// order the folders were discovered in.
pub proof fn lemma_tukui_folders_membership(s: Seq<AddonFolder>, primary: Seq<char>, v: FolderView)
    ensures
        tukui_folder_views(s, primary).contains(v) <==> (exists|f: AddonFolder|
            #[trigger] s.contains(f) && f@ == v && tukui_member(f, primary)),
    decreases s.len(),
{
    broadcast use vstd::seq_lib::lemma_seq_concat_contains_all_elements;
    broadcast use vstd::seq_lib::lemma_seq_contains_after_push;

    if s.len() == 0 {
        assert(forall|f: AddonFolder| !s.contains(f));
    } else {
        let pre = s.drop_last();
        let last = s.last();
        lemma_tukui_folders_membership(pre, primary, v);
        assert(s =~= pre.push(last));
        if tukui_member(last, primary) {
            assert(seq![last@].contains(v) <==> v == last@) by {
                if v == last@ {
                    assert(seq![last@][0] == v);
                }
            }
            if tukui_folder_views(s, primary).contains(v) {
                if v == last@ {
                    assert(s.contains(last) && last@ == v && tukui_member(last, primary));
                } else {
                    let f = choose|f: AddonFolder|
                        #[trigger] pre.contains(f) && f@ == v && tukui_member(f, primary);
                    assert(s.contains(f) && f@ == v && tukui_member(f, primary));
                }
            }
            if exists|f: AddonFolder| #[trigger] s.contains(f) && f@ == v && tukui_member(
                f,
                primary,
            ) {
                let f = choose|f: AddonFolder|
                    #[trigger] s.contains(f) && f@ == v && tukui_member(f, primary);
                if f == last {
                    assert(seq![last@][0] == v);
                }
            }
        } else {
            assert(tukui_folder_views(s, primary) =~= tukui_folder_views(pre, primary));
            if exists|f: AddonFolder| #[trigger] s.contains(f) && f@ == v && tukui_member(
                f,
                primary,
            ) {
                let f = choose|f: AddonFolder|
                    #[trigger] s.contains(f) && f@ == v && tukui_member(f, primary);
                assert(f != last);
                assert(pre.contains(f));
            }
            if tukui_folder_views(s, primary).contains(v) {
                let f = choose|f: AddonFolder|
                    #[trigger] pre.contains(f) && f@ == v && tukui_member(f, primary);
                assert(s.contains(f));
            }
        }
    }
}

/// The folders built for a fingerprint match are, as a set, exactly
/// the discovered folders named in the matched file's module list: a
/// folder view occurs among them exactly when some discovered folder
/// with that view is named there, whatever order the folders were
/// discovered in.
pub proof fn lemma_module_folders_membership(
    s: Seq<AddonFolder>,
    modules: Seq<CurseModule>,
    v: FolderView,
)
    ensures
        module_folder_views(s, modules).contains(v) <==> (exists|f: AddonFolder|
            #[trigger] s.contains(f) && f@ == v && modules_name(modules, f.id@)),
    decreases s.len(),
{
    broadcast use vstd::seq_lib::lemma_seq_concat_contains_all_elements;
    broadcast use vstd::seq_lib::lemma_seq_contains_after_push;

    if s.len() == 0 {
        assert(forall|f: AddonFolder| !s.contains(f));
    } else {
        let pre = s.drop_last();
        let last = s.last();
        lemma_module_folders_membership(pre, modules, v);
        assert(s =~= pre.push(last));
        if modules_name(modules, last.id@) {
            assert(seq![last@].contains(v) <==> v == last@) by {
                if v == last@ {
                    assert(seq![last@][0] == v);
                }
            }
            if module_folder_views(s, modules).contains(v) {
                if v == last@ {
                    assert(s.contains(last) && last@ == v && modules_name(modules, last.id@));
                } else {
                    let f = choose|f: AddonFolder|
                        #[trigger] pre.contains(f) && f@ == v && modules_name(modules, f.id@);
                    assert(s.contains(f) && f@ == v && modules_name(modules, f.id@));
                }
            }
            if exists|f: AddonFolder| #[trigger] s.contains(f) && f@ == v && modules_name(
                modules,
                f.id@,
            ) {
                let f = choose|f: AddonFolder|
                    #[trigger] s.contains(f) && f@ == v && modules_name(modules, f.id@);
                if f == last {
                    assert(seq![last@][0] == v);
                }
            }
        } else {
            assert(module_folder_views(s, modules) =~= module_folder_views(pre, modules));
            if exists|f: AddonFolder| #[trigger] s.contains(f) && f@ == v && modules_name(
                modules,
                f.id@,
            ) {
                let f = choose|f: AddonFolder|
                    #[trigger] s.contains(f) && f@ == v && modules_name(modules, f.id@);
                assert(f != last);
                assert(pre.contains(f));
            }
            if module_folder_views(s, modules).contains(v) {
                let f = choose|f: AddonFolder|
                    #[trigger] pre.contains(f) && f@ == v && modules_name(modules, f.id@);
                assert(s.contains(f));
            }
        }
    }
}

/// Whether the folder declares the Tukui identifier.
fn folder_tukui_matches(f: &AddonFolder, tukui_id: &String) -> (r: bool)
    ensures
        r == folder_declares_tukui(*f, tukui_id@),
{
    match &f.repository_identifiers.tukui {
        Some(t) => *t == *tukui_id,
        None => false,
    }
}

/// Decides whether some string in `list` reads `id`.
fn vec_names_id(list: &Vec<String>, id: &String) -> (r: bool)
    ensures
        r == seq_names_id(list@, id@),
{
    let n = list.len();
    let mut i: usize = 0;
    proof {
        assert(list@.skip(0) =~= list@);
    }
    while i < n
        invariant
            n == list@.len(),
            i <= n,
            seq_names_id(list@, id@) == seq_names_id(list@.skip(i as int), id@),
        decreases n - i,
    {
        proof {
            let rest = list@.skip(i as int);
            assert(rest[0] == list@[i as int]);
            assert(rest.drop_first() =~= list@.skip(i + 1 as int));
        }
        if list[i] == *id {
            proof {
                assert(list@.skip(i as int)[0]@ == id@);
            }
            return true;
        }
        i = i + 1;
    }
    false
}

/// Whether the folder belongs to the add-on anchored at `primary`.
fn is_tukui_member(f: &AddonFolder, primary: &String) -> (r: bool)
    ensures
        r == tukui_member(*f, primary@),
{
    if f.id == *primary {
        true
    } else {
        vec_names_id(&f.dependencies, primary)
    }
}

/// Finds the first folder declaring the Tukui identifier.
fn find_tukui_primary_index(addon_folders: &Vec<AddonFolder>, tukui_id: &String) -> (idx: usize)
    requires
        first_tukui_folder(addon_folders@, tukui_id@) is Some,
    ensures
        idx < addon_folders@.len(),
        addon_folders@[idx as int] == first_tukui_folder(addon_folders@, tukui_id@)->0,
{
    let n = addon_folders.len();
    let mut i: usize = 0;
    proof {
        assert(addon_folders@.skip(0) =~= addon_folders@);
    }
    while i < n
        invariant
            n == addon_folders@.len(),
            i <= n,
            first_tukui_folder(addon_folders@, tukui_id@) == first_tukui_folder(
                addon_folders@.skip(i as int),
                tukui_id@,
            ),
        decreases n - i,
    {
        proof {
            let rest = addon_folders@.skip(i as int);
            assert(rest[0] == addon_folders@[i as int]);
            assert(rest.drop_first() =~= addon_folders@.skip(i + 1 as int));
        }
        if folder_tukui_matches(&addon_folders[i], tukui_id) {
            return i;
        }
        i = i + 1;
    }
    proof {
        assert(false);
    }
    0
}

/// Finds the folder to anchor a fingerprint match at: first a folder
/// that declares the identifier and is named in the module list, then
/// the first folder named in the module list.
fn find_curse_primary_index(
    addon_folders: &Vec<AddonFolder>,
    curse_id: u32,
    modules: &Vec<CurseModule>,
) -> (idx: usize)
    requires
        first_module_folder(addon_folders@, modules@) is Some,
    ensures
        idx < addon_folders@.len(),
        addon_folders@[idx as int] == curse_primary_folder(addon_folders@, curse_id, modules@)->0,
{
    let n = addon_folders.len();
    let mut i: usize = 0;
    proof {
        assert(addon_folders@.skip(0) =~= addon_folders@);
    }
    while i < n
        invariant
            n == addon_folders@.len(),
            i <= n,
            first_declared_module_folder(addon_folders@, curse_id, modules@)
                == first_declared_module_folder(
                addon_folders@.skip(i as int),
                curse_id,
                modules@,
            ),
        decreases n - i,
    {
        proof {
            let rest = addon_folders@.skip(i as int);
            assert(rest[0] == addon_folders@[i as int]);
            assert(rest.drop_first() =~= addon_folders@.skip(i + 1 as int));
        }
        let declared = match &addon_folders[i].repository_identifiers.curse {
            Some(c) => *c == curse_id,
            None => false,
        };
        if declared && modules_contain(modules, &addon_folders[i].id) {
            return i;
        }
        i = i + 1;
    }
    let mut j: usize = 0;
    proof {
        assert(addon_folders@.skip(0) =~= addon_folders@);
    }
    while j < n
        invariant
            n == addon_folders@.len(),
            j <= n,
            first_declared_module_folder(addon_folders@, curse_id, modules@) is None,
            first_module_folder(addon_folders@, modules@) is Some,
            first_module_folder(addon_folders@, modules@) == first_module_folder(
                addon_folders@.skip(j as int),
                modules@,
            ),
        decreases n - j,
    {
        proof {
            let rest = addon_folders@.skip(j as int);
            assert(rest[0] == addon_folders@[j as int]);
            assert(rest.drop_first() =~= addon_folders@.skip(j + 1 as int));
        }
        if modules_contain(modules, &addon_folders[j].id) {
            return j;
        }
        j = j + 1;
    }
    proof {
        assert(false);
    }
    0
}

impl Addon {
    /// Builds the add-on matched by a Tukui-style package response:
    /// the one release is filed under the Stable channel, the folder
    /// declaring the project identifier anchors the add-on, and every
    /// folder depending on that anchor belongs to it.
    pub fn from_tukui_package(
        tukui_id: String,
        addon_folders: &Vec<AddonFolder>,
        package: &TukuiPackage,
    ) -> (r: Addon)
        requires
            first_tukui_folder(addon_folders@, tukui_id@) is Some,
        ensures
            r.primary_folder_id@ == first_tukui_folder(addon_folders@, tukui_id@)->0.id@,
            folder_views(r.folders@) == tukui_folder_views(
                addon_folders@,
                first_tukui_folder(addon_folders@, tukui_id@)->0.id@,
            ),
            r.repository_metadata.remote_packages.stable == Some(
                (RemotePackage {
                    version: package.version,
                    download_url: package.url,
                    date_time: spec_fallback_epoch(package.lastupdate@),
                    file_id: None,
                }),
            ),
            r.repository_metadata.remote_packages.beta is None,
            r.repository_metadata.remote_packages.alpha is None,
            r.repository_metadata.website_url == Some(package.web_url),
            r.repository_metadata.game_version == package.patch,
            r.repository_metadata.version is None,
            r.repository_metadata.title is None,
            r.repository_metadata.author is None,
            r.repository_metadata.notes is None,
            r.repository_metadata.file_id is None,
            r.repository_identifiers.tukui == Some(tukui_id),
            r.repository_identifiers.wowi is None,
            r.repository_identifiers.curse is None,
            r.active_repository == Some(Repository::Tukui),
            r.release_channel == ReleaseChannel::Stable,
            r.state == AddonState::Unmanaged(None::<String>),
    {
        let date_time = parse_update_timestamp(package.lastupdate.as_str());
        let stable_package = RemotePackage {
            version: package.version.clone(),
            download_url: package.url.clone(),
            date_time,
            file_id: None,
        };
        let idx = find_tukui_primary_index(addon_folders, &tukui_id);
        let mut addon = Addon::empty(addon_folders[idx].id.as_str());
        addon.active_repository = Some(Repository::Tukui);
        addon.repository_identifiers.tukui = Some(tukui_id);
        addon.repository_metadata = RepositoryMetadata {
            version: None,
            title: None,
            author: None,
            notes: None,
            website_url: Some(package.web_url.clone()),
            game_version: clone_opt_string(&package.patch),
            file_id: None,
            remote_packages: RemotePackages { stable: Some(stable_package), beta: None, alpha: None },
        };
        let n = addon_folders.len();
        let mut folders: Vec<AddonFolder> = Vec::new();
        let mut i: usize = 0;
        while i < n
            invariant
                n == addon_folders@.len(),
                i <= n,
                folder_views(folders@) == tukui_folder_views(
                    addon_folders@.take(i as int),
                    addon.primary_folder_id@,
                ),
            decreases n - i,
        {
            let ghost pre = folders@;
            if is_tukui_member(&addon_folders[i], &addon.primary_folder_id) {
                folders.push(addon_folders[i].clone());
                proof {
                    assert(folder_views(folders@) =~= folder_views(pre).push(
                        addon_folders@[i as int]@,
                    ));
                }
            }
            proof {
                let cur = addon_folders@.take(i + 1 as int);
                assert(cur.drop_last() =~= addon_folders@.take(i as int));
                assert(cur.last() == addon_folders@[i as int]);
                assert(folder_views(pre).push(addon_folders@[i as int]@) =~= folder_views(pre)
                    + seq![addon_folders@[i as int]@]);
            }
            i = i + 1;
        }
        proof {
            assert(addon_folders@.take(n as int) =~= addon_folders@);
        }
        addon.folders = folders;
        addon
    }

    /// Builds the add-on matched by a fingerprint-match response: each
    /// qualifying candidate file is filed under the channel its
    /// release-type code names, the authoritative matched file fills
    /// the repository overrides, and the folders named in its module
    /// list become the add-on's folders.
    pub fn from_curse_fingerprint_info(
        curse_id: u32,
        info: &AddonFingerprintInfo,
        flavor: Flavor,
        addon_folders: &Vec<AddonFolder>,
    ) -> (r: Addon)
        requires
            first_module_folder(addon_folders@, info.file.modules@) is Some,
        ensures
            r.primary_folder_id@ == curse_primary_folder(
                addon_folders@,
                curse_id,
                info.file.modules@,
            )->0.id@,
            folder_views(r.folders@) == module_folder_views(addon_folders@, info.file.modules@),
            r.repository_metadata.remote_packages.stable == channel_package(
                info.latest_files@,
                flavor.spec_tag(),
                1,
            ),
            r.repository_metadata.remote_packages.beta == channel_package(
                info.latest_files@,
                flavor.spec_tag(),
                2,
            ),
            r.repository_metadata.remote_packages.alpha == channel_package(
                info.latest_files@,
                flavor.spec_tag(),
                3,
            ),
            r.repository_metadata.version == Some(info.file.display_name),
            r.repository_metadata.file_id == Some(info.file.id),
            info.file.game_version@.len() > 0 ==> r.repository_metadata.game_version == Some(
                info.file.game_version@[0],
            ),
            info.file.game_version@.len() == 0 ==> r.repository_metadata.game_version is None,
            r.repository_metadata.title is None,
            r.repository_metadata.author is None,
            r.repository_metadata.notes is None,
            r.repository_metadata.website_url is None,
            r.repository_identifiers.curse == Some(curse_id),
            r.repository_identifiers.tukui is None,
            r.repository_identifiers.wowi is None,
            r.active_repository == Some(Repository::Curse),
            r.release_channel == ReleaseChannel::Stable,
            r.state == AddonState::Unmanaged(None::<String>),
    {
        let tag = String::from_str(flavor.tag());
        let mut packages = RemotePackages::empty();
        let file_count = info.latest_files.len();
        let mut i: usize = 0;
        proof {
            assert(info.latest_files@.take(0) =~= Seq::<CurseFile>::empty());
        }
        while i < file_count
            invariant
                file_count == info.latest_files@.len(),
                i <= file_count,
                tag@ == flavor.spec_tag(),
                packages.stable == channel_package(
                    info.latest_files@.take(i as int),
                    flavor.spec_tag(),
                    1,
                ),
                packages.beta == channel_package(
                    info.latest_files@.take(i as int),
                    flavor.spec_tag(),
                    2,
                ),
                packages.alpha == channel_package(
                    info.latest_files@.take(i as int),
                    flavor.spec_tag(),
                    3,
                ),
            decreases file_count - i,
        {
            let file = &info.latest_files[i];
            let flavor_ok = match &file.game_version_flavor {
                Some(t) => *t == tag,
                None => false,
            };
            if !file.is_alternate && flavor_ok {
                let package = RemotePackage {
                    version: file.display_name.clone(),
                    download_url: file.download_url.clone(),
                    date_time: parse_rfc3339_epoch(file.file_date.as_str()),
                    file_id: Some(file.id),
                };
                proof {
                    assert(package == package_of_file(info.latest_files@[i as int]));
                    assert(file_qualifies(info.latest_files@[i as int], flavor.spec_tag()));
                }
                if file.release_type == 1 {
                    packages.stable = Some(package);
                } else if file.release_type == 2 {
                    packages.beta = Some(package);
                } else if file.release_type == 3 {
                    packages.alpha = Some(package);
                }
            } else {
                proof {
                    assert(!file_qualifies(info.latest_files@[i as int], flavor.spec_tag()));
                }
            }
            proof {
                let cur = info.latest_files@.take(i + 1 as int);
                assert(cur.drop_last() =~= info.latest_files@.take(i as int));
                assert(cur.last() == info.latest_files@[i as int]);
            }
            i = i + 1;
        }
        proof {
            assert(info.latest_files@.take(file_count as int) =~= info.latest_files@);
        }
        let game_version = if info.file.game_version.len() > 0 {
            Some(info.file.game_version[0].clone())
        } else {
            None
        };
        let idx = find_curse_primary_index(addon_folders, curse_id, &info.file.modules);
        let mut addon = Addon::empty(addon_folders[idx].id.as_str());
        addon.active_repository = Some(Repository::Curse);
        addon.repository_identifiers.curse = Some(curse_id);
        addon.repository_metadata = RepositoryMetadata {
            version: Some(info.file.display_name.clone()),
            title: None,
            author: None,
            notes: None,
            website_url: None,
            game_version,
            file_id: Some(info.file.id),
            remote_packages: packages,
        };
        let n = addon_folders.len();
        let mut folders: Vec<AddonFolder> = Vec::new();
        let mut j: usize = 0;
        while j < n
            invariant
                n == addon_folders@.len(),
                j <= n,
                folder_views(folders@) == module_folder_views(
                    addon_folders@.take(j as int),
                    info.file.modules@,
                ),
            decreases n - j,
        {
            let ghost pre = folders@;
            if modules_contain(&info.file.modules, &addon_folders[j].id) {
                folders.push(addon_folders[j].clone());
                proof {
                    assert(folder_views(folders@) =~= folder_views(pre).push(
                        addon_folders@[j as int]@,
                    ));
                }
            }
            proof {
                let cur = addon_folders@.take(j + 1 as int);
                assert(cur.drop_last() =~= addon_folders@.take(j as int));
                assert(cur.last() == addon_folders@[j as int]);
                assert(folder_views(pre).push(addon_folders@[j as int]@) =~= folder_views(pre)
                    + seq![addon_folders@[j as int]@]);
            }
            j = j + 1;
        }
        proof {
            assert(addon_folders@.take(n as int) =~= addon_folders@);
        }
        addon.folders = folders;
        addon
    }
}

} // verus!
