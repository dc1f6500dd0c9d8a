//! The add-on data model: the metadata of one discovered folder, the
//! metadata one repository reports, and the logical add-on built from
//! them, with accessors whose fallback rule is: a value the repository
//! supplied wins; otherwise the primary folder's value is used.

use core::cmp::Ordering;
use vstd::prelude::*;
use vstd::string::StringExecFns;

use crate::strings::{
    cmp_str, contains_chars, is_substring, lex_cmp, digits_of, reverse_ord, reverse_ordering,
    strip_non_digits,
};

verus! {

/// One release artifact a repository offers: its version text, where to
/// download it, when it was published (Unix seconds, where known) and
/// the repository-assigned file identifier (where the repository has
/// one; it grows with newer uploads and is the authoritative freshness
/// signal).
pub struct RemotePackage {
    pub version: String,
    pub download_url: String,
    pub date_time: Option<i64>,
    pub file_id: Option<i64>,
}

impl Clone for RemotePackage {
    fn clone(&self) -> (r: Self)
        ensures
            r == *self,
    {
        RemotePackage {
            version: self.version.clone(),
            download_url: self.download_url.clone(),
            date_time: self.date_time,
            file_id: self.file_id,
        }
    }
}

/// The stability tier under which a repository publishes a package.
#[derive(Clone, Copy, Debug, PartialEq, Eq, Structural)]
pub enum ReleaseChannel {
    Stable,
    Beta,
    Alpha,
}

impl ReleaseChannel {
    /// The channel's display name.
    pub fn name(&self) -> (r: &'static str)
        ensures
            r@ == self.spec_name(),
    {
        match self {
            ReleaseChannel::Stable => "Stable",
            ReleaseChannel::Beta => "Beta",
            ReleaseChannel::Alpha => "Alpha",
        }
    }

    /// The channel's display name, as a character sequence.
    pub open spec fn spec_name(self) -> Seq<char> {
        match self {
            ReleaseChannel::Stable => "Stable"@,
            ReleaseChannel::Beta => "Beta"@,
            ReleaseChannel::Alpha => "Alpha"@,
        }
    }
}

impl Default for ReleaseChannel {
    /// The default channel is Stable.
    fn default() -> (r: ReleaseChannel)
        ensures
            r == ReleaseChannel::Stable,
    {
        ReleaseChannel::Stable
    }
}

/// The lifecycle state a logical add-on is displayed in.
#[derive(Debug)]
pub enum AddonState {
    Ignored,
    Unmanaged(Option<String>),
    Downloading,
    Fingerprint,
    Unpacking,
    Updatable,
}

impl Clone for AddonState {
    fn clone(&self) -> (r: Self)
        ensures
            r == *self,
    {
        match self {
            AddonState::Ignored => AddonState::Ignored,
            AddonState::Unmanaged(reason) => AddonState::Unmanaged(clone_opt_string(reason)),
            AddonState::Downloading => AddonState::Downloading,
            AddonState::Fingerprint => AddonState::Fingerprint,
            AddonState::Unpacking => AddonState::Unpacking,
            AddonState::Updatable => AddonState::Updatable,
        }
    }
}

/// The identifiers a folder or add-on declares towards each supported
/// repository: one repository keys add-ons by a string id, one by a
/// numeric id, one by another string id.
pub struct RepositoryIdentifiers {
    pub wowi: Option<String>,
    pub tukui: Option<String>,
    pub curse: Option<u32>,
}

impl Clone for RepositoryIdentifiers {
    fn clone(&self) -> (r: Self)
        ensures
            r == *self,
    {
        RepositoryIdentifiers {
            wowi: clone_opt_string(&self.wowi),
            tukui: clone_opt_string(&self.tukui),
            curse: self.curse,
        }
    }
}

impl Default for RepositoryIdentifiers {
    /// No identifier is declared towards any repository.
    fn default() -> (r: RepositoryIdentifiers)
        ensures
            r.wowi is None,
            r.tukui is None,
            r.curse is None,
    {
        RepositoryIdentifiers { wowi: None, tukui: None, curse: None }
    }
}

/// The remote repositories an add-on can be linked against.
#[derive(Clone, Copy, Debug, PartialEq, Eq, Structural)]
pub enum Repository {
    WowI,
    Tukui,
    Curse,
}

/// Clones an optional string; the clone is the same value.
pub fn clone_opt_string(o: &Option<String>) -> (r: Option<String>)
    ensures
        r == *o,
{
    match o {
        Some(s) => Some(s.clone()),
        None => None,
    }
}

/// Clones a vector of strings element by element.
pub fn clone_vec_string(v: &Vec<String>) -> (r: Vec<String>)
    ensures
        r@ == v@,
{
    let mut out: Vec<String> = Vec::new();
    let mut i: usize = 0;
    while i < v.len()
        invariant
            i <= v@.len(),
            out@ == v@.subrange(0, i as int),
        decreases v@.len() - i,
    {
        out.push(v[i].clone());
        proof {
            assert(out@ =~= v@.subrange(0, i + 1 as int));
        }
        i = i + 1;
    }
    proof {
        assert(v@.subrange(0, v@.len() as int) =~= v@);
    }
    out
}

/// The metadata parsed out of one discovered add-on directory. Its
/// identifier is the directory's name, unique within one install root.
pub struct AddonFolder {
    pub id: String,
    pub title: String,
    pub path: String,
    pub author: Option<String>,
    pub notes: Option<String>,
    pub version: Option<String>,
    pub repository_identifiers: RepositoryIdentifiers,
    pub dependencies: Vec<String>,
    pub fingerprint: Option<u32>,
}

/// What one folder's metadata says, with every text as its character
/// sequence: the abstract value contracts speak of.
pub ghost struct FolderView {
    pub id: Seq<char>,
    pub title: Seq<char>,
    pub path: Seq<char>,
    pub author: Option<Seq<char>>,
    pub notes: Option<Seq<char>>,
    pub version: Option<Seq<char>>,
    pub wowi: Option<Seq<char>>,
    pub tukui: Option<Seq<char>>,
    pub curse: Option<u32>,
    pub dependencies: Seq<Seq<char>>,
    pub fingerprint: Option<u32>,
}

/// The character sequences of an optional string.
pub open spec fn view_opt(o: Option<String>) -> Option<Seq<char>> {
    match o {
        Some(s) => Some(s@),
        None => None,
    }
}

impl View for AddonFolder {
    type V = FolderView;

    open spec fn view(&self) -> FolderView {
        FolderView {
            id: self.id@,
            title: self.title@,
            path: self.path@,
            author: view_opt(self.author),
            notes: view_opt(self.notes),
            version: view_opt(self.version),
            wowi: view_opt(self.repository_identifiers.wowi),
            tukui: view_opt(self.repository_identifiers.tukui),
            curse: self.repository_identifiers.curse,
            dependencies: Seq::new(self.dependencies@.len(), |i: int| self.dependencies@[i]@),
            fingerprint: self.fingerprint,
        }
    }
}

/// The views of a sequence of folders.
pub open spec fn folder_views(s: Seq<AddonFolder>) -> Seq<FolderView> {
    s.map_values(|f: AddonFolder| f@)
}

impl Clone for AddonFolder {
    fn clone(&self) -> (r: Self)
        ensures
            r@ == self@,
            r.id == self.id,
            r.title == self.title,
            r.path == self.path,
            r.author == self.author,
            r.notes == self.notes,
            r.version == self.version,
            r.repository_identifiers == self.repository_identifiers,
            r.dependencies@ == self.dependencies@,
            r.fingerprint == self.fingerprint,
    {
        AddonFolder {
            id: self.id.clone(),
            title: self.title.clone(),
            path: self.path.clone(),
            author: clone_opt_string(&self.author),
            notes: clone_opt_string(&self.notes),
            version: clone_opt_string(&self.version),
            repository_identifiers: self.repository_identifiers.clone(),
            dependencies: clone_vec_string(&self.dependencies),
            fingerprint: self.fingerprint,
        }
    }
}

impl AddonFolder {
    /// Packs the metadata read for one directory; the content
    /// fingerprint starts unset and is filled in by a later step.
    pub fn new(
        id: String,
        title: String,
        path: String,
        author: Option<String>,
        notes: Option<String>,
        version: Option<String>,
        repository_identifiers: RepositoryIdentifiers,
        dependencies: Vec<String>,
    ) -> (r: Self)
        ensures
            r.id == id,
            r.title == title,
            r.path == path,
            r.author == author,
            r.notes == notes,
            r.version == version,
            r.repository_identifiers == repository_identifiers,
            r.dependencies == dependencies,
            r.fingerprint is None,
    {
        AddonFolder {
            id,
            title,
            path,
            author,
            notes,
            version,
            repository_identifiers,
            dependencies,
            fingerprint: None,
        }
    }
}

/// One package per release channel, at most: what one repository
/// currently offers.
pub struct RemotePackages {
    pub stable: Option<RemotePackage>,
    pub beta: Option<RemotePackage>,
    pub alpha: Option<RemotePackage>,
}

impl Clone for RemotePackages {
    fn clone(&self) -> (r: Self)
        ensures
            r == *self,
    {
        RemotePackages {
            stable: clone_opt_package(&self.stable),
            beta: clone_opt_package(&self.beta),
            alpha: clone_opt_package(&self.alpha),
        }
    }
}

/// Clones an optional package; the clone is the same value.
pub fn clone_opt_package(o: &Option<RemotePackage>) -> (r: Option<RemotePackage>)
    ensures
        r == *o,
{
    match o {
        Some(p) => Some(p.clone()),
        None => None,
    }
}

impl RemotePackages {
    /// No channel has a package.
    pub fn empty() -> (r: Self)
        ensures
            r.stable is None,
            r.beta is None,
            r.alpha is None,
    {
        RemotePackages { stable: None, beta: None, alpha: None }
    }

    /// The package filed under `channel`.
    pub open spec fn spec_get(self, channel: ReleaseChannel) -> Option<RemotePackage> {
        match channel {
            ReleaseChannel::Stable => self.stable,
            ReleaseChannel::Beta => self.beta,
            ReleaseChannel::Alpha => self.alpha,
        }
    }

    /// Looks up the package filed under `channel`.
    pub fn get(&self, channel: ReleaseChannel) -> (r: Option<&RemotePackage>)
        ensures
            (match r {
                Some(p) => self.spec_get(channel) == Some(*p),
                None => self.spec_get(channel) is None,
            }),
    {
        match channel {
            ReleaseChannel::Stable => self.stable.as_ref(),
            ReleaseChannel::Beta => self.beta.as_ref(),
            ReleaseChannel::Alpha => self.alpha.as_ref(),
        }
    }

    /// Files `package` under `channel`, replacing what was there.
    pub fn set(&mut self, channel: ReleaseChannel, package: RemotePackage)
        ensures
            final(self).spec_get(channel) == Some(package),
            forall|c: ReleaseChannel| c != channel ==> final(self).spec_get(c) == old(
                self,
            ).spec_get(c),
    {
        match channel {
            ReleaseChannel::Stable => self.stable = Some(package),
            ReleaseChannel::Beta => self.beta = Some(package),
            ReleaseChannel::Alpha => self.alpha = Some(package),
        }
    }
}

/// What one repository reports about a logical add-on. The first four
/// fields override the primary folder's values where the repository
/// supplies them; the rest have no local counterpart.
pub struct RepositoryMetadata {
    pub version: Option<String>,
    pub title: Option<String>,
    pub author: Option<String>,
    pub notes: Option<String>,
    pub website_url: Option<String>,
    pub game_version: Option<String>,
    pub file_id: Option<i64>,
    pub remote_packages: RemotePackages,
}

impl Clone for RepositoryMetadata {
    fn clone(&self) -> (r: Self)
        ensures
            r == *self,
    {
        RepositoryMetadata {
            version: clone_opt_string(&self.version),
            title: clone_opt_string(&self.title),
            author: clone_opt_string(&self.author),
            notes: clone_opt_string(&self.notes),
            website_url: clone_opt_string(&self.website_url),
            game_version: clone_opt_string(&self.game_version),
            file_id: self.file_id,
            remote_packages: self.remote_packages.clone(),
        }
    }
}

impl RepositoryMetadata {
    /// Metadata with nothing reported: every field falls back.
    pub fn empty() -> (r: Self)
        ensures
            r.version is None,
            r.title is None,
            r.author is None,
            r.notes is None,
            r.website_url is None,
            r.game_version is None,
            r.file_id is None,
            r.remote_packages.stable is None,
            r.remote_packages.beta is None,
            r.remote_packages.alpha is None,
    {
        RepositoryMetadata {
            version: None,
            title: None,
            author: None,
            notes: None,
            website_url: None,
            game_version: None,
            file_id: None,
            remote_packages: RemotePackages::empty(),
        }
    }
}

/// One logical add-on: the folder chosen as its identity anchor, every
/// folder belonging to it, its lifecycle state, the channel the user
/// selected, the identifiers confirmed by repository matches, which
/// repository is authoritative, and what that repository reported.
pub struct Addon {
    pub primary_folder_id: String,
    pub folders: Vec<AddonFolder>,
    pub state: AddonState,
    pub release_channel: ReleaseChannel,
    pub repository_identifiers: RepositoryIdentifiers,
    pub active_repository: Option<Repository>,
    pub repository_metadata: RepositoryMetadata,
}

/// The character for one decimal digit value.
pub open spec fn digit_char(d: int) -> char {
    if d == 0 {
        '0'
    } else if d == 1 {
        '1'
    } else if d == 2 {
        '2'
    } else if d == 3 {
        '3'
    } else if d == 4 {
        '4'
    } else if d == 5 {
        '5'
    } else if d == 6 {
        '6'
    } else if d == 7 {
        '7'
    } else if d == 8 {
        '8'
    } else {
        '9'
    }
}

/// The decimal digit characters of `n`, most significant first, no
/// leading zeros.
pub open spec fn dec_digits(n: nat) -> Seq<char>
    decreases n,
{
    if n < 10 {
        seq![digit_char(n as int)]
    } else {
        dec_digits(n / 10) + seq![digit_char((n % 10) as int)]
    }
}

/// Relies on `u32`'s `Display` implementation: the decimal digits of
/// the value, most significant first, without leading zeros.
#[verifier::external_body]
fn u32_to_string(v: u32) -> (r: String)
    ensures
        r@ == dec_digits(v as nat),
{
    v.to_string()
}

/// Some string in `list` reads `id`.
pub open spec fn seq_names_id(list: Seq<String>, id: Seq<char>) -> bool
    decreases list.len(),
{
    if list.len() == 0 {
        false
    } else {
        list[0]@ == id || seq_names_id(list.drop_first(), id)
    }
}

/// The first folder in `s` whose identifier reads `id`.
pub open spec fn first_folder_with_id(s: Seq<AddonFolder>, id: Seq<char>) -> Option<AddonFolder>
    decreases s.len(),
{
    if s.len() == 0 {
        None
    } else if s[0].id@ == id {
        Some(s[0])
    } else {
        first_folder_with_id(s.drop_first(), id)
    }
}

impl Addon {
    /// An add-on known only by its primary folder identifier: no
    /// folders attached yet, no repository matched, default channel.
    pub fn empty(primary_folder_id: &str) -> (r: Self)
        ensures
            r.primary_folder_id@ == primary_folder_id@,
            r.folders@.len() == 0,
            r.state == AddonState::Unmanaged(None::<String>),
            r.release_channel == ReleaseChannel::Stable,
            r.repository_identifiers.wowi is None,
            r.repository_identifiers.tukui is None,
            r.repository_identifiers.curse is None,
            r.active_repository is None,
            r.repository_metadata.version is None,
            r.repository_metadata.title is None,
            r.repository_metadata.author is None,
            r.repository_metadata.notes is None,
            r.repository_metadata.website_url is None,
            r.repository_metadata.game_version is None,
            r.repository_metadata.file_id is None,
            r.repository_metadata.remote_packages.stable is None,
            r.repository_metadata.remote_packages.beta is None,
            r.repository_metadata.remote_packages.alpha is None,
    {
        Addon {
            primary_folder_id: String::from_str(primary_folder_id),
            folders: Vec::new(),
            state: AddonState::Unmanaged(None),
            release_channel: ReleaseChannel::Stable,
            repository_identifiers: RepositoryIdentifiers {
                wowi: None,
                tukui: None,
                curse: None,
            },
            active_repository: None,
            repository_metadata: RepositoryMetadata::empty(),
        }
    }

    /// The first folder whose identifier equals the primary folder
    /// identifier, where one is attached.
    pub open spec fn spec_primary_folder(self) -> Option<AddonFolder> {
        first_folder_with_id(self.folders@, self.primary_folder_id@)
    }

    /// Finds the primary folder among the attached folders.
    fn primary_addon_folder(&self) -> (r: Option<&AddonFolder>)
        ensures
            (match r {
                Some(f) => self.spec_primary_folder() == Some(*f),
                None => self.spec_primary_folder() is None,
            }),
    {
        let n = self.folders.len();
        let mut i: usize = 0;
        proof {
            assert(self.folders@.skip(0) =~= self.folders@);
        }
        while i < n
            invariant
                n == self.folders@.len(),
                i <= n,
                first_folder_with_id(self.folders@, self.primary_folder_id@)
                    == first_folder_with_id(
                    self.folders@.skip(i as int),
                    self.primary_folder_id@,
                ),
            decreases n - i,
        {
            proof {
                let rest = self.folders@.skip(i as int);
                assert(rest[0] == self.folders@[i as int]);
                assert(rest.drop_first() =~= self.folders@.skip(i + 1 as int));
            }
            if self.folders[i].id == self.primary_folder_id {
                return Some(&self.folders[i]);
            }
            i = i + 1;
        }
        None
    }

    /// The version shown for the add-on: the repository's, else the
    /// primary folder's, else unknown.
    pub open spec fn spec_version(self) -> Option<Seq<char>> {
        match self.repository_metadata.version {
            Some(v) => Some(v@),
            None => match self.spec_primary_folder() {
                Some(f) => view_opt(f.version),
                None => None,
            },
        }
    }

    /// Returns the version of the add-on.
    pub fn version(&self) -> (r: Option<&str>)
        ensures
            (match r {
                Some(v) => self.spec_version() == Some(v@),
                None => self.spec_version() is None,
            }),
    {
        match &self.repository_metadata.version {
            Some(v) => Some(v.as_str()),
            None => match self.primary_addon_folder() {
                Some(f) => match &f.version {
                    Some(v) => Some(v.as_str()),
                    None => None,
                },
                None => None,
            },
        }
    }

    /// Overrides the add-on's version.
    pub fn set_version(&mut self, version: String)
        ensures
            final(self).repository_metadata.version == Some(version),
            final(self).repository_metadata.title == old(self).repository_metadata.title,
            final(self).repository_metadata.author == old(self).repository_metadata.author,
            final(self).repository_metadata.notes == old(self).repository_metadata.notes,
            final(self).repository_metadata.website_url == old(
                self,
            ).repository_metadata.website_url,
            final(self).repository_metadata.game_version == old(
                self,
            ).repository_metadata.game_version,
            final(self).repository_metadata.file_id == old(self).repository_metadata.file_id,
            final(self).repository_metadata.remote_packages == old(
                self,
            ).repository_metadata.remote_packages,
            final(self).primary_folder_id == old(self).primary_folder_id,
            final(self).folders == old(self).folders,
            final(self).state == old(self).state,
            final(self).release_channel == old(self).release_channel,
            final(self).repository_identifiers == old(self).repository_identifiers,
            final(self).active_repository == old(self).active_repository,
    {
        self.repository_metadata.version = Some(version);
    }

    /// The title shown for the add-on: the repository's, else the
    /// primary folder's, else the primary folder identifier itself.
    pub open spec fn spec_title(self) -> Seq<char> {
        match self.repository_metadata.title {
            Some(t) => t@,
            None => match self.spec_primary_folder() {
                Some(f) => f.title@,
                None => self.primary_folder_id@,
            },
        }
    }

    /// Returns the title of the add-on.
    pub fn title(&self) -> (r: &str)
        ensures
            r@ == self.spec_title(),
    {
        match &self.repository_metadata.title {
            Some(t) => t.as_str(),
            None => match self.primary_addon_folder() {
                Some(f) => f.title.as_str(),
                None => self.primary_folder_id.as_str(),
            },
        }
    }

    /// The author shown for the add-on: the repository's, else the
    /// primary folder's.
    pub open spec fn spec_author(self) -> Option<Seq<char>> {
        match self.repository_metadata.author {
            Some(a) => Some(a@),
            None => match self.spec_primary_folder() {
                Some(f) => view_opt(f.author),
                None => None,
            },
        }
    }

    /// Returns the author of the add-on.
    pub fn author(&self) -> (r: Option<&str>)
        ensures
            (match r {
                Some(a) => self.spec_author() == Some(a@),
                None => self.spec_author() is None,
            }),
    {
        match &self.repository_metadata.author {
            Some(a) => Some(a.as_str()),
            None => match self.primary_addon_folder() {
                Some(f) => match &f.author {
                    Some(a) => Some(a.as_str()),
                    None => None,
                },
                None => None,
            },
        }
    }

    /// Returns the game version the repository targets; folders carry
    /// no counterpart, so an add-on without repository data has none.
    pub fn game_version(&self) -> (r: Option<&str>)
        ensures
            (match r {
                Some(v) => view_opt(self.repository_metadata.game_version) == Some(v@),
                None => self.repository_metadata.game_version is None,
            }),
    {
        match &self.repository_metadata.game_version {
            Some(v) => Some(v.as_str()),
            None => None,
        }
    }

    /// Returns the notes the repository supplied.
    pub fn notes(&self) -> (r: Option<&str>)
        ensures
            (match r {
                Some(v) => view_opt(self.repository_metadata.notes) == Some(v@),
                None => self.repository_metadata.notes is None,
            }),
    {
        match &self.repository_metadata.notes {
            Some(v) => Some(v.as_str()),
            None => None,
        }
    }

    /// Returns the website address the repository supplied.
    pub fn website_url(&self) -> (r: Option<&str>)
        ensures
            (match r {
                Some(v) => view_opt(self.repository_metadata.website_url) == Some(v@),
                None => self.repository_metadata.website_url is None,
            }),
    {
        match &self.repository_metadata.website_url {
            Some(v) => Some(v.as_str()),
            None => None,
        }
    }

    /// The numeric repository identifier: a confirmed match wins over
    /// what the primary folder declares.
    pub open spec fn spec_curse_id(self) -> Option<u32> {
        match self.repository_identifiers.curse {
            Some(i) => Some(i),
            None => match self.spec_primary_folder() {
                Some(f) => f.repository_identifiers.curse,
                None => None,
            },
        }
    }

    /// Returns the numeric repository identifier, if any.
    pub fn curse_id(&self) -> (r: Option<u32>)
        ensures
            r == self.spec_curse_id(),
    {
        match self.repository_identifiers.curse {
            Some(i) => Some(i),
            None => match self.primary_addon_folder() {
                Some(f) => f.repository_identifiers.curse,
                None => None,
            },
        }
    }

    /// The Tukui identifier: a confirmed match wins over what the
    /// primary folder declares.
    pub open spec fn spec_tukui_id(self) -> Option<Seq<char>> {
        match self.repository_identifiers.tukui {
            Some(i) => Some(i@),
            None => match self.spec_primary_folder() {
                Some(f) => view_opt(f.repository_identifiers.tukui),
                None => None,
            },
        }
    }

    /// Returns the Tukui identifier, if any.
    pub fn tukui_id(&self) -> (r: Option<&str>)
        ensures
            (match r {
                Some(i) => self.spec_tukui_id() == Some(i@),
                None => self.spec_tukui_id() is None,
            }),
    {
        match &self.repository_identifiers.tukui {
            Some(i) => Some(i.as_str()),
            None => match self.primary_addon_folder() {
                Some(f) => match &f.repository_identifiers.tukui {
                    Some(i) => Some(i.as_str()),
                    None => None,
                },
                None => None,
            },
        }
    }

    /// The WowInterface identifier: a confirmed match wins over what
    /// the primary folder declares.
    pub open spec fn spec_wowi_id(self) -> Option<Seq<char>> {
        match self.repository_identifiers.wowi {
            Some(i) => Some(i@),
            None => match self.spec_primary_folder() {
                Some(f) => view_opt(f.repository_identifiers.wowi),
                None => None,
            },
        }
    }

    /// Returns the WowInterface identifier, if any.
    pub fn wowi_id(&self) -> (r: Option<&str>)
        ensures
            (match r {
                Some(i) => self.spec_wowi_id() == Some(i@),
                None => self.spec_wowi_id() is None,
            }),
    {
        match &self.repository_identifiers.wowi {
            Some(i) => Some(i.as_str()),
            None => match self.primary_addon_folder() {
                Some(f) => match &f.repository_identifiers.wowi {
                    Some(i) => Some(i.as_str()),
                    None => None,
                },
                None => None,
            },
        }
    }

    /// Confirms the numeric repository identifier.
    pub fn set_curse_id(&mut self, curse_id: u32)
        ensures
            final(self).repository_identifiers.curse == Some(curse_id),
            final(self).repository_identifiers.tukui == old(self).repository_identifiers.tukui,
            final(self).repository_identifiers.wowi == old(self).repository_identifiers.wowi,
            final(self).primary_folder_id == old(self).primary_folder_id,
            final(self).folders == old(self).folders,
            final(self).state == old(self).state,
            final(self).release_channel == old(self).release_channel,
            final(self).active_repository == old(self).active_repository,
            final(self).repository_metadata == old(self).repository_metadata,
    {
        self.repository_identifiers.curse = Some(curse_id);
    }

    /// Confirms the Tukui identifier.
    pub fn set_tukui_id(&mut self, tukui_id: String)
        ensures
            final(self).repository_identifiers.tukui == Some(tukui_id),
            final(self).repository_identifiers.curse == old(self).repository_identifiers.curse,
            final(self).repository_identifiers.wowi == old(self).repository_identifiers.wowi,
            final(self).primary_folder_id == old(self).primary_folder_id,
            final(self).folders == old(self).folders,
            final(self).state == old(self).state,
            final(self).release_channel == old(self).release_channel,
            final(self).active_repository == old(self).active_repository,
            final(self).repository_metadata == old(self).repository_metadata,
    {
        self.repository_identifiers.tukui = Some(tukui_id);
    }

    /// Confirms the WowInterface identifier.
    pub fn set_wowi_id(&mut self, wowi_id: String)
        ensures
            final(self).repository_identifiers.wowi == Some(wowi_id),
            final(self).repository_identifiers.curse == old(self).repository_identifiers.curse,
            final(self).repository_identifiers.tukui == old(self).repository_identifiers.tukui,
            final(self).primary_folder_id == old(self).primary_folder_id,
            final(self).folders == old(self).folders,
            final(self).state == old(self).state,
            final(self).release_channel == old(self).release_channel,
            final(self).active_repository == old(self).active_repository,
            final(self).repository_metadata == old(self).repository_metadata,
    {
        self.repository_identifiers.wowi = Some(wowi_id);
    }

    /// Returns the packages the repository offers, by channel.
    pub fn remote_packages(&self) -> (r: &RemotePackages)
        ensures
            *r == self.repository_metadata.remote_packages,
    {
        &self.repository_metadata.remote_packages
    }

    /// Returns the authoritative file identifier the repository
    /// reported for the installed release.
    pub fn file_id(&self) -> (r: Option<i64>)
        ensures
            r == self.repository_metadata.file_id,
    {
        self.repository_metadata.file_id
    }

    /// Whether the caller's ignore list names this add-on.
    pub open spec fn spec_is_ignored(self, ignored: Option<Seq<String>>) -> bool {
        match ignored {
            Some(list) => seq_names_id(list, self.primary_folder_id@),
            None => false,
        }
    }

    /// Returns whether the user has manually ignored the add-on.
    pub fn is_ignored(&self, ignored: Option<&Vec<String>>) -> (r: bool)
        ensures
            r == self.spec_is_ignored(
                (match ignored {
                    Some(v) => Some(v@),
                    None => None,
                }),
            ),
    {
        if ignored.is_none() {
            return false;
        }
        let list = ignored.unwrap();
        let n = list.len();
        let mut i: usize = 0;
        proof {
            assert(list@.skip(0) =~= list@);
        }
        while i < n
            invariant
                ignored == Some(list),
                n == list@.len(),
                i <= n,
                seq_names_id(list@, self.primary_folder_id@) == seq_names_id(
                    list@.skip(i as int),
                    self.primary_folder_id@,
                ),
            decreases n - i,
        {
            proof {
                let rest = list@.skip(i as int);
                assert(rest[0] == list@[i as int]);
                assert(rest.drop_first() =~= list@.skip(i + 1 as int));
            }
            if list[i] == self.primary_folder_id {
                proof {
                    let rest = list@.skip(i as int);
                    assert(rest[0]@ == self.primary_folder_id@);
                    assert(seq_names_id(rest, self.primary_folder_id@));
                }
                return true;
            }
            i = i + 1;
        }
        false
    }

    /// The repository identifier confirmed towards the active
    /// repository, rendered as text.
    pub open spec fn spec_repository_id(self) -> Option<Seq<char>> {
        match self.active_repository {
            Some(Repository::Curse) => match self.repository_identifiers.curse {
                Some(i) => Some(dec_digits(i as nat)),
                None => None,
            },
            Some(Repository::Tukui) => view_opt(self.repository_identifiers.tukui),
            Some(Repository::WowI) => view_opt(self.repository_identifiers.wowi),
            None => None,
        }
    }

    /// Returns the identifier for the active repository.
    pub fn repository_id(&self) -> (r: Option<String>)
        ensures
            (match r {
                Some(s) => self.spec_repository_id() == Some(s@),
                None => self.spec_repository_id() is None,
            }),
    {
        match &self.active_repository {
            Some(Repository::Curse) => match self.repository_identifiers.curse {
                Some(i) => Some(u32_to_string(i)),
                None => None,
            },
            Some(Repository::Tukui) => clone_opt_string(&self.repository_identifiers.tukui),
            Some(Repository::WowI) => clone_opt_string(&self.repository_identifiers.wowi),
            None => None,
        }
    }

    /// The update decision against the resolved local version: both
    /// version texts are stripped to their digits, and an update is
    /// available exactly when the remote digit run is not contained in
    /// the local one.
    pub open spec fn spec_version_updatable(self, pkg: RemotePackage) -> bool {
        match self.spec_version() {
            Some(local) => !is_substring(digits_of(local), digits_of(pkg.version@)),
            None => false,
        }
    }

    /// The update decision: with no authoritative file identifier the
    /// digit-run heuristic applies; otherwise the remote package is an
    /// update exactly when its file identifier is strictly greater.
    pub open spec fn spec_is_updatable(self, pkg: RemotePackage) -> bool {
        if self.repository_metadata.file_id is None {
            self.spec_version_updatable(pkg)
        } else {
            opt_id_newer(pkg.file_id, self.repository_metadata.file_id)
        }
    }

    /// Returns whether `remote_package` is an update for the add-on.
    pub fn is_updatable(&self, remote_package: &RemotePackage) -> (r: bool)
        ensures
            r == self.spec_is_updatable(*remote_package),
    {
        if self.repository_metadata.file_id.is_none() {
            return self.is_updatable_by_version_comparison(remote_package);
        }
        opt_i64_gt(remote_package.file_id, self.repository_metadata.file_id)
    }

    /// Decides the digit-run heuristic: strips both versions to their
    /// digits and tests containment of the remote run in the local one.
    fn is_updatable_by_version_comparison(&self, remote_package: &RemotePackage) -> (r: bool)
        ensures
            r == self.spec_version_updatable(*remote_package),
    {
        let local = self.version();
        if local.is_none() {
            return false;
        }
        let srv = strip_non_digits(remote_package.version.as_str());
        let slv = strip_non_digits(local.unwrap());
        !contains_chars(&slv, &srv)
    }

    /// The package the user should see for the selected channel: a
    /// more stable channel wins whenever its file identifier is not
    /// older.
    pub open spec fn spec_relevant_release_package(self) -> Option<RemotePackage> {
        let stable = self.repository_metadata.remote_packages.stable;
        let beta = self.repository_metadata.remote_packages.beta;
        let alpha = self.repository_metadata.remote_packages.alpha;
        let stable_newer_than_beta = stable is Some && beta is Some && opt_id_newer(
            stable->0.file_id,
            beta->0.file_id,
        );
        let stable_newer_than_alpha = stable is Some && alpha is Some && opt_id_newer(
            stable->0.file_id,
            alpha->0.file_id,
        );
        let beta_newer_than_alpha = beta is Some && alpha is Some && opt_id_newer(
            beta->0.file_id,
            alpha->0.file_id,
        );
        match self.release_channel {
            ReleaseChannel::Stable => stable,
            ReleaseChannel::Beta => if stable_newer_than_beta {
                stable
            } else {
                beta
            },
            ReleaseChannel::Alpha => if beta_newer_than_alpha {
                if stable_newer_than_beta {
                    stable
                } else {
                    beta
                }
            } else if stable_newer_than_alpha {
                stable
            } else {
                alpha
            },
        }
    }

    /// Returns the relevant release package for the add-on: a release
    /// channel above the selected one that is newer wins.
    pub fn relevant_release_package(&self) -> (r: Option<&RemotePackage>)
        ensures
            (match r {
                Some(p) => self.spec_relevant_release_package() == Some(*p),
                None => self.spec_relevant_release_package() is None,
            }),
    {
        let packages = &self.repository_metadata.remote_packages;
        let stable_id = file_id_of(&packages.stable);
        let beta_id = file_id_of(&packages.beta);
        let alpha_id = file_id_of(&packages.alpha);
        let stable_newer_than_beta = packages.stable.is_some() && packages.beta.is_some()
            && opt_i64_gt(stable_id, beta_id);
        let stable_newer_than_alpha = packages.stable.is_some() && packages.alpha.is_some()
            && opt_i64_gt(stable_id, alpha_id);
        let beta_newer_than_alpha = packages.beta.is_some() && packages.alpha.is_some()
            && opt_i64_gt(beta_id, alpha_id);
        match self.release_channel {
            ReleaseChannel::Stable => packages.stable.as_ref(),
            ReleaseChannel::Beta => {
                if stable_newer_than_beta {
                    packages.stable.as_ref()
                } else {
                    packages.beta.as_ref()
                }
            },
            ReleaseChannel::Alpha => {
                if beta_newer_than_alpha {
                    if stable_newer_than_beta {
                        packages.stable.as_ref()
                    } else {
                        packages.beta.as_ref()
                    }
                } else if stable_newer_than_alpha {
                    packages.stable.as_ref()
                } else {
                    packages.alpha.as_ref()
                }
            },
        }
    }

    /// How two add-ons are shown relative to each other: by title, and
    /// among equal titles the greater relevant package comes first.
    pub open spec fn spec_cmp(self, other: Addon) -> Ordering {
        let by_title = lex_cmp(self.spec_title(), other.spec_title());
        if by_title == Ordering::Equal {
            reverse_ord(
                opt_pkg_cmp(
                    self.spec_relevant_release_package(),
                    other.spec_relevant_release_package(),
                ),
            )
        } else {
            by_title
        }
    }

    /// Orders two add-ons for display: primarily by title, ties broken
    /// by the reverse order of their relevant release packages, so that
    /// among equal titles the greater package sorts first.
    pub fn cmp(&self, other: &Addon) -> (r: Ordering)
        ensures
            r == self.spec_cmp(*other),
    {
        let by_title = cmp_str(self.title(), other.title());
        match by_title {
            Ordering::Equal => {
                let own = self.relevant_release_package();
                let theirs = other.relevant_release_package();
                reverse_ordering(cmp_opt_package(own, theirs))
            },
            _ => by_title,
        }
    }
}

/// Whether `a` is a strictly newer file identifier than `b`: a missing
/// identifier is older than any present one, and never newer.
pub open spec fn opt_id_newer(a: Option<i64>, b: Option<i64>) -> bool {
    match a {
        Some(x) => match b {
            Some(y) => x > y,
            None => true,
        },
        None => false,
    }
}

/// Compares two optional file identifiers for strict newness.
pub fn opt_i64_gt(a: Option<i64>, b: Option<i64>) -> (r: bool)
    ensures
        r == opt_id_newer(a, b),
{
    if a.is_none() {
        return false;
    }
    if b.is_none() {
        return true;
    }
    a.unwrap() > b.unwrap()
}

/// The file identifier inside an optional package.
fn file_id_of(o: &Option<RemotePackage>) -> (r: Option<i64>)
    ensures
        o is Some ==> r == o->0.file_id,
        o is None ==> r is None,
{
    match o {
        Some(p) => p.file_id,
        None => None,
    }
}

/// How two optional packages order: absence comes first, and two
/// packages order by their version texts.
pub open spec fn opt_pkg_cmp(a: Option<RemotePackage>, b: Option<RemotePackage>) -> Ordering {
    if a is None && b is None {
        Ordering::Equal
    } else if a is None {
        Ordering::Less
    } else if b is None {
        Ordering::Greater
    } else {
        lex_cmp(a->0.version@, b->0.version@)
    }
}

/// Compares two optional packages by their version texts, absence
/// first.
pub fn cmp_opt_package(a: Option<&RemotePackage>, b: Option<&RemotePackage>) -> (r: Ordering)
    ensures
        (match (a, b) {
            (Some(x), Some(y)) => r == opt_pkg_cmp(Some(*x), Some(*y)),
            (Some(x), None) => r == opt_pkg_cmp(Some(*x), None),
            (None, Some(y)) => r == opt_pkg_cmp(None, Some(*y)),
            (None, None) => r == opt_pkg_cmp(None, None),
        }),
{
    if a.is_none() && b.is_none() {
        return Ordering::Equal;
    }
    if a.is_none() {
        return Ordering::Less;
    }
    if b.is_none() {
        return Ordering::Greater;
    }
    cmp_str(a.unwrap().version.as_str(), b.unwrap().version.as_str())
}

/// Where only the Stable channel has a package, selecting the Stable
/// channel resolves to it. (Selecting Beta or Alpha while those
/// channels hold no package resolves to nothing: a channel is never
/// promoted upwards, only a newer, more stable package downwards.)
pub proof fn lemma_relevant_only_stable(a: Addon)
    requires
        a.repository_metadata.remote_packages.beta is None,
        a.repository_metadata.remote_packages.alpha is None,
        a.release_channel == ReleaseChannel::Stable,
    ensures
        a.spec_relevant_release_package() == a.repository_metadata.remote_packages.stable,
{
}

/// On the Alpha channel, a Beta package that is newer than the Alpha
/// one wins, as long as the Stable package is not newer than the Beta
/// one.
pub proof fn lemma_relevant_alpha_promotes_beta(a: Addon)
    requires
        a.release_channel == ReleaseChannel::Alpha,
        a.repository_metadata.remote_packages.beta is Some,
        a.repository_metadata.remote_packages.alpha is Some,
        opt_id_newer(
            a.repository_metadata.remote_packages.beta->0.file_id,
            a.repository_metadata.remote_packages.alpha->0.file_id,
        ),
        !opt_id_newer(
            a.repository_metadata.remote_packages.stable->0.file_id,
            a.repository_metadata.remote_packages.beta->0.file_id,
        ),
    ensures
        a.spec_relevant_release_package() == a.repository_metadata.remote_packages.beta,
{
}

/// Among add-ons with the same title, the order is the reverse of the
/// order of their relevant release packages: the greater package comes
/// first.
pub proof fn lemma_cmp_reverses_packages_on_equal_titles(a: Addon, b: Addon)
    requires
        a.spec_title() == b.spec_title(),
    ensures
        a.spec_cmp(b) == reverse_ord(
            opt_pkg_cmp(a.spec_relevant_release_package(), b.spec_relevant_release_package()),
        ),
{
    lemma_lex_cmp_equal(a.spec_title());
}

/// A sequence compares equal to itself.
proof fn lemma_lex_cmp_equal(s: Seq<char>)
    ensures
        lex_cmp(s, s) == Ordering::Equal,
    decreases s.len(),
{
    if s.len() > 0 {
        lemma_lex_cmp_equal(s.drop_first());
    }
}

impl PartialEq for Addon {
    /// Two add-ons are the same add-on exactly when their primary
    /// folder identifiers agree; every other field may differ.
    fn eq(&self, other: &Addon) -> (r: bool) {
        self.primary_folder_id == other.primary_folder_id
    }
}

impl vstd::std_specs::cmp::PartialEqSpecImpl for Addon {
    open spec fn obeys_eq_spec() -> bool {
        true
    }

    open spec fn eq_spec(&self, other: &Addon) -> bool {
        self.primary_folder_id@ == other.primary_folder_id@
    }
}

} // verus!
