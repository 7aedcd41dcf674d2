//! Models of the game's version metadata, and the merge of a partial library into a
//! complete one.
use vstd::prelude::*;

use crate::keyed::{KeyedMap, MapKey};
use crate::modded::{Processor, SidedDataEntry};
use crate::MetadataError;

verus! {

/// The latest version of the format the model structs deserialize to
pub const CURRENT_FORMAT_VERSION: usize = 0;

/// The URL to the version manifest
pub const VERSION_MANIFEST_URL: &'static str =
    "https://piston-meta.mojang.com/mc/game/version_manifest_v2.json";

/// A point in time, in UTC: seconds since the Unix epoch and the nanoseconds within that second.
#[derive(Debug, Clone, Copy, PartialEq, Eq, Structural)]
pub struct Timestamp {
    pub seconds: i64,
    pub nanos: u32,
}

/// The version type
#[derive(Debug, Clone, Copy, PartialEq, Eq, Structural)]
pub enum VersionType {
    /// A major version, which is stable for all players to use
    Release,
    /// An experimental version, used for feature previews and beta testing
    Snapshot,
    /// The oldest versions before the game was released
    OldAlpha,
    /// Early versions of the game
    OldBeta,
}

pub open spec fn version_type_name(t: VersionType) -> Seq<char> {
    match t {
        VersionType::Release => "release"@,
        VersionType::Snapshot => "snapshot"@,
        VersionType::OldAlpha => "old_alpha"@,
        VersionType::OldBeta => "old_beta"@,
    }
}

impl VersionType {
    /// Converts the version type to a string
    pub fn as_str(&self) -> (r: &'static str)
        ensures
            r@ == version_type_name(*self),
    {
        match self {
            VersionType::Release => "release",
            VersionType::Snapshot => "snapshot",
            VersionType::OldAlpha => "old_alpha",
            VersionType::OldBeta => "old_beta",
        }
    }
}

/// A game version of Minecraft
#[derive(Debug, Clone)]
pub struct Version {
    /// A unique identifier of the version
    pub id: String,
    /// The release type of the version
    pub type_: VersionType,
    /// A link to additional information about the version
    pub url: String,
    /// The latest time a file in this version was updated
    pub time: Timestamp,
    /// The time this version was released
    pub release_time: Timestamp,
    /// The SHA1 hash of the additional information about the version
    pub sha1: String,
    /// Whether the version supports the latest player safety features
    pub compliance_level: u32,
    /// The link to the assets index for this version, where a mirror provides it
    pub assets_index_url: Option<String>,
    /// The SHA1 hash of the assets index for this version, where a mirror provides it
    pub assets_index_sha1: Option<String>,
    /// The java profile required to run this version, where a mirror provides it
    pub java_profile: Option<MinecraftJavaProfile>,
}

/// Java profile required to run a game version
#[derive(Debug, Clone, Copy, PartialEq, Eq, Structural)]
pub enum MinecraftJavaProfile {
    /// Java 8
    JRELegacy,
    /// Java 16
    JavaRuntimeAlpha,
    /// Java 17
    JavaRuntimeBeta,
    /// Java 17
    JavaRuntimeGamma,
    /// Java 14
    MinecraftJavaExe,
}

pub open spec fn java_profile_name(p: MinecraftJavaProfile) -> Seq<char> {
    match p {
        MinecraftJavaProfile::JRELegacy => "jre-legacy"@,
        MinecraftJavaProfile::JavaRuntimeAlpha => "java-runtime-alpha"@,
        MinecraftJavaProfile::JavaRuntimeBeta => "java-runtime-beta"@,
        MinecraftJavaProfile::JavaRuntimeGamma => "java-runtime-gamma"@,
        MinecraftJavaProfile::MinecraftJavaExe => "minecraft-java-exe"@,
    }
}

/// The java profile that `s` names, if any.
pub open spec fn profile_named(s: Seq<char>) -> Option<MinecraftJavaProfile> {
    if s == "jre-legacy"@ {
        Some(MinecraftJavaProfile::JRELegacy)
    } else if s == "java-runtime-alpha"@ {
        Some(MinecraftJavaProfile::JavaRuntimeAlpha)
    } else if s == "java-runtime-beta"@ {
        Some(MinecraftJavaProfile::JavaRuntimeBeta)
    } else if s == "java-runtime-gamma"@ {
        Some(MinecraftJavaProfile::JavaRuntimeGamma)
    } else if s == "minecraft-java-exe"@ {
        Some(MinecraftJavaProfile::MinecraftJavaExe)
    } else {
        None
    }
}

/// Reading back the name of a java profile gives that profile.
pub proof fn lemma_profile_name_round_trip(p: MinecraftJavaProfile)
    ensures
        profile_named(java_profile_name(p)) == Some(p),
{
    reveal_strlit("jre-legacy");
    reveal_strlit("java-runtime-alpha");
    reveal_strlit("java-runtime-beta");
    reveal_strlit("java-runtime-gamma");
    reveal_strlit("minecraft-java-exe");
    assert("jre-legacy"@[1] != "java-runtime-alpha"@[1]);
    assert("jre-legacy"@[1] != "java-runtime-beta"@[1]);
    assert("jre-legacy"@[1] != "java-runtime-gamma"@[1]);
    assert("java-runtime-alpha"@[13] != "java-runtime-beta"@[13]);
    assert("java-runtime-alpha"@[13] != "java-runtime-gamma"@[13]);
    assert("java-runtime-beta"@[13] != "java-runtime-gamma"@[13]);
    assert("minecraft-java-exe"@[0] != "jre-legacy"@[0]);
    assert("minecraft-java-exe"@[0] != "java-runtime-alpha"@[0]);
    assert("minecraft-java-exe"@[0] != "java-runtime-beta"@[0]);
    assert("minecraft-java-exe"@[0] != "java-runtime-gamma"@[0]);
}

impl MinecraftJavaProfile {
    /// Converts the java profile to a string
    pub fn as_str(&self) -> (r: &'static str)
        ensures
            r@ == java_profile_name(*self),
    {
        match self {
            MinecraftJavaProfile::JRELegacy => "jre-legacy",
            MinecraftJavaProfile::JavaRuntimeAlpha => "java-runtime-alpha",
            MinecraftJavaProfile::JavaRuntimeBeta => "java-runtime-beta",
            MinecraftJavaProfile::JavaRuntimeGamma => "java-runtime-gamma",
            MinecraftJavaProfile::MinecraftJavaExe => "minecraft-java-exe",
        }
    }

    /// Reads a java profile from its name.
    pub fn try_from(value: &str) -> (r: Result<MinecraftJavaProfile, MetadataError>)
        ensures
            profile_named(value@) matches Some(p) ==> r == Ok::<
                MinecraftJavaProfile,
                MetadataError,
            >(p),
            profile_named(value@) is None ==> (r matches Err(
                MetadataError::InvalidMinecraftJavaProfile(s),
            ) && s@ == value@),
    {
        let v = value.to_owned();
        if v == String::from_str("jre-legacy") {
            Ok(MinecraftJavaProfile::JRELegacy)
        } else if v == String::from_str("java-runtime-alpha") {
            Ok(MinecraftJavaProfile::JavaRuntimeAlpha)
        } else if v == String::from_str("java-runtime-beta") {
            Ok(MinecraftJavaProfile::JavaRuntimeBeta)
        } else if v == String::from_str("java-runtime-gamma") {
            Ok(MinecraftJavaProfile::JavaRuntimeGamma)
        } else if v == String::from_str("minecraft-java-exe") {
            Ok(MinecraftJavaProfile::MinecraftJavaExe)
        } else {
            Err(MetadataError::InvalidMinecraftJavaProfile(v))
        }
    }
}

/// The latest snapshot and release of the game
#[derive(Debug, Clone)]
pub struct LatestVersion {
    /// The version id of the latest release
    pub release: String,
    /// The version id of the latest snapshot
    pub snapshot: String,
}

/// Data of all game versions of Minecraft
#[derive(Debug, Clone)]
pub struct VersionManifest {
    /// The latest snapshot and release of the game
    pub latest: LatestVersion,
    /// A list of game versions of Minecraft
    pub versions: Vec<Version>,
}

/// Information about the assets of the game
#[derive(Debug, Clone)]
pub struct AssetIndex {
    /// The game version ID the assets are for
    pub id: String,
    /// The SHA1 hash of the assets index
    pub sha1: String,
    /// The size of the assets index
    pub size: u32,
    /// The size of the game version's assets
    pub total_size: u32,
    /// A URL to a file which contains information about the version's assets
    pub url: String,
}

/// The type of download
#[derive(Debug, Clone, Copy, PartialEq, Eq, Structural, Hash)]
pub enum DownloadType {
    /// The download is for the game client
    Client,
    /// The download is mappings for the game
    ClientMappings,
    /// The download is for the game server
    Server,
    /// The download is mappings for the game server
    ServerMappings,
    /// The download is for the windows server
    WindowsServer,
}

impl View for DownloadType {
    type V = DownloadType;

    open spec fn view(&self) -> DownloadType {
        *self
    }
}

impl MapKey for DownloadType {
    fn key_eq(&self, other: &Self) -> (r: bool) {
        *self == *other
    }
}

/// Download information of a file
#[derive(Debug, Clone)]
pub struct Download {
    /// The SHA1 hash of the file
    pub sha1: String,
    /// The size of the file
    pub size: u32,
    /// The URL where the file can be downloaded
    pub url: String,
}

/// Download information of a library
#[derive(Debug, Clone)]
pub struct LibraryDownload {
    /// The path that the library should be saved to
    pub path: String,
    /// The SHA1 hash of the library
    pub sha1: String,
    /// The size of the library
    pub size: u32,
    /// The URL where the library can be downloaded
    pub url: String,
}

/// A list of files that should be downloaded for libraries
#[derive(Debug, Clone)]
pub struct LibraryDownloads {
    /// The primary library artifact
    pub artifact: Option<LibraryDownload>,
    /// Conditional files that may be needed alongside the library, by classifier
    pub classifiers: Option<KeyedMap<String, LibraryDownload>>,
}

/// The action a rule can follow
#[derive(Debug, Clone, Copy, PartialEq, Eq, Structural)]
pub enum RuleAction {
    /// The rule's status allows something to be done
    Allow,
    /// The rule's status disallows something to be done
    Disallow,
}

/// The different types of operating systems
#[derive(Debug, Clone, Copy, PartialEq, Eq, Structural, Hash)]
pub enum Os {
    /// MacOS (x86)
    Osx,
    /// M1-Based Macs
    OsxArm64,
    /// Windows (x86)
    Windows,
    /// Windows ARM
    WindowsArm64,
    /// Linux (x86) and its derivatives
    Linux,
    /// Linux ARM 64
    LinuxArm64,
    /// Linux ARM 32
    LinuxArm32,
    /// The OS is unknown
    Unknown,
}

impl View for Os {
    type V = Os;

    open spec fn view(&self) -> Os {
        *self
    }
}

impl MapKey for Os {
    fn key_eq(&self, other: &Self) -> (r: bool) {
        *self == *other
    }
}

/// A rule which depends on what OS the user is on
#[derive(Debug, Clone)]
pub struct OsRule {
    /// The name of the OS
    pub name: Option<Os>,
    /// The version of the OS. This is normally a RegEx
    pub version: Option<String>,
    /// The architecture of the OS
    pub arch: Option<String>,
}

/// A rule which depends on the toggled features of the launcher
#[derive(Debug, Clone)]
pub struct FeatureRule {
    /// Whether the user is in demo mode
    pub is_demo_user: Option<bool>,
    /// Whether the user is using the demo resolution
    pub has_demo_resolution: Option<bool>,
}

/// A rule deciding whether a file is downloaded, an argument is used, etc.
#[derive(Debug, Clone)]
pub struct Rule {
    /// The action the rule takes
    pub action: RuleAction,
    /// The OS rule
    pub os: Option<OsRule>,
    /// The feature rule
    pub features: Option<FeatureRule>,
}

/// Information delegating the extraction of the library
#[derive(Debug, Clone)]
pub struct LibraryExtract {
    /// Files/Folders to be excluded from the extraction of the library
    pub exclude: Option<Vec<String>>,
}

/// Information about the java version the game needs
#[derive(Debug, Clone)]
pub struct JavaVersion {
    /// The component needed for the Java installation
    pub component: String,
    /// The major Java version number
    pub major_version: u32,
}

/// A library which the game relies on to run
#[derive(Debug, Clone)]
pub struct Library {
    /// The files the library has
    pub downloads: Option<LibraryDownloads>,
    /// Rules of the extraction of the file
    pub extract: Option<LibraryExtract>,
    /// The maven name of the library. The format is `groupId:artifactId:version`
    pub name: String,
    /// The URL to the repository where the library can be downloaded
    pub url: Option<String>,
    /// Native files that the library relies on
    pub natives: Option<KeyedMap<Os, String>>,
    /// Rules deciding whether the library should be downloaded or not
    pub rules: Option<Vec<Rule>>,
    /// SHA1 checksums for validating the library's integrity
    pub checksums: Option<Vec<String>>,
    /// Whether the library should be included in the classpath at the game's launch
    pub include_in_classpath: bool,
}

/// A partial library which should be merged with a full library
#[derive(Debug, Clone)]
pub struct PartialLibrary {
    /// The files the library has
    pub downloads: Option<LibraryDownloads>,
    /// Rules of the extraction of the file
    pub extract: Option<LibraryExtract>,
    /// The maven name of the library. The format is `groupId:artifactId:version`
    pub name: Option<String>,
    /// The URL to the repository where the library can be downloaded
    pub url: Option<String>,
    /// Native files that the library relies on
    pub natives: Option<KeyedMap<Os, String>>,
    /// Rules deciding whether the library should be downloaded or not
    pub rules: Option<Vec<Rule>>,
    /// SHA1 checksums for validating the library's integrity
    pub checksums: Option<Vec<String>>,
    /// Whether the library should be included in the classpath at the game's launch
    pub include_in_classpath: Option<bool>,
}

/// Every map in an optional map is well formed.
pub open spec fn opt_map_wf<K: MapKey, V>(m: Option<KeyedMap<K, V>>) -> bool {
    m matches Some(x) ==> x.wf()
}

pub open spec fn opt_map_view<K: MapKey, V>(m: Option<KeyedMap<K, V>>) -> Option<Map<K::V, V>> {
    match m {
        Some(x) => Some(x@),
        None => None,
    }
}

/// The merge of two optional maps: the union of their keys, where a key in both takes
/// the overlay's value.
pub open spec fn merged_map<K: MapKey, V>(
    overlay: Option<KeyedMap<K, V>>,
    base: Option<KeyedMap<K, V>>,
) -> Option<Map<K::V, V>> {
    match (overlay, base) {
        (Some(o), Some(b)) => Some(b@.union_prefer_right(o@)),
        (Some(o), None) => Some(o@),
        (None, b) => opt_map_view(b),
    }
}

/// The merge of two optional lists: the overlay's elements, then the base's.
pub open spec fn merged_list<T>(overlay: Option<Vec<T>>, base: Option<Vec<T>>) -> Option<Seq<T>> {
    match (overlay, base) {
        (Some(o), Some(b)) => Some(o@ + b@),
        (Some(o), None) => Some(o@),
        (None, Some(b)) => Some(b@),
        (None, None) => None,
    }
}

pub open spec fn opt_list_view<T>(l: Option<Vec<T>>) -> Option<Seq<T>> {
    match l {
        Some(x) => Some(x@),
        None => None,
    }
}

/// The overlay's value where it has one, else the base's.
pub open spec fn overridden<T>(overlay: Option<T>, base: T) -> T {
    match overlay {
        Some(x) => x,
        None => base,
    }
}

/// The overlay's value where it has one, else the base's.
pub open spec fn overridden_opt<T>(overlay: Option<T>, base: Option<T>) -> Option<T> {
    match overlay {
        Some(x) => Some(x),
        None => base,
    }
}

impl LibraryDownloads {
    pub open spec fn wf(&self) -> bool {
        opt_map_wf(self.classifiers)
    }
}

impl Library {
    pub open spec fn wf(&self) -> bool {
        &&& (self.downloads matches Some(d) ==> d.wf())
        &&& opt_map_wf(self.natives)
    }
}

impl PartialLibrary {
    pub open spec fn wf(&self) -> bool {
        &&& (self.downloads matches Some(d) ==> d.wf())
        &&& opt_map_wf(self.natives)
    }
}

/// The downloads of a merged library: an overlay artifact replaces the base's, and the
/// classifiers are merged key by key.
pub open spec fn downloads_merged(
    r: Option<LibraryDownloads>,
    overlay: Option<LibraryDownloads>,
    base: Option<LibraryDownloads>,
) -> bool {
    match (overlay, base) {
        (None, b) => r == b,
        (Some(o), None) => r == Some(o),
        (Some(o), Some(b)) => r matches Some(d) && d.artifact == overridden_opt(o.artifact, b.artifact)
            && opt_map_view(d.classifiers) == merged_map(o.classifiers, b.classifiers),
    }
}

pub(crate) fn merge_opt_map<K: MapKey, V>(overlay: Option<KeyedMap<K, V>>, base: Option<KeyedMap<K, V>>) -> (r:
    Option<KeyedMap<K, V>>)
    requires
        opt_map_wf(overlay),
        opt_map_wf(base),
    ensures
        opt_map_wf(r),
        opt_map_view(r) == merged_map(overlay, base),
{
    match overlay {
        Some(o) => match base {
            Some(b) => {
                let mut m = b;
                m.extend(o);
                Some(m)
            },
            None => Some(o),
        },
        None => base,
    }
}

fn merge_opt_list<T>(overlay: Option<Vec<T>>, base: Option<Vec<T>>) -> (r: Option<Vec<T>>)
    ensures
        opt_list_view(r) == merged_list(overlay, base),
{
    match overlay {
        Some(o) => match base {
            Some(b) => {
                let mut l = o;
                let mut rest = b;
                l.append(&mut rest);
                Some(l)
            },
            None => Some(o),
        },
        None => match base {
            Some(b) => Some(b),
            None => None,
        },
    }
}

/// Merges a partial library into a complete library: each field the partial library
/// has overrides the complete library's, maps are merged key by key with the partial
/// library's values winning, and its rules come before the complete library's.
pub fn merge_partial_library(partial: PartialLibrary, merge: Library) -> (r: Library)
    requires
        partial.wf(),
        merge.wf(),
    ensures
        r.wf(),
        downloads_merged(r.downloads, partial.downloads, merge.downloads),
        r.extract == overridden_opt(partial.extract, merge.extract),
        r.name == overridden(partial.name, merge.name),
        r.url == overridden_opt(partial.url, merge.url),
        opt_map_view(r.natives) == merged_map(partial.natives, merge.natives),
        opt_list_view(r.rules) == merged_list(partial.rules, merge.rules),
        r.checksums == overridden_opt(partial.checksums, merge.checksums),
        r.include_in_classpath == overridden(partial.include_in_classpath, merge.include_in_classpath),
{
    let downloads = match partial.downloads {
        Some(d) => match merge.downloads {
            Some(md) => {
                let artifact = match d.artifact {
                    Some(a) => Some(a),
                    None => md.artifact,
                };
                let classifiers = merge_opt_map(d.classifiers, md.classifiers);
                Some(LibraryDownloads { artifact, classifiers })
            },
            None => Some(d),
        },
        None => merge.downloads,
    };
    let extract = match partial.extract {
        Some(e) => Some(e),
        None => merge.extract,
    };
    let name = match partial.name {
        Some(n) => n,
        None => merge.name,
    };
    let url = match partial.url {
        Some(u) => Some(u),
        None => merge.url,
    };
    let natives = merge_opt_map(partial.natives, merge.natives);
    let rules = merge_opt_list(partial.rules, merge.rules);
    let checksums = match partial.checksums {
        Some(c) => Some(c),
        None => merge.checksums,
    };
    let include_in_classpath = match partial.include_in_classpath {
        Some(b) => b,
        None => merge.include_in_classpath,
    };
    Library { downloads, extract, name, url, natives, rules, checksums, include_in_classpath }
}

/// Whether a library is put on the classpath when its metadata does not say.
pub fn default_include_in_classpath() -> (r: bool)
    ensures
        r,
{
    true
}

/// A container for an argument or multiple arguments
#[derive(Debug, Clone)]
pub enum ArgumentValue {
    /// The container has one argument
    Single(String),
    /// The container has multiple arguments
    Many(Vec<String>),
}

/// A command line argument passed to a program
#[derive(Debug, Clone)]
pub enum Argument {
    /// An argument which is applied no matter what
    Normal(String),
    /// An argument which is only applied if certain conditions are met
    Ruled {
        /// The rules deciding whether the argument(s) is used or not
        rules: Vec<Rule>,
        /// The container of the argument(s) that should be applied accordingly
        value: ArgumentValue,
    },
}

/// The type of argument
#[derive(Debug, Clone, Copy, PartialEq, Eq, Structural, Hash)]
pub enum ArgumentType {
    /// The argument is passed to the game
    Game,
    /// The argument is passed to the JVM
    Jvm,
}

impl View for ArgumentType {
    type V = ArgumentType;

    open spec fn view(&self) -> ArgumentType {
        *self
    }
}

impl MapKey for ArgumentType {
    fn key_eq(&self, other: &Self) -> (r: bool) {
        *self == *other
    }
}

/// Information about a version
#[derive(Debug, Clone)]
pub struct VersionInfo {
    /// Arguments passed to the game or JVM
    pub arguments: Option<KeyedMap<ArgumentType, Vec<Argument>>>,
    /// Assets for the game
    pub asset_index: AssetIndex,
    /// The version ID of the assets
    pub assets: String,
    /// Game downloads of the version
    pub downloads: KeyedMap<DownloadType, Download>,
    /// The version ID of the version
    pub id: String,
    /// The Java version this version supports
    pub java_version: Option<JavaVersion>,
    /// Libraries that the version depends on
    pub libraries: Vec<Library>,
    /// The classpath to the main class to launch the game
    pub main_class: String,
    /// (Legacy) Arguments passed to the game
    pub minecraft_arguments: Option<String>,
    /// The minimum version of the launcher that can run this version of the game
    pub minimum_launcher_version: u32,
    /// The time that the version was released
    pub release_time: Timestamp,
    /// The latest time a file in this version was updated
    pub time: Timestamp,
    /// The type of version
    pub type_: VersionType,
    /// (Forge-only) Data variables
    pub data: Option<KeyedMap<String, SidedDataEntry>>,
    /// (Forge-only) The list of processors to run after downloading the files
    pub processors: Option<Vec<Processor>>,
}

impl VersionInfo {
    pub open spec fn wf(&self) -> bool {
        &&& opt_map_wf(self.arguments)
        &&& self.downloads.wf()
        &&& opt_map_wf(self.data)
    }
}

/// An asset of the game
#[derive(Debug, Clone)]
pub struct Asset {
    /// The SHA1 hash of the asset file
    pub hash: String,
    /// The size of the asset file
    pub size: u32,
}

/// An index containing all assets the game needs
#[derive(Debug, Clone)]
pub struct AssetsIndex {
    /// The assets, by file name
    pub objects: KeyedMap<String, Asset>,
}

} // verus!
