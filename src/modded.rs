//! Models of mod loader metadata, and the merge of a loader's partial version into the
//! game version it builds on.
use vstd::prelude::*;

use crate::keyed::{KeyedMap, MapKey};
use crate::minecraft::{
    merge_opt_map, merged_map, opt_map_view, opt_map_wf, overridden, overridden_opt, Argument,
    ArgumentType, Library, Timestamp, VersionInfo, VersionType,
};

verus! {

/// The latest version of the format the fabric model structs deserialize to
pub const CURRENT_FABRIC_FORMAT_VERSION: usize = 0;

/// The latest version of the format the forge model structs deserialize to
pub const CURRENT_FORGE_FORMAT_VERSION: usize = 0;

/// A data variable entry that depends on the side of the installation
#[derive(Debug, Clone)]
pub struct SidedDataEntry {
    /// The value on the client
    pub client: String,
    /// The value on the server
    pub server: String,
}

/// A partial version returned by a mod loader's metadata service
#[derive(Debug, Clone)]
pub struct PartialVersionInfo {
    /// The version ID of the version
    pub id: String,
    /// The version ID this partial version inherits from
    pub inherits_from: String,
    /// The time that the version was released
    pub release_time: Timestamp,
    /// The latest time a file in this version was updated
    pub time: Timestamp,
    /// The classpath to the main class to launch the game
    pub main_class: Option<String>,
    /// Arguments passed to the game or JVM
    pub arguments: Option<KeyedMap<ArgumentType, Vec<Argument>>>,
    /// Libraries that the version depends on
    pub libraries: Vec<Library>,
    /// The type of version
    pub type_: VersionType,
    /// (Forge-only) Data variables
    pub data: Option<KeyedMap<String, SidedDataEntry>>,
    /// (Forge-only) The list of processors to run after downloading the files
    pub processors: Option<Vec<Processor>>,
}

impl PartialVersionInfo {
    pub open spec fn wf(&self) -> bool {
        &&& opt_map_wf(self.arguments)
        &&& opt_map_wf(self.data)
    }
}

/// A processor to be run after downloading the files
#[derive(Debug, Clone)]
pub struct Processor {
    /// Maven coordinates for the JAR library of this processor.
    pub jar: String,
    /// Maven coordinates for all the libraries that must be in the classpath when running it.
    pub classpath: Vec<String>,
    /// Arguments for this processor.
    pub args: Vec<String>,
    /// A map of outputs. Keys and values can be data values
    pub outputs: Option<KeyedMap<String, String>>,
    /// Which sides this processor shall be run on: client, server, extract
    pub sides: Option<Vec<String>>,
}

/// Merges a partial version into a complete one. The identity, times and type come from
/// the partial version; its main class overrides the complete one's where it has one;
/// its libraries come before the complete version's; the argument lists are merged by
/// kind, a kind in both taking the partial version's list whole. Data and processors of
/// the partial version replace the complete one's where it has them; every other field
/// is the complete version's.
pub fn merge_partial_version(partial: PartialVersionInfo, merge: VersionInfo) -> (r: VersionInfo)
    requires
        partial.wf(),
        merge.wf(),
    ensures
        r.wf(),
        opt_map_view(r.arguments) == merged_map(partial.arguments, merge.arguments),
        r.asset_index == merge.asset_index,
        r.assets == merge.assets,
        r.downloads == merge.downloads,
        r.id == partial.id,
        r.java_version == merge.java_version,
        r.libraries@ == partial.libraries@ + merge.libraries@,
        r.main_class == overridden(partial.main_class, merge.main_class),
        r.minecraft_arguments == merge.minecraft_arguments,
        r.minimum_launcher_version == merge.minimum_launcher_version,
        r.release_time == partial.release_time,
        r.time == partial.time,
        r.type_ == partial.type_,
        r.data == overridden_opt(partial.data, merge.data),
        r.processors == overridden_opt(partial.processors, merge.processors),
{
    let arguments = merge_opt_map(partial.arguments, merge.arguments);
    let mut libraries = partial.libraries;
    let mut base_libraries = merge.libraries;
    libraries.append(&mut base_libraries);
    let main_class = match partial.main_class {
        Some(m) => m,
        None => merge.main_class,
    };
    let data = match partial.data {
        Some(d) => Some(d),
        None => merge.data,
    };
    let processors = match partial.processors {
        Some(p) => Some(p),
        None => merge.processors,
    };
    VersionInfo {
        arguments,
        asset_index: merge.asset_index,
        assets: merge.assets,
        downloads: merge.downloads,
        id: partial.id,
        java_version: merge.java_version,
        libraries,
        main_class,
        minecraft_arguments: merge.minecraft_arguments,
        minimum_launcher_version: merge.minimum_launcher_version,
        release_time: partial.release_time,
        time: partial.time,
        type_: partial.type_,
        data,
        processors,
    }
}

/// A manifest containing information about a mod loader's versions
#[derive(Debug, Clone)]
pub struct Manifest {
    /// The game versions the mod loader supports
    pub game_versions: Vec<Version>,
}

/// The version type of the loader
#[derive(Debug, Clone, Copy, PartialEq, Eq, Structural, Hash)]
pub enum LoaderType {
    /// Experimental loader versions that may not be ready for normal use
    Latest,
    /// The most stable but recent loader version
    Stable,
}

impl View for LoaderType {
    type V = LoaderType;

    open spec fn view(&self) -> LoaderType {
        *self
    }
}

impl MapKey for LoaderType {
    fn key_eq(&self, other: &Self) -> (r: bool) {
        *self == *other
    }
}

/// A game version of Minecraft, with the loader versions for it
#[derive(Debug, Clone)]
pub struct Version {
    /// The minecraft version ID
    pub id: String,
    /// The loader versions for the game version, by loader type
    pub loaders: KeyedMap<LoaderType, LoaderVersion>,
}

/// A version of a Minecraft mod loader
#[derive(Debug, Clone)]
pub struct LoaderVersion {
    /// The version ID of the loader
    pub id: String,
    /// The URL of the version's manifest
    pub url: String,
}

} // verus!
