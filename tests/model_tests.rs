use daedalus::get_path_from_artifact;
use daedalus::keyed::KeyedMap;
use daedalus::minecraft::{
    default_include_in_classpath, merge_partial_library, Argument, ArgumentType, AssetIndex,
    DownloadType, Library, LibraryDownload, LibraryDownloads, MinecraftJavaProfile, Os,
    PartialLibrary, Rule, RuleAction, Timestamp, VersionInfo, VersionType,
};
use daedalus::modded::{merge_partial_version, PartialVersionInfo};
use daedalus::MetadataError;

fn lib(name: &str) -> Library {
    Library {
        downloads: None,
        extract: None,
        name: name.to_string(),
        url: None,
        natives: None,
        rules: None,
        checksums: None,
        include_in_classpath: true,
    }
}

fn partial() -> PartialLibrary {
    PartialLibrary {
        downloads: None,
        extract: None,
        name: None,
        url: None,
        natives: None,
        rules: None,
        checksums: None,
        include_in_classpath: None,
    }
}

fn dl(path: &str) -> LibraryDownload {
    LibraryDownload { path: path.to_string(), sha1: "h".to_string(), size: 1, url: "u".to_string() }
}

fn rule(action: RuleAction) -> Rule {
    Rule { action, os: None, features: None }
}

fn classifiers(entries: &[(&str, &str)]) -> KeyedMap<String, LibraryDownload> {
    let mut m = KeyedMap::new();
    for (k, p) in entries {
        m.insert(k.to_string(), dl(p));
    }
    m
}

fn entry_paths(m: KeyedMap<String, LibraryDownload>) -> Vec<(String, String)> {
    m.into_entries().into_iter().map(|(k, v)| (k, v.path)).collect()
}

fn ts(seconds: i64) -> Timestamp {
    Timestamp { seconds, nanos: 0 }
}

fn version_info(libs: Vec<Library>) -> VersionInfo {
    VersionInfo {
        arguments: None,
        asset_index: AssetIndex {
            id: "1".to_string(),
            sha1: "s".to_string(),
            size: 1,
            total_size: 2,
            url: "a".to_string(),
        },
        assets: "1".to_string(),
        downloads: KeyedMap::new(),
        id: "1.20".to_string(),
        java_version: None,
        libraries: libs,
        main_class: "base.Main".to_string(),
        minecraft_arguments: None,
        minimum_launcher_version: 21,
        release_time: ts(1),
        time: ts(2),
        type_: VersionType::Release,
        data: None,
        processors: None,
    }
}

fn partial_version(libs: Vec<Library>) -> PartialVersionInfo {
    PartialVersionInfo {
        id: "fabric-1.20".to_string(),
        inherits_from: "1.20".to_string(),
        release_time: ts(10),
        time: ts(20),
        main_class: None,
        arguments: None,
        libraries: libs,
        type_: VersionType::Snapshot,
        data: None,
        processors: None,
    }
}

fn normal_args(args: &[&str]) -> Vec<Argument> {
    args.iter().map(|a| Argument::Normal(a.to_string())).collect()
}

fn arg_strings(v: &Vec<Argument>) -> Vec<String> {
    v.iter()
        .map(|a| match a {
            Argument::Normal(s) => s.clone(),
            Argument::Ruled { .. } => "ruled".to_string(),
        })
        .collect()
}

#[test]
fn merge_library_scalar_override() {
    let mut base = lib("Y");
    base.url = Some("u".to_string());
    let mut p = partial();
    p.name = Some("X".to_string());
    let r = merge_partial_library(p, base);
    assert_eq!(r.name, "X");
    assert_eq!(r.url, Some("u".to_string()));
    assert!(r.include_in_classpath);
}

#[test]
fn merge_library_classifier_union() {
    let mut base = lib("n");
    base.downloads = Some(LibraryDownloads { artifact: Some(dl("base-art")), classifiers: Some(classifiers(&[("b", "V2")])) });
    let mut p = partial();
    p.downloads = Some(LibraryDownloads { artifact: None, classifiers: Some(classifiers(&[("a", "V1")])) });
    let r = merge_partial_library(p, base);
    let d = r.downloads.unwrap();
    assert_eq!(d.artifact.unwrap().path, "base-art");
    let mut got = entry_paths(d.classifiers.unwrap());
    got.sort();
    assert_eq!(got, vec![("a".to_string(), "V1".to_string()), ("b".to_string(), "V2".to_string())]);
}

#[test]
fn merge_library_classifier_overlay_wins_and_artifact_replaced() {
    let mut base = lib("n");
    base.downloads = Some(LibraryDownloads { artifact: Some(dl("old")), classifiers: Some(classifiers(&[("k", "base")])) });
    let mut p = partial();
    p.downloads = Some(LibraryDownloads { artifact: Some(dl("new")), classifiers: Some(classifiers(&[("k", "over")])) });
    let r = merge_partial_library(p, base);
    let d = r.downloads.unwrap();
    assert_eq!(d.artifact.unwrap().path, "new");
    assert_eq!(entry_paths(d.classifiers.unwrap()), vec![("k".to_string(), "over".to_string())]);
}

#[test]
fn merge_library_downloads_adopted_when_base_has_none() {
    let mut p = partial();
    p.downloads = Some(LibraryDownloads { artifact: Some(dl("only")), classifiers: None });
    let r = merge_partial_library(p, lib("n"));
    assert_eq!(r.downloads.unwrap().artifact.unwrap().path, "only");
}

#[test]
fn merge_library_rules_natives_checksums() {
    let mut base = lib("n");
    base.rules = Some(vec![rule(RuleAction::Disallow)]);
    let mut bn = KeyedMap::new();
    bn.insert(Os::Linux, "natives-linux".to_string());
    bn.insert(Os::Windows, "natives-windows".to_string());
    base.natives = Some(bn);
    base.checksums = Some(vec!["c1".to_string()]);
    let mut p = partial();
    p.rules = Some(vec![rule(RuleAction::Allow)]);
    let mut pn = KeyedMap::new();
    pn.insert(Os::Linux, "linux-override".to_string());
    pn.insert(Os::Osx, "natives-osx".to_string());
    p.natives = Some(pn);
    p.checksums = Some(vec!["c2".to_string()]);
    p.include_in_classpath = Some(false);
    let r = merge_partial_library(p, base);
    let actions: Vec<RuleAction> = r.rules.unwrap().iter().map(|x| x.action).collect();
    assert_eq!(actions, vec![RuleAction::Allow, RuleAction::Disallow]);
    let natives = r.natives.unwrap();
    assert_eq!(natives.len(), 3);
    assert_eq!(natives.get(&Os::Linux), Some(&"linux-override".to_string()));
    assert_eq!(natives.get(&Os::Windows), Some(&"natives-windows".to_string()));
    assert_eq!(natives.get(&Os::Osx), Some(&"natives-osx".to_string()));
    assert_eq!(natives.get(&Os::LinuxArm64), None);
    assert_eq!(r.checksums, Some(vec!["c2".to_string()]));
    assert!(!r.include_in_classpath);
}

#[test]
fn merge_version_libraries_overlay_first() {
    let r = merge_partial_version(partial_version(vec![lib("L1")]), version_info(vec![lib("L2")]));
    let names: Vec<String> = r.libraries.iter().map(|l| l.name.clone()).collect();
    assert_eq!(names, vec!["L1".to_string(), "L2".to_string()]);
    assert_eq!(r.id, "fabric-1.20");
    assert_eq!(r.time, ts(20));
    assert_eq!(r.release_time, ts(10));
    assert_eq!(r.type_, VersionType::Snapshot);
    assert_eq!(r.main_class, "base.Main");
    assert_eq!(r.minimum_launcher_version, 21);
}

#[test]
fn merge_version_arguments_replace_per_kind() {
    let mut base = version_info(vec![]);
    let mut ba = KeyedMap::new();
    ba.insert(ArgumentType::Game, normal_args(&["--base-game"]));
    ba.insert(ArgumentType::Jvm, normal_args(&["-Xbase"]));
    base.arguments = Some(ba);
    let mut p = partial_version(vec![]);
    let mut pa = KeyedMap::new();
    pa.insert(ArgumentType::Game, normal_args(&["--loader"]));
    p.arguments = Some(pa);
    p.main_class = Some("loader.Main".to_string());
    let r = merge_partial_version(p, base);
    let args = r.arguments.unwrap();
    assert_eq!(arg_strings(args.get(&ArgumentType::Game).unwrap()), vec!["--loader".to_string()]);
    assert_eq!(arg_strings(args.get(&ArgumentType::Jvm).unwrap()), vec!["-Xbase".to_string()]);
    assert_eq!(r.main_class, "loader.Main");
}

#[test]
fn keyed_map_insert_and_extend() {
    let mut m: KeyedMap<DownloadType, u32> = KeyedMap::new();
    m.insert(DownloadType::Client, 1);
    m.insert(DownloadType::Server, 2);
    m.insert(DownloadType::Client, 3);
    assert_eq!(m.len(), 2);
    assert_eq!(m.get(&DownloadType::Client), Some(&3));
    let mut o = KeyedMap::new();
    o.insert(DownloadType::Server, 9);
    o.insert(DownloadType::WindowsServer, 7);
    m.extend(o);
    assert_eq!(m.len(), 3);
    assert_eq!(m.get(&DownloadType::Server), Some(&9));
    assert_eq!(m.into_entries(), vec![(DownloadType::Client, 3), (DownloadType::Server, 9), (DownloadType::WindowsServer, 7)]);
}

#[test]
fn version_type_names() {
    assert_eq!(VersionType::Release.as_str(), "release");
    assert_eq!(VersionType::Snapshot.as_str(), "snapshot");
    assert_eq!(VersionType::OldAlpha.as_str(), "old_alpha");
    assert_eq!(VersionType::OldBeta.as_str(), "old_beta");
}

#[test]
fn java_profile_names_round_trip() {
    for p in [
        MinecraftJavaProfile::JRELegacy,
        MinecraftJavaProfile::JavaRuntimeAlpha,
        MinecraftJavaProfile::JavaRuntimeBeta,
        MinecraftJavaProfile::JavaRuntimeGamma,
        MinecraftJavaProfile::MinecraftJavaExe,
    ] {
        assert_eq!(MinecraftJavaProfile::try_from(p.as_str()).unwrap(), p);
    }
    assert_eq!(MinecraftJavaProfile::JRELegacy.as_str(), "jre-legacy");
    match MinecraftJavaProfile::try_from("java-runtime-delta") {
        Err(MetadataError::InvalidMinecraftJavaProfile(s)) => assert_eq!(s, "java-runtime-delta"),
        other => panic!("unexpected {:?}", other),
    }
}

#[test]
fn artifact_paths() {
    assert_eq!(get_path_from_artifact("net.minecraft:client:1.20").unwrap(), "net/minecraft/client/1.20/client-1.20.jar");
    assert_eq!(get_path_from_artifact("org.ow2.asm:asm:9.5@zip").unwrap(), "org/ow2/asm/asm/9.5/asm-9.5.zip");
    assert_eq!(
        get_path_from_artifact("org.lwjgl:lwjgl:3.3.1:natives-linux").unwrap(),
        "org/lwjgl/lwjgl/3.3.1/lwjgl-3.3.1-natives-linux.jar"
    );
    assert_eq!(get_path_from_artifact("a.b:c:1:d@txt").unwrap(), "a/b/c/1/c-1-d.txt");
}

#[test]
fn artifact_errors() {
    match get_path_from_artifact("lonely") {
        Err(MetadataError::ParseError(m)) => assert_eq!(m, "Unable to find name for library lonely"),
        other => panic!("unexpected {:?}", other),
    }
    match get_path_from_artifact("a:b") {
        Err(MetadataError::ParseError(m)) => assert_eq!(m, "Unable to find version for library a:b"),
        other => panic!("unexpected {:?}", other),
    }
}

#[test]
fn classpath_default_is_true() {
    assert!(default_include_in_classpath());
}
