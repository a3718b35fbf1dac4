use bundler::cache::AssetCache;
use bundler::cors::Cors;
use bundler::downloads::{find_text, repositories, RepoConfig};
use bundler::health::HealthStatus;
use bundler::logger::{Level, Tracefile};
use bundler::paths::{contains_parent_component, is_contained, is_plain_file_name, join_path, replace_extension, same_text};
use bundler::platform::{matches_ignore_ascii_case, Platform};
use bundler::programs::{check_environment, environment_verdict, get_binary, required_programs};
use bundler::resources::{fetch, fetch_icon, make_resources, Resource};

#[test]
fn platform_names_parse_ignoring_case() {
    assert_eq!(Platform::from_str("ctr"), Ok(Platform::Ctr));
    assert_eq!(Platform::from_str("HAC"), Ok(Platform::Hac));
    assert_eq!(Platform::from_str("CaFe"), Ok(Platform::Cafe));
    assert_eq!(Platform::from_str("wii"), Err("unknown platform: wii".to_string()));
    assert_eq!(Platform::from_str(""), Err("unknown platform: ".to_string()));
    assert_eq!(Platform::Ctr.name(), "ctr");
    assert_eq!(Platform::Hac.name(), "hac");
    assert_eq!(Platform::Cafe.name(), "cafe");
    assert!(matches_ignore_ascii_case("CtR", "ctr"));
    assert!(!matches_ignore_ascii_case("ctrl", "ctr"));
}

#[test]
fn extensions_are_replaced() {
    assert_eq!(replace_extension("hero.png", "t3x"), "hero.t3x");
    assert_eq!(replace_extension("font.v2.ttf", "bcfnt"), "font.v2.bcfnt");
    assert_eq!(replace_extension("noext", "t3x"), "noext.t3x");
    assert_eq!(replace_extension(".hidden", "t3x"), ".hidden.t3x");
    assert_eq!(replace_extension("trailing.", "t3x"), "trailing.t3x");
}

#[test]
fn path_checks() {
    assert!(contains_parent_component(".."));
    assert!(contains_parent_component("a/../b"));
    assert!(contains_parent_component("a\\.."));
    assert!(!contains_parent_component("a..b/c"));
    assert!(!contains_parent_component("..."));
    assert!(is_contained("ctr/game.3dsx"));
    assert!(!is_contained(""));
    assert!(!is_contained("/abs"));
    assert!(!is_contained("a/../../b"));
    assert!(is_plain_file_name("game.png"));
    assert!(!is_plain_file_name("a/b"));
    assert!(!is_plain_file_name("."));
    assert!(!is_plain_file_name(".."));
    assert!(!is_plain_file_name(""));
    assert_eq!(join_path("a", "b/c"), "a/b/c");
    assert!(same_text("abc", "abc"));
    assert!(!same_text("abc", "abd"));
}

#[test]
fn resource_paths() {
    assert_eq!(fetch(&Platform::Ctr, Resource::ElfBinary), "resources/ctr/lovepotion.elf");
    assert_eq!(fetch(&Platform::Cafe, Resource::RomFS), "resources/cafe/files.romfs");
    assert_eq!(fetch(&Platform::Hac, Resource::DefaultIcon), "");
    assert_eq!(fetch_icon(), "resources/default.png");
    let table = make_resources(&Platform::Hac);
    assert_eq!(table.len(), 2);
    assert_eq!(table[0], (Resource::ElfBinary, "resources/hac/lovepotion.elf".to_string()));
    assert_eq!(table[1], (Resource::RomFS, "resources/hac/files.romfs".to_string()));
}

#[test]
fn health_payload_is_fixed() {
    let mut status = HealthStatus::new();
    assert_eq!(status.health(Some("{\"a\":1}".to_string())), "{\"a\":1}");
    assert_eq!(status.health(None), "{\"a\":1}");
    assert_eq!(status.health(Some("other".to_string())), "{\"a\":1}");
    let mut fresh = HealthStatus::new();
    assert_eq!(fresh.health(None), "OK");
    assert_eq!(fresh.health(Some("late".to_string())), "OK");
}

#[test]
fn cors_health_is_open() {
    let cors = Cors::new(false);
    let d = cors.on_response("/health", Some("https://evil.example"), None, false, false);
    let h = d.headers.unwrap();
    assert_eq!(h.origin, "*");
    assert_eq!(h.methods, "GET, OPTIONS");
    assert_eq!(h.headers, "Content-Type, Authorization");
    assert_eq!(h.max_age, "86400");
    assert!(!d.rejected_origin);
}

#[test]
fn cors_restricted_paths() {
    let cors = Cors::new(false);
    let d = cors.on_response("/compile", Some("https://bundle.lovebrew.org"), Some("X-Custom"), false, false);
    let h = d.headers.unwrap();
    assert_eq!(h.origin, "https://bundle.lovebrew.org");
    assert_eq!(h.methods, "POST, OPTIONS");
    assert_eq!(h.headers, "X-Custom");

    let d = cors.on_response("/convert", Some("http://localhost:3000"), None, false, false);
    assert!(d.headers.is_none());
    assert!(d.rejected_origin);
    let dev = Cors::new(true);
    assert!(dev.is_allowed("http://localhost:3000"));
    assert!(!cors.is_allowed("http://localhost:3000"));

    let d = cors.on_response("/artifact", Some("https://evil.example"), None, true, true);
    let h = d.headers.unwrap();
    assert_eq!(h.origin, "*");
    assert_eq!(h.methods, "OPTIONS");
    assert!(d.no_content);
    assert!(d.rejected_origin);

    let d = cors.on_response("/other", None, None, false, false);
    assert!(d.headers.is_none());
    assert!(!d.no_content);
}

#[test]
fn cache_freshness() {
    let mut cache = AssetCache::new();
    assert!(!cache.is_up_to_date("lovepotion-3DS.zip", 100));
    cache.update("lovepotion-3DS.zip", 500, 100);
    assert!(cache.is_up_to_date("lovepotion-3DS.zip", 100));
    assert!(cache.is_up_to_date("lovepotion-3DS.zip", 99));
    assert!(!cache.is_up_to_date("lovepotion-3DS.zip", 101));
    cache.update("lovepotion-3DS.zip", 600, 200);
    assert!(cache.is_up_to_date("lovepotion-3DS.zip", 200));
    let entries = cache.entries();
    let reloaded = AssetCache::load(entries);
    assert!(reloaded.is_up_to_date("lovepotion-3DS.zip", 150));
    assert!(!reloaded.is_up_to_date("other", 0));
}

#[test]
fn asset_subfolders() {
    assert_eq!(RepoConfig::subfolder_for("lovepotion-3DS.zip"), "ctr");
    assert_eq!(RepoConfig::subfolder_for("lovepotion-Switch.zip"), "hac");
    assert_eq!(RepoConfig::subfolder_for("lovepotion-WiiU.zip"), "cafe");
    assert_eq!(RepoConfig::extracted_path("lovepotion-Switch.zip", "lovepotion.elf"), "resources/hac/lovepotion.elf");
    assert!(find_text("abc3DSdef", "3DS"));
    assert!(!find_text("3D", "3DS"));
    let repos = repositories();
    assert_eq!(repos[0].name, "bundler-assets");
    assert_eq!(repos[1].filter, Some("lovepotion.elf".to_string()));
}

#[test]
fn binaries_are_located() {
    assert_eq!(get_binary(Some("/opt/devkitpro"), "tex3ds"), "/opt/devkitpro/tools/bin/tex3ds");
    assert_eq!(get_binary(None, "tex3ds"), "tex3ds");
    assert_eq!(required_programs().len(), 8);
}

#[test]
fn environment_verdicts() {
    let names = vec!["a".to_string(), "b".to_string(), "c".to_string()];
    assert_eq!(environment_verdict(&names, &vec![true, true, true]), Ok(()));
    assert_eq!(environment_verdict(&names, &vec![true, false, false]), Err(vec!["b".to_string(), "c".to_string()]));
    if let Err(missing) = check_environment(Some("/nonexistent-root")) {
        let required = required_programs();
        assert!(!missing.is_empty());
        assert!(missing.iter().all(|m| required.contains(m)));
    }
}

#[test]
fn trace_lines() {
    let mut trace = Tracefile::new();
    assert_eq!(trace.bytes(), None);
    trace.info("2024-01-01 00:00:00.000", "started");
    trace.error("2024-01-01 00:00:01.000", "failed");
    assert_eq!(
        trace.bytes().unwrap(),
        b"[2024-01-01 00:00:00.000 INFO] started\n[2024-01-01 00:00:01.000 ERROR] failed\n".to_vec()
    );
    assert_eq!(Level::Info.name(), "INFO");
}
