use findapps::i18n::{current, init, set_language, t, tf, Language};
use findapps::models::{AppFilter, AppInfo, InstallMethod, SortBy};
use findapps::repositories::{
    apps_size_by_method, count_apps_by_method, remove_apps_with_id, AppRepository,
};
use findapps::services::normalize::{
    classify_system_apps, deduplicate_apps, enrich_icons, finalize_apps, icon_search_paths,
    normalize_key, resolve_icon_path,
};
use findapps::services::{AppConfig, SearchService};
use findapps::util::format::format_size;
use findapps::util::icons::{icon_theme_dir, logo_path};
use findapps::util::logging::{is_log_file, latest_log, recent_lines};

fn sample() -> AppInfo {
    let mut a = AppInfo::new(InstallMethod::Apt, "firefox", "Firefox");
    a.developer = Some("Mozilla".into());
    a.description = Some("Web browser".into());
    a.size_bytes = Some(1000);
    a
}

fn sample_apps() -> Vec<AppInfo> {
    let mut firefox = AppInfo::new(InstallMethod::Apt, "firefox", "Firefox");
    firefox.developer = Some("Mozilla".into());
    firefox.description = Some("Navegador web".into());
    firefox.version = Some("141.0".into());
    firefox.size_bytes = Some(245 * 1024 * 1024);

    let mut discord = AppInfo::new(InstallMethod::Flatpak, "com.discordapp.Discord", "Discord");
    discord.developer = Some("Discord Inc.".into());
    discord.version = Some("0.0.100".into());

    let mut vlc = AppInfo::new(InstallMethod::Snap, "vlc", "VLC");
    vlc.developer = Some("VideoLAN".into());

    vec![firefox, discord, vlc]
}

const EN: Language = Language::English;

#[test]
fn search_by_name_and_developer() {
    let mut repo = AppRepository::new();
    repo.extend(vec![sample()]);
    assert_eq!(repo.query(&AppFilter::All, "fire", SortBy::Name, EN).len(), 1);
    assert_eq!(repo.query(&AppFilter::All, "mozilla", SortBy::Name, EN).len(), 1);
    assert_eq!(repo.query(&AppFilter::All, "apt", SortBy::Name, EN).len(), 1);
    assert!(repo.query(&AppFilter::All, "zzz", SortBy::Name, EN).is_empty());
}

#[test]
fn filter_by_method() {
    let mut repo = AppRepository::new();
    repo.extend(vec![sample(), AppInfo::new(InstallMethod::Flatpak, "org.foo", "Foo")]);
    assert_eq!(
        repo.query(&AppFilter::Method(InstallMethod::Flatpak), "", SortBy::Name, EN).len(),
        1
    );
}

#[test]
fn finds_partial_names() {
    let mut repo = AppRepository::new();
    repo.extend(vec![
        AppInfo::new(InstallMethod::Apt, "firefox", "Firefox"),
        AppInfo::new(InstallMethod::Apt, "firefox-esr", "Firefox ESR"),
        AppInfo::new(InstallMethod::Flatpak, "org.mozilla.firefox", "Mozilla Firefox"),
    ]);
    let results = SearchService::search(&repo, "firefox", &AppFilter::All, SortBy::Name, EN);
    assert_eq!(results.len(), 3);
}

#[test]
fn search_and_filters() {
    let mut repo = AppRepository::new();
    repo.extend(sample_apps());

    let found = SearchService::search(&repo, "firefox", &AppFilter::All, SortBy::Name, EN);
    assert_eq!(found.len(), 1);

    let mozilla = SearchService::search(&repo, "mozilla", &AppFilter::All, SortBy::Name, EN);
    assert_eq!(mozilla.len(), 1);

    let apt = SearchService::search(&repo, "", &AppFilter::Method(InstallMethod::Apt), SortBy::Name, EN);
    assert_eq!(apt.len(), 1);

    let flatpak = SearchService::search(
        &repo,
        "discord",
        &AppFilter::Method(InstallMethod::Flatpak),
        SortBy::Name,
        EN,
    );
    assert_eq!(flatpak.len(), 1);
}

#[test]
fn sort_by_size() {
    let mut repo = AppRepository::new();
    repo.extend(sample_apps());
    let sorted = repo.query(&AppFilter::All, "", SortBy::Size, EN);
    assert_eq!(sorted[0].package_id, "firefox");
}

#[test]
fn sort_orders() {
    let mut repo = AppRepository::new();
    repo.extend(sample_apps());
    let by_name: Vec<String> = repo.query(&AppFilter::All, "", SortBy::Name, EN).into_iter().map(|a| a.name).collect();
    assert_eq!(by_name, vec!["Discord", "Firefox", "VLC"]);
    let by_method: Vec<String> = repo.query(&AppFilter::All, "", SortBy::Method, EN).into_iter().map(|a| a.name).collect();
    assert_eq!(by_method, vec!["Firefox", "Discord", "VLC"]);
}

#[test]
fn repository_read_after_write() {
    let mut repo = AppRepository::new();
    repo.extend(sample_apps());
    assert_eq!(repo.count(), 3);
    let mut newer = AppInfo::new(InstallMethod::Apt, "firefox", "Firefox Nightly");
    newer.size_bytes = Some(5);
    repo.extend(vec![newer]);
    assert_eq!(repo.count(), 3);
    assert_eq!(repo.get("apt:firefox").unwrap().name, "Firefox Nightly");
    assert_eq!(repo.get("snap:vlc").unwrap().name, "VLC");
    repo.remove_by_id("apt:firefox");
    assert!(repo.get("apt:firefox").is_none());
    assert_eq!(repo.get("snap:vlc").unwrap().name, "VLC");
    assert_eq!(repo.count_by_method(InstallMethod::Snap), 1);
    assert_eq!(repo.size_by_method(InstallMethod::Apt), 0);
    assert_eq!(repo.all().len(), 2);
    repo.clear();
    assert_eq!(repo.count(), 0);
}

#[test]
fn dedup_prefers_flatpak() {
    let mut apt = AppInfo::new(InstallMethod::Apt, "firefox", "Firefox");
    apt.desktop_id = Some("firefox.desktop".into());
    let mut flat = AppInfo::new(InstallMethod::Flatpak, "org.mozilla.firefox", "Firefox");
    flat.desktop_id = Some("firefox.desktop".into());
    let result = deduplicate_apps(vec![apt, flat]);
    assert_eq!(result.len(), 1);
    assert_eq!(result[0].method, InstallMethod::Flatpak);
}

#[test]
fn dedup_by_name_keeps_missing_fields() {
    let mut apt = AppInfo::new(InstallMethod::Apt, "gimp", "GIMP");
    apt.description = Some("Image editor".into());
    let snap = AppInfo::new(InstallMethod::Snap, "gimp", "Gimp");
    let x = AppInfo::new(InstallMethod::Manual, "/a/x.desktop", "X");
    let result = deduplicate_apps(vec![apt, snap, x]);
    assert_eq!(result.len(), 2);
    assert_eq!(result[0].method, InstallMethod::Snap);
    assert_eq!(result[0].description.as_deref(), Some("Image editor"));
    assert_eq!(result[1].name, "X");
}

#[test]
fn dedup_leaves_distinct_keys_and_desktops() {
    let mut a = AppInfo::new(InstallMethod::Apt, "foo", "Foo Editor");
    a.desktop_id = Some("foo.desktop".into());
    let mut b = AppInfo::new(InstallMethod::Snap, "foo-snap", "Other Name");
    b.desktop_id = Some("foo.desktop".into());
    let c = AppInfo::new(InstallMethod::Manual, "/x/foo.desktop", "foo editor!");
    let d = AppInfo::new(InstallMethod::AppImage, "/opt/Bar.AppImage", "Bar");
    let result = deduplicate_apps(vec![a, b, c, d]);
    let names: Vec<String> = result.iter().map(|r| normalize_key(&r.name)).collect();
    for i in 0..names.len() {
        for j in (i + 1)..names.len() {
            assert_ne!(names[i], names[j]);
        }
    }
    let desktops: Vec<&String> = result.iter().filter_map(|r| r.desktop_id.as_ref()).collect();
    assert_eq!(desktops.len(), 1);
    assert_eq!(result.len(), 3);
    assert_eq!(result[0].name, "Bar");
    assert_eq!(result[1].method, InstallMethod::Manual);
    assert_eq!(result[2].method, InstallMethod::Snap);
}

#[test]
fn classify_settings_as_system() {
    let mut app = AppInfo::new(InstallMethod::Apt, "gnome-control-center", "Configurações");
    app.category = Some("Settings".into());
    let mut apps = vec![app];
    classify_system_apps(&mut apps);
    assert_eq!(apps[0].method, InstallMethod::System);
    assert_eq!(apps[0].id, "system:gnome-control-center");
    assert_eq!(apps[0].origin.as_deref(), Some("Componente do sistema"));
}

#[test]
fn classify_keeps_flatpak() {
    let mut app = AppInfo::new(InstallMethod::Flatpak, "org.gnome.Settings", "Settings");
    app.category = Some("Settings".into());
    let mut apps = vec![app];
    classify_system_apps(&mut apps);
    assert_eq!(apps[0].method, InstallMethod::Flatpak);
}

#[test]
fn normalize_strips_noise() {
    assert_eq!(normalize_key("Fire-fox!"), "firefox");
}

#[test]
fn icon_lookup_order() {
    let paths = icon_search_paths("gimp", Some("/home/u"));
    assert_eq!(paths.len(), 210 + 6 + 12 + 6);
    assert_eq!(paths[0], "/usr/share/icons/hicolor/256x256/apps/gimp.png");
    assert_eq!(paths[1], "/usr/share/icons/hicolor/256x256/legacy/gimp.png");
    assert_eq!(paths[210], "/usr/share/pixmaps/gimp.png");
    assert_eq!(paths[216], "/home/u/.local/share/icons/hicolor/48x48/apps/gimp.png");
    assert_eq!(icon_search_paths("gimp", None).len(), 222);
    let found = resolve_icon_path(
        &Some("gimp.svg".to_string()),
        &None,
        None,
        &|p: &String| p == "/usr/share/pixmaps/gimp.xpm",
    );
    assert_eq!(found.as_deref(), Some("/usr/share/pixmaps/gimp.xpm"));
    let own = resolve_icon_path(&None, &Some("/opt/x.png".to_string()), None, &|_p: &String| true);
    assert_eq!(own.as_deref(), Some("/opt/x.png"));
    assert_eq!(resolve_icon_path(&Some("/nope.png".to_string()), &None, None, &|_p: &String| false), None);
}

#[test]
fn icons_filled_and_finalized() {
    let mut snap = AppInfo::new(InstallMethod::Snap, "vlc", "VLC");
    snap.icon_path = None;
    let mut apps = vec![snap];
    enrich_icons(&mut apps, None, &|p: &String| p == "/usr/share/pixmaps/vlc.png");
    assert_eq!(apps[0].icon_name.as_deref(), Some("vlc"));
    assert_eq!(apps[0].icon_path.as_deref(), Some("/usr/share/pixmaps/vlc.png"));
    let mut a = AppInfo::new(InstallMethod::Apt, "nautilus", "Files");
    a.desktop_id = Some("org.gnome.Nautilus.desktop".into());
    let out = finalize_apps(vec![a], None, &|_p: &String| false);
    assert_eq!(out[0].icon_name.as_deref(), Some("org.gnome.Nautilus"));
    assert_eq!(out[0].icon_path, None);
}

#[test]
fn app_icons_locations() {
    assert_eq!(icon_theme_dir(None, "/src", &|_p: &String| true), "/src/data/icons");
    assert_eq!(icon_theme_dir(Some("/snap/findapps/1"), "/src", &|_p: &String| true), "/snap/findapps/1/usr/share/icons");
    assert_eq!(icon_theme_dir(Some("/snap/findapps/1"), "/src", &|_p: &String| false), "/src/data/icons");
    assert_eq!(
        logo_path(None, "/src", &|p: &String| p == "/usr/share/findapps/br.com.findapps.FindApps.png"),
        "/usr/share/findapps/br.com.findapps.FindApps.png"
    );
    assert_eq!(logo_path(None, "/src", &|_p: &String| false), "/src/resources/icons/br.com.findapps.FindApps.png");
}

#[test]
fn default_is_english() {
    assert_eq!(Language::default(), Language::English);
    assert_eq!(Language::from_code("en").code(), "en");
}

#[test]
fn translates_home() {
    let mut setting = Language::default();
    set_language(&mut setting, Language::English);
    assert_eq!(t(current(&setting), "home"), "Home");
    set_language(&mut setting, Language::Portuguese);
    assert_eq!(t(current(&setting), "home"), "Início");
    set_language(&mut setting, Language::Chinese);
    assert_eq!(t(current(&setting), "home"), "主页");
    set_language(&mut setting, Language::Russian);
    assert_eq!(t(current(&setting), "home"), "Главная");
    set_language(&mut setting, Language::English);
}

#[test]
fn language_codes_round_trip() {
    for l in Language::all() {
        assert_eq!(Language::from_code(l.code()), l);
        assert_eq!(Language::from_code(&l.code().to_uppercase()), l);
    }
    assert_eq!(Language::from_code("pt_BR"), Language::Portuguese);
    assert_eq!(Language::from_code("klingon"), Language::English);
    let mut setting = Language::Hindi;
    init(&mut setting, Language::Arabic);
    assert_eq!(current(&setting), Language::Arabic);
}

#[test]
fn templates_and_unknown_keys() {
    assert_eq!(t(Language::English, "no_such_key"), "no_such_key");
    assert_eq!(tf(Language::English, "home", &[]), t(Language::English, "home"));
    assert_eq!(tf(Language::English, "no {x} here {x}", &[("x", "1")]), "no 1 here 1");
}

#[test]
fn formats_megabytes() {
    assert_eq!(format_size(245 * 1024 * 1024), "245.0 MB");
}

#[test]
fn formats_gigabytes() {
    assert_eq!(format_size(12_400_000_000), "11.5 GB");
}

#[test]
fn formats_small_and_rounding() {
    assert_eq!(format_size(0), "0 B");
    assert_eq!(format_size(1023), "1023 B");
    assert_eq!(format_size(1024), "1.0 KB");
    assert_eq!(format_size(1024 + 256), format!("{:.1} KB", 1280.0f64 / 1024.0));
    assert_eq!(format_size(1024 + 768), format!("{:.1} KB", 1792.0f64 / 1024.0));
    assert_eq!(format_size(1_048_575), format!("{:.1} KB", 1_048_575.0f64 / 1024.0));
    for b in [5_000u64, 77_777, 3_000_000, 987_654_321, 5_555_555_555_555] {
        let f = b as f64;
        let expected = if f >= 1073741824.0 {
            format!("{:.1} GB", f / 1073741824.0)
        } else if f >= 1048576.0 {
            format!("{:.1} MB", f / 1048576.0)
        } else {
            format!("{:.1} KB", f / 1024.0)
        };
        assert_eq!(format_size(b), expected);
    }
}

#[test]
fn log_files() {
    assert!(is_log_file("findapps.log.2024-05-01"));
    assert!(!is_log_file("other.log"));
    let names = vec![
        "findapps.log.2024-05-01".to_string(),
        "notes.txt".to_string(),
        "findapps.log.2024-05-03".to_string(),
        "findapps.log.2024-05-02".to_string(),
    ];
    assert_eq!(latest_log(&names), Some(2));
    assert_eq!(latest_log(&vec!["a".to_string()]), None);
    assert_eq!(recent_lines("a\nb\nc\n", 2), "b\nc");
    assert_eq!(recent_lines("a\nb", 5), "a\nb");
}

#[test]
fn config_defaults() {
    let c = AppConfig::with_appimage_dirs(vec!["/x".to_string()]);
    assert_eq!(c.language, "en");
    assert!(!c.show_system_components);
    assert_eq!(c.language_enum(), Language::English);
    let d = AppConfig::default();
    assert_eq!(d.appimage_dirs.last().map(|s| s.as_str()), Some("/opt"));
}

fn placeholder_names(s: &str) -> Vec<String> {
    let mut names = Vec::new();
    let mut rest = s;
    while let Some(open) = rest.find('{') {
        let after = &rest[open + 1..];
        match after.find(|c| c == '}' || c == '{') {
            Some(end) if after[end..].starts_with('}') && end > 0 => {
                names.push(after[..end].to_string());
                rest = &after[end + 1..];
            }
            _ => rest = after,
        }
    }
    names.sort();
    names.dedup();
    names
}

#[test]
fn catalog_placeholders_agree_across_languages() {
    let keys = [
        "home", "all", "all_apps", "settings", "system", "manual",
        "apps_installed", "apps_count", "apps_count_paren", "searching_apps", "searching_method", "method_count",
        "scan_done_toast", "apps_found", "by_method", "space_used", "search_placeholder", "sort",
        "sort_name", "sort_size", "sort_date", "sort_method", "sort_update", "no_apps",
        "no_apps_method", "no_apps_filter", "no_apps_search", "done", "in_progress", "error",
        "unavailable", "pending", "details", "information", "installation", "version",
        "type", "type_app", "architecture", "status", "category", "description",
        "method", "origin", "location", "size", "date", "package",
        "uninstall", "uninstall_confirm_title", "uninstall_confirm_body", "cancel", "close", "uninstalled",
        "failure", "interrupted", "about", "about_desc", "identifier", "license",
        "language", "language_desc", "language_updated", "tagline", "about_body", "about_features",
        "status_installed", "status_update", "status_broken", "status_unknown", "backend_available", "backend_unavailable",
        "backend_detectable",
    ];
    for key in keys {
        let english = placeholder_names(&t(Language::English, key));
        for lang in Language::all() {
            assert_eq!(placeholder_names(&t(lang, key)), english, "{key} in {}", lang.code());
        }
    }
    assert_eq!(
        placeholder_names(&t(Language::Hindi, "uninstall_confirm_body")),
        vec!["details".to_string(), "method".to_string(), "name".to_string()]
    );
}

#[test]
fn ascii_keys_and_codes_ignore_case() {
    let k = normalize_key("Visual Studio-Code 2");
    assert_eq!(k, "visualstudiocode2");
    assert_eq!(normalize_key(&k), k);
    assert_eq!(Language::from_code("PT-BR"), Language::Portuguese);
    assert_eq!(Language::from_code("Zh_CN"), Language::Chinese);
    assert_eq!(Language::from_code("fr"), Language::English);
    assert_eq!(Language::from_code(""), Language::English);
}

#[test]
fn dedup_keeps_the_preferred_record_per_name() {
    let apps = vec![
        AppInfo::new(InstallMethod::Manual, "/x/gimp.desktop", "GIMP"),
        AppInfo::new(InstallMethod::Apt, "gimp", "Gimp"),
        AppInfo::new(InstallMethod::AppImage, "/o/Gimp.AppImage", "gimp"),
        AppInfo::new(InstallMethod::Snap, "vlc", "VLC"),
    ];
    let result = deduplicate_apps(apps);
    assert_eq!(result.len(), 2);
    assert_eq!(result[0].method, InstallMethod::Apt);
    assert_eq!(result[1].method, InstallMethod::Snap);
}

#[test]
fn size_totals_checked() {
    let mut repo = AppRepository::new();
    let mut a = AppInfo::new(InstallMethod::Apt, "a", "A");
    a.size_bytes = Some(u64::MAX);
    let mut b = AppInfo::new(InstallMethod::Apt, "b", "B");
    b.size_bytes = Some(1);
    let mut c = AppInfo::new(InstallMethod::Snap, "c", "C");
    c.size_bytes = Some(5);
    repo.extend(vec![a, b, c]);
    assert_eq!(repo.size_by_method_checked(InstallMethod::Apt), None);
    assert_eq!(repo.size_by_method_checked(InstallMethod::Snap), Some(5));
}

#[test]
fn plain_list_operations() {
    let mut a = AppInfo::new(InstallMethod::Apt, "a", "A");
    a.size_bytes = Some(10);
    let mut b = AppInfo::new(InstallMethod::Apt, "b", "B");
    b.size_bytes = Some(u64::MAX);
    let c = AppInfo::new(InstallMethod::Snap, "c", "C");
    let mut apps = vec![a, b, c];
    assert_eq!(count_apps_by_method(&apps, InstallMethod::Apt), 2);
    assert_eq!(apps_size_by_method(&apps, InstallMethod::Apt), None);
    assert_eq!(apps_size_by_method(&apps, InstallMethod::Snap), Some(0));
    remove_apps_with_id(&mut apps, "apt:b");
    assert_eq!(apps.len(), 2);
    assert_eq!(apps_size_by_method(&apps, InstallMethod::Apt), Some(10));
    assert_eq!(apps[1].id, "snap:c");
}
