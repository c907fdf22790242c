use findapps::backends::appimage::{
    appimage_desktop_dirs,
    appinfo_from_path, check_removal as check_appimage_removal, enrich_from_desktop_content,
    extract_appimage_exec, is_valid_appimage, split_name_version, AppImageBackend, AppImageScan,
};
use findapps::backends::apt::{
    apt_cache_candidates, enrich_from_apt_show, enrich_from_desktop_entry, humanize_name,
    is_library_package, looks_like_app_package, parse_desktop_owners, parse_dpkg_listing,
    AptBackend,
};
use findapps::backends::dnf::{is_rpm_library, looks_like_app, parse_rpm_listing, rpm_owner, DnfBackend};
use findapps::backends::flatpak::{flatpak_version, parse_flatpak_list, parse_flatpak_size, FlatpakBackend};
use findapps::backends::manual::{
    check_removal as check_manual_removal, is_user_facing_app, parse_desktop_to_app, ManualBackend,
};
use findapps::backends::mock::{mock_registry, MockBackend};
use findapps::backends::snap::{parse_snap_list, snap_version, SnapBackend};
use findapps::backends::{
    first_line, install_not_supported, no_updates, pick_installed, update_not_supported,
};
use findapps::i18n::Language;
use findapps::models::{AppInfo, BackendError, InstallMethod};

#[test]
fn split_version() {
    let (n, v) = split_name_version("Discord-0.0.100-x86_64");
    assert_eq!(n, "Discord");
    assert_eq!(v.as_deref(), Some("0.0.100"));
}

#[test]
fn split_version_without_number() {
    let (n, v) = split_name_version("My-Tool.AppImage");
    assert_eq!(n, "My Tool");
    assert_eq!(v, None);
}

#[test]
fn library_filter() {
    assert!(is_library_package("libgtk-4-1"));
    assert!(is_library_package("python3-gi"));
    assert!(!is_library_package("firefox"));
}

#[test]
fn mod_library_filter() {
    assert!(is_rpm_library("libfoo"));
    assert!(!is_rpm_library("firefox"));
}

#[test]
fn parse_sizes() {
    assert_eq!(parse_flatpak_size("245 MB"), Some(245 * 1_048_576));
    assert_eq!(parse_flatpak_size("1.5 GB"), Some((1.5 * 1_073_741_824.0) as u64));
}

#[test]
fn parse_sizes_other_forms() {
    assert_eq!(parse_flatpak_size("12 kB"), Some(12 * 1024));
    assert_eq!(parse_flatpak_size("1,5 GB"), Some(1_610_612_736));
    assert_eq!(parse_flatpak_size("300 B"), Some(300));
    assert_eq!(parse_flatpak_size("2G"), Some(2 * 1_073_741_824));
    assert_eq!(parse_flatpak_size("4096"), Some(4096));
    assert_eq!(parse_flatpak_size("0.1 MB"), Some((0.1 * 1_048_576.0) as u64));
    assert_eq!(parse_flatpak_size("-3 MB"), Some(0));
    assert_eq!(parse_flatpak_size("inf GB"), Some(u64::MAX));
    assert_eq!(parse_flatpak_size("1e3 kB"), Some(1_024_000));
    assert_eq!(parse_flatpak_size("unknown"), None);
    assert_eq!(parse_flatpak_size("x MB"), None);
    assert_eq!(parse_flatpak_size("1.5"), None);
}

#[test]
fn skips_nodisplay() {
    let content = "[Desktop Entry]\nType=Application\nName=Secret\nExec=secret\nNoDisplay=true\n";
    assert!(!is_user_facing_app(content));
}

#[test]
fn accepts_user_facing_entry() {
    let content = "[Desktop Entry]\nType=Application\nName=Tool\nExec=tool --run\n";
    assert!(is_user_facing_app(content));
    assert!(!is_user_facing_app("[Desktop Entry]\nName=Tool\n"));
}

#[test]
fn finds_manual_desktop() {
    let content = "[Desktop Entry]\nType=Application\nName=My Cool App\nExec=/opt/mycool/app\nComment=Test\nCategories=Utility;\n\n";
    let app = parse_desktop_to_app("/tmp/x/MyCoolApp.desktop", content).unwrap();
    assert_eq!(app.name, "My Cool App");
    assert_eq!(app.method, InstallMethod::Manual);
    assert_eq!(app.category.as_deref(), Some("Utility"));
    assert_eq!(app.install_path.as_deref(), Some("/opt/mycool/app"));
    assert_eq!(app.desktop_id.as_deref(), Some("MyCoolApp.desktop"));
    assert_eq!(app.description.as_deref(), Some("Test"));
    assert_eq!(app.origin.as_deref(), Some("Instalação manual / local"));
}

#[test]
fn manual_entry_prefers_portuguese_name() {
    let content = "[Desktop Entry]\nName=Calculator\nName[pt_BR]=Calculadora\nExec=calc\nIcon=/usr/share/calc.png\nStartupWMClass=calc\n";
    let app = parse_desktop_to_app("/usr/share/applications/calc.desktop", content).unwrap();
    assert_eq!(app.name, "Calculadora");
    assert_eq!(app.icon_path.as_deref(), Some("/usr/share/calc.png"));
    assert_eq!(app.icon_name, None);
    assert_eq!(app.developer.as_deref(), Some("calc"));
    assert!(parse_desktop_to_app("/a.desktop", "[Desktop Entry]\nExec=x\n").is_none());
}

#[test]
fn manual_claims_and_candidates() {
    let backend = ManualBackend::with_claims(
        vec!["firefox.desktop".to_string()],
        vec!["/usr/bin/firefox".to_string(), "vlc".to_string()],
    );
    assert!(!backend.is_candidate("/usr/share/applications/firefox.desktop"));
    assert!(!backend.is_candidate("/usr/share/applications/org.gnome.flatpak.desktop"));
    assert!(!backend.is_candidate("/usr/share/applications/snap.vlc.desktop"));
    assert!(!backend.is_candidate("/usr/share/applications/readme.txt"));
    assert!(backend.is_candidate("/usr/share/applications/gimp.desktop"));
    let entry = "[Desktop Entry]\nType=Application\nName=VLC\nExec=/usr/bin/vlc %U\n";
    assert!(backend.app_from_entry("/x/vlc.desktop", entry).is_none());
    let appimage = "[Desktop Entry]\nType=Application\nName=Foo\nExec=/home/u/Foo.AppImage\n";
    assert!(backend.app_from_entry("/x/foo.desktop", appimage).is_none());
    let free = "[Desktop Entry]\nType=Application\nName=Bar\nExec=/opt/bar/bar\n";
    let app = backend.app_from_entry("/x/bar.desktop", free).unwrap();
    assert_eq!(app.package_id, "/x/bar.desktop");
    assert_eq!(app.id, "manual:/x/bar.desktop");
    let mut b = ManualBackend::new();
    assert_eq!(b.id(), InstallMethod::Manual);
    b.set_claims(vec!["gimp.desktop".to_string()], vec![]);
    assert!(!b.is_candidate("/usr/share/applications/gimp.desktop"));
}

#[test]
fn manual_removal_rules() {
    assert!(check_manual_removal("/home/u/.local/share/applications/x.desktop", Some("/home/u")).is_ok());
    assert!(matches!(
        check_manual_removal("/usr/share/applications/x.desktop", Some("/home/u")),
        Err(BackendError::PermissionDenied(_))
    ));
    assert!(matches!(
        check_manual_removal("/home/u/.local/share/applications/x.txt", Some("/home/u")),
        Err(BackendError::PermissionDenied(_))
    ));
    assert!(matches!(check_manual_removal("/x.desktop", None), Err(BackendError::Other(_))));
}

#[test]
fn rejects_non_elf() {
    assert!(!is_valid_appimage("/tmp/fake.AppImage", true, Some(0o755), Some(*b"not ")));
}

#[test]
fn accepts_elf_appimage() {
    assert!(is_valid_appimage("/tmp/Foo-1.0.AppImage", true, Some(0o755), Some([0x7f, b'E', b'L', b'F'])));
}

#[test]
fn appimage_needs_name_file_and_exec_bits() {
    let elf = Some([0x7f, b'E', b'L', b'F']);
    assert!(!is_valid_appimage("/tmp/Foo.bin", true, Some(0o755), elf));
    assert!(!is_valid_appimage("/tmp/Foo.AppImage", false, Some(0o755), elf));
    assert!(!is_valid_appimage("/tmp/Foo.AppImage", true, Some(0o644), elf));
    assert!(!is_valid_appimage("/tmp/Foo.AppImage", true, Some(0o755), None));
    assert!(is_valid_appimage("/tmp/foo.appimage", true, Some(0o700), elf));
}

#[test]
fn list_from_temp_dir() {
    let app = appinfo_from_path("/tmp/t/TestApp-2.0.AppImage", Some(8), Some((1_700_000_000, 5)), "x86_64");
    assert_eq!(app.method, InstallMethod::AppImage);
    assert_eq!(app.name, "TestApp");
    assert_eq!(app.version.as_deref(), Some("2.0"));
    assert_eq!(app.package_id, "/tmp/t/TestApp-2.0.AppImage");
    assert_eq!(app.size_bytes, Some(8));
    assert_eq!(app.install_date, Some((1_700_000_000, 5)));
    assert_eq!(app.architecture.as_deref(), Some("x86_64"));
    let mut scan = AppImageScan::new();
    assert!(scan.add_found(app.clone()));
    assert!(!scan.add_found(app));
    assert_eq!(scan.into_apps().len(), 1);
}

#[test]
fn appimage_desktop_entries() {
    let content = "[Desktop Entry]\nName=Tool Pro\nExec=/home/u/Apps/Tool-1.2.AppImage --no-sandbox\nIcon=tool\nCategories=;Graphics;\nComment=Edits\n";
    assert_eq!(extract_appimage_exec(content).as_deref(), Some("/home/u/Apps/Tool-1.2.AppImage"));
    assert_eq!(extract_appimage_exec("Exec=/usr/bin/tool\n"), None);
    assert_eq!(extract_appimage_exec("Exec=\nExec=/a/B.AppImage\n"), None);
    let mut scan = AppImageScan::new();
    let found = appinfo_from_path("/home/u/Apps/Tool-1.2.AppImage", None, None, "x86_64");
    scan.add_found(found.clone());
    scan.add_from_desktop(found, content, "/home/u/.local/share/applications/tool.desktop");
    let apps = scan.into_apps();
    assert_eq!(apps.len(), 1);
    assert_eq!(apps[0].name, "Tool Pro");
    assert_eq!(apps[0].icon_name.as_deref(), Some("tool"));
    assert_eq!(apps[0].category.as_deref(), Some("Graphics"));
    assert_eq!(apps[0].description.as_deref(), Some("Edits"));
    assert_eq!(apps[0].desktop_id.as_deref(), Some("tool.desktop"));
    let mut other = appinfo_from_path("/opt/X.AppImage", None, None, "aarch64");
    enrich_from_desktop_content(&mut other, "Name=X Editor\nIcon=/opt/x.png\n", "/usr/share/applications/x.desktop");
    assert_eq!(other.name, "X Editor");
    assert_eq!(other.icon_path.as_deref(), Some("/opt/x.png"));
}

#[test]
fn appimage_removal_rules() {
    assert!(check_appimage_removal("/home/u/Apps/A.AppImage", true, Some("/home/u")).is_ok());
    assert!(matches!(
        check_appimage_removal("/home/u/Apps/A.AppImage", false, Some("/home/u")),
        Err(BackendError::NotFound(_))
    ));
    assert!(matches!(
        check_appimage_removal("/opt/A.AppImage", true, Some("/home/u")),
        Err(BackendError::PermissionDenied(_))
    ));
    assert!(matches!(
        check_appimage_removal("relative.AppImage", true, Some("/home/u")),
        Err(BackendError::InvalidPackageId(_))
    ));
    let backend = AppImageBackend::with_dirs(vec!["/data".to_string()]);
    assert_eq!(backend.search_dirs(), &vec!["/data".to_string()]);
    assert_eq!(backend.id(), InstallMethod::AppImage);
}

#[test]
fn apt_names_and_titles() {
    assert!(looks_like_app_package("firefox"));
    assert!(looks_like_app_package("firefox-esr"));
    assert!(!looks_like_app_package("firefoxy"));
    assert_eq!(humanize_name("obs-studio"), "Obs Studio");
    assert_eq!(humanize_name("gnome--calculator"), "Gnome Calculator");
    assert_eq!(AptBackend::new().id(), InstallMethod::Apt);
}

#[test]
fn apt_dpkg_listing() {
    let owners = parse_desktop_owners(
        "firefox: /usr/share/applications/firefox.desktop\ngimp, gimp-data: /usr/share/applications/gimp.desktop\nbroken line\n",
    );
    assert_eq!(owners.len(), 2);
    assert_eq!(owners[1], ("/usr/share/applications/gimp.desktop".to_string(), "gimp".to_string()));
    let pkgs: Vec<String> = owners.iter().map(|(_, p)| p.clone()).collect();
    let listing = "firefox\t128.0\tamd64\t250000\tinstall ok installed\n\
libgtk-4-1\t4.14\tamd64\t100\tinstall ok installed\n\
vlc\t3.0\tamd64\t10\tdeinstall ok config-files not-installed\n\
gimp\t2.10\tamd64\t20\tinstall ok installed\n\
libreoffice-writer\t7.6\tamd64\t9\tinstall ok installed\n\
obs-studio\t30\tamd64\tx\tinstall ok installed\n";
    let apps = parse_dpkg_listing(listing, &pkgs);
    assert_eq!(apps.len(), 3);
    assert_eq!(apps[0].package_id, "firefox");
    assert_eq!(apps[0].size_bytes, Some(250000 * 1024));
    assert_eq!(apps[0].origin.as_deref(), Some("Repositório APT"));
    assert_eq!(apps[0].install_path.as_deref(), Some("/usr"));
    assert_eq!(apps[1].name, "Gimp");
    assert_eq!(apps[2].name, "Obs Studio");
    assert_eq!(apps[2].size_bytes, None);
}

#[test]
fn apt_enrichment() {
    let mut app = AppInfo::new(InstallMethod::Apt, "gimp", "Gimp");
    enrich_from_desktop_entry(
        &mut app,
        "/usr/share/applications/gimp.desktop",
        "[Desktop Entry]\nName=GNU Image Manipulation Program\nIcon=gimp\nCategories=Application;Graphics;\n",
    );
    assert_eq!(app.name, "GNU Image Manipulation Program");
    assert_eq!(app.category.as_deref(), Some("Graphics"));
    assert_eq!(app.desktop_id.as_deref(), Some("gimp.desktop"));
    let mut hidden = AppInfo::new(InstallMethod::Apt, "x", "X");
    enrich_from_desktop_entry(&mut hidden, "/a/x.desktop", "Name=Y\nNoDisplay=true\n");
    assert_eq!(hidden.name, "X");
    let mut a = AppInfo::new(InstallMethod::Apt, "vlc", "Vlc");
    a.origin = Some("Repositório APT".to_string());
    enrich_from_apt_show(
        &mut a,
        "Package: vlc\nMaintainer: Debian Team <team@debian.org>\nSection: video\nHomepage: https://videolan.org\nDescription: multimedia player\n and streamer\n .\n for all\nTag: x\n",
    );
    assert_eq!(a.developer.as_deref(), Some("Debian Team"));
    assert_eq!(a.category.as_deref(), Some("video"));
    assert_eq!(a.description.as_deref(), Some("multimedia player and streamer for all"));
    assert_eq!(a.origin.as_deref(), Some("APT · https://videolan.org"));
    let mut b = AppInfo::new(InstallMethod::Apt, "vlc", "Vlc");
    enrich_from_apt_show(&mut b, "Description-pt_BR: reprodutor\nDescription: player\n");
    assert_eq!(b.description.as_deref(), Some("reprodutor"));
    let mut many = Vec::new();
    for i in 0..100 {
        many.push(AppInfo::new(InstallMethod::Apt, &format!("p{i}"), "P"));
    }
    many[3].description = Some("d".to_string());
    many[3].developer = Some("e".to_string());
    let picked = apt_cache_candidates(&many);
    assert_eq!(picked.len(), 80);
    assert_eq!(picked[3], "p4");
}

#[test]
fn dnf_listing() {
    assert!(looks_like_app("steam"));
    assert!(!looks_like_app("audacity"));
    let listing = "firefox\t128.0-1.fc40\tx86_64\t260000000\tMozilla Firefox\n\
libfoo\t1-1\tx86_64\t10\tlib\n\
nautilus\t46-1\tx86_64\t5000\tFiles\n\
short\trow\n";
    let apps = parse_rpm_listing(listing, &vec!["nautilus".to_string()]);
    assert_eq!(apps.len(), 2);
    assert_eq!(apps[0].version.as_deref(), Some("128.0-1.fc40"));
    assert_eq!(apps[0].size_bytes, Some(260000000));
    assert_eq!(apps[0].description.as_deref(), Some("Mozilla Firefox"));
    assert_eq!(apps[1].name, "Nautilus");
    assert_eq!(rpm_owner("nautilus\n").as_deref(), Some("nautilus"));
    assert_eq!(rpm_owner("file /x is not owned by any package\n"), None);
    assert_eq!(DnfBackend::new().id(), InstallMethod::Dnf);
}

#[test]
fn snap_listing() {
    let out = "Name  Version  Rev  Tracking  Publisher  Notes\n\
core22  20240111  1122  latest/stable  canonical*  base\n\
vlc  3.0.20  3777  latest/stable  videolan*  -\n\
bare  1.0  5  latest/stable  canonical*  base\n\
tiny  1\n";
    let apps = parse_snap_list(out);
    assert_eq!(apps.len(), 1);
    assert_eq!(apps[0].name, "Vlc");
    assert_eq!(apps[0].origin.as_deref(), Some("latest/stable"));
    assert_eq!(apps[0].developer.as_deref(), Some("videolan -"));
    assert_eq!(apps[0].install_path.as_deref(), Some("/snap/vlc"));
    assert_eq!(snap_version("snapd 2.61\nsnap    2.61.2\n").as_deref(), Some("snap    2.61.2"));
    assert_eq!(snap_version("other\n").as_deref(), Some("other"));
    assert_eq!(SnapBackend::new().id(), InstallMethod::Snap);
}

#[test]
fn flatpak_listing() {
    let out = "org.mozilla.firefox\tFirefox\t128.0\tstable\tflathub\tsystem\t250 MB\tx86_64\n\
com.example.App\t\t\tstable\n\
\tNameless\n";
    let apps = parse_flatpak_list(out);
    assert_eq!(apps.len(), 2);
    assert_eq!(apps[0].name, "Firefox");
    assert_eq!(apps[0].developer.as_deref(), Some("org.mozilla"));
    assert_eq!(apps[0].install_path.as_deref(), Some("flatpak:system"));
    assert_eq!(apps[0].size_bytes, Some(250 * 1_048_576));
    assert_eq!(apps[1].name, "com.example.App");
    assert_eq!(apps[1].version, None);
    assert_eq!(apps[1].origin, None);
    assert_eq!(flatpak_version(" Flatpak 1.14.4\n"), "Flatpak 1.14.4");
    assert_eq!(FlatpakBackend::new().id(), InstallMethod::Flatpak);
}

#[test]
fn version_lines_and_lookup() {
    assert_eq!(first_line("dpkg 1.22\nmore\n").as_deref(), Some("dpkg 1.22"));
    assert_eq!(first_line(""), None);
    let apps = vec![
        AppInfo::new(InstallMethod::Apt, "vim", "Vim"),
        AppInfo::new(InstallMethod::Apt, "vlc", "VLC"),
    ];
    assert_eq!(pick_installed(apps.clone(), "vlc", false).unwrap().name, "VLC");
    assert_eq!(pick_installed(apps.clone(), "apt:vim", true).unwrap().name, "Vim");
    assert!(matches!(pick_installed(apps, "apt:vim", false), Err(BackendError::NotFound(s)) if s == "apt:vim"));
    assert!(matches!(install_not_supported(), Err(BackendError::Unsupported(_))));
    assert!(matches!(update_not_supported(), Err(BackendError::Unsupported(_))));
    assert!(no_updates().unwrap().is_empty());
}

fn sample_apps() -> Vec<AppInfo> {
    let mut firefox = AppInfo::new(InstallMethod::Apt, "firefox", "Firefox");
    firefox.developer = Some("Mozilla".into());
    firefox.description = Some("Navegador web".into());
    firefox.version = Some("141.0".into());
    firefox.size_bytes = Some(245 * 1024 * 1024);

    let mut discord = AppInfo::new(InstallMethod::Flatpak, "com.discordapp.Discord", "Discord");
    discord.developer = Some("Discord Inc.".into());
    discord.version = Some("0.0.100".into());

    let mut vlc = AppInfo::new(InstallMethod::Snap, "vlc", "VLC");
    vlc.developer = Some("VideoLAN".into());

    vec![firefox, discord, vlc]
}

#[test]
fn mock_detect_available_and_unavailable() {
    let ok = MockBackend::new(InstallMethod::Apt, true);
    let status = ok.detect(Language::English);
    assert!(status.is_usable());

    let missing = MockBackend::new(InstallMethod::Dnf, false);
    let status = missing.detect(Language::English);
    assert!(!status.is_usable());
    assert!(!missing.is_available());
}

#[test]
fn mock_list_and_get_details() {
    let backend = MockBackend::with_apps(InstallMethod::Apt, sample_apps());
    let apps = backend.list_installed().unwrap();
    assert_eq!(apps.len(), 3);

    let details = backend.get_details("firefox").unwrap();
    assert_eq!(details.name, "Firefox");
}

#[test]
fn mock_uninstall_and_permission_error() {
    let mut backend = MockBackend::with_apps(
        InstallMethod::Apt,
        vec![AppInfo::new(InstallMethod::Apt, "firefox", "Firefox")],
    );
    backend.uninstall("firefox").unwrap();
    assert!(backend.list_installed().unwrap().is_empty());

    let mut denied = MockBackend::with_apps(
        InstallMethod::Apt,
        vec![AppInfo::new(InstallMethod::Apt, "vim", "Vim")],
    )
    .with_permission_denied();
    let err = denied.uninstall("vim").unwrap_err();
    assert!(matches!(err, BackendError::PermissionDenied(_)));
}

#[test]
fn install_and_update_are_stubbed() {
    let backend = MockBackend::new(InstallMethod::Apt, true);
    let err = backend.install("firefox").unwrap_err();
    assert!(matches!(err, BackendError::Unsupported(_)));
    let err = backend.update("firefox").unwrap_err();
    assert!(matches!(err, BackendError::Unsupported(_)));
    assert!(backend.check_updates().unwrap().is_empty());
}

#[test]
fn mock_uninstall_unknown_and_add() {
    let mut backend = MockBackend::new(InstallMethod::Snap, true);
    backend.add_app(AppInfo::new(InstallMethod::Snap, "vlc", "VLC"));
    assert!(matches!(backend.uninstall("zzz"), Err(BackendError::NotFound(_))));
    assert_eq!(backend.list_installed().unwrap().len(), 1);
    backend.uninstall("snap:vlc").unwrap();
    assert!(backend.list_installed().unwrap().is_empty());
}

#[test]
fn missing_backend_does_not_panic() {
    let backend = MockBackend::new(InstallMethod::Snap, false);
    let err = backend.list_installed().unwrap_err();
    assert!(matches!(err, BackendError::Unavailable));
}

#[test]
fn backend_identification() {
    let backends = vec![
        MockBackend::new(InstallMethod::Apt, true),
        MockBackend::new(InstallMethod::Flatpak, true),
        MockBackend::new(InstallMethod::Snap, false),
    ];
    let ids: Vec<_> = backends.iter().map(|b| b.id()).collect();
    assert_eq!(ids, vec![InstallMethod::Apt, InstallMethod::Flatpak, InstallMethod::Snap]);
    assert!(backends[0].is_available());
    assert!(!backends[2].is_available());
}

#[test]
fn appimage_desktop_directories() {
    assert_eq!(
        appimage_desktop_dirs(Some("/home/ana")),
        vec![
            "/home/ana/.local/share/applications".to_string(),
            "/usr/share/applications".to_string(),
            "/usr/local/share/applications".to_string(),
        ]
    );
    assert_eq!(
        appimage_desktop_dirs(None),
        vec!["/usr/share/applications".to_string(), "/usr/local/share/applications".to_string()]
    );
}

#[test]
fn mock_registry_starts_empty() {
    assert!(mock_registry().is_empty());
}
