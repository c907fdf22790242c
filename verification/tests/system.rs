use findapps::models::{AppInfo, BackendAvailability, BackendError, BackendStatus, InstallMethod};
use findapps::i18n::Language;
use findapps::services::package_manager::{
    backend_order, collect_claims, describe_uninstall as describe_app_uninstall,
    add_method, backend_finished, finished_ui_status, merge_found, moves_to_next_backend,
    system_removal_failed, system_removal_methods, tries_system_removal, usable_methods, ScanEvent,
    ScanUiStatus,
};
use findapps::system::distro::{classify, DistroFamily, DistroInfo};
use findapps::system::paths::{appimage_dirs_for, join_path};
use findapps::system::privilege::{
    after_removal_command, describe_uninstall, uninstall_commands, RemovalStep,
};
use findapps::util::validation::{id_verdict, validate_package_id};

#[test]
fn detects_ubuntu() {
    let content = "NAME=\"Ubuntu\"\nID=ubuntu\nID_LIKE=debian\nVERSION_ID=\"24.04\"\n";
    let info = DistroInfo::from_os_release(content);
    assert_eq!(info.family, DistroFamily::Debian);
    assert!(info.prefers_apt());
    assert_eq!(info.name, "Ubuntu");
    assert_eq!(info.version_id.as_deref(), Some("24.04"));
}

#[test]
fn detects_fedora() {
    let content = "NAME=\"Fedora Linux\"\nID=fedora\nVERSION_ID=40\n";
    let info = DistroInfo::from_os_release(content);
    assert_eq!(info.family, DistroFamily::Fedora);
    assert!(info.prefers_dnf());
}

#[test]
fn distro_classification() {
    let info = DistroInfo::from_os_release("ID=ubuntu\nID_LIKE=debian\nNAME=Ubuntu\n");
    assert_eq!(info.family, DistroFamily::Debian);
}

#[test]
fn distro_families_and_unknown() {
    assert_eq!(classify("manjaro", &vec![]), DistroFamily::Arch);
    assert_eq!(classify("weird", &vec!["rhel".to_string(), "fedora".to_string()]), DistroFamily::Fedora);
    assert_eq!(classify("opensuse-leap", &vec![]), DistroFamily::Suse);
    assert_eq!(classify("nixos", &vec![]), DistroFamily::Other);
    let unknown = DistroInfo::detect(None);
    assert_eq!(unknown.id, "unknown");
    assert_eq!(unknown.name, "Linux");
    assert_eq!(unknown.family, DistroFamily::Other);
    assert!(!unknown.prefers_apt() && !unknown.prefers_dnf());
}

#[test]
fn accepts_valid_apt_id() {
    assert!(validate_package_id(InstallMethod::Apt, "firefox").is_ok());
    assert!(validate_package_id(InstallMethod::Apt, "libgtk-4-1").is_ok());
}

#[test]
fn rejects_injection() {
    assert!(validate_package_id(InstallMethod::Apt, "firefox; rm -rf /").is_err());
    assert!(validate_package_id(InstallMethod::Apt, "foo && bar").is_err());
    assert!(validate_package_id(InstallMethod::Apt, "$(whoami)").is_err());
}

#[test]
fn accepts_flatpak_ref() {
    assert!(validate_package_id(InstallMethod::Flatpak, "org.mozilla.firefox").is_ok());
}

#[test]
fn package_id_validation_blocks_injection() {
    assert!(validate_package_id(InstallMethod::Apt, "firefox").is_ok());
    assert!(validate_package_id(InstallMethod::Apt, "firefox;rm -rf /").is_err());
    assert!(validate_package_id(InstallMethod::Flatpak, "org.mozilla.firefox").is_ok());
}

#[test]
fn validation_errors() {
    assert!(matches!(validate_package_id(InstallMethod::Apt, ""), Err(BackendError::InvalidPackageId(s)) if s.is_empty()));
    let long = "a".repeat(257);
    assert!(matches!(validate_package_id(InstallMethod::Apt, &long), Err(BackendError::InvalidPackageId(_))));
    assert!(matches!(validate_package_id(InstallMethod::Apt, "-rf"), Err(BackendError::InvalidPackageId(s)) if s == "-rf"));
    assert!(matches!(
        validate_package_id(InstallMethod::AppImage, "Foo.AppImage"),
        Err(BackendError::InvalidPackageId(s)) if s == "AppImage requer caminho absoluto"
    ));
    assert!(validate_package_id(InstallMethod::AppImage, "/home/u/Foo.AppImage").is_ok());
    assert!(validate_package_id(InstallMethod::Apt, "/home/u/Foo").is_err());
    assert!(validate_package_id(InstallMethod::AppImage, "/home/u/My App.AppImage").is_err());
}

#[test]
fn removal_commands() {
    let cs = uninstall_commands(InstallMethod::Apt, "firefox").unwrap();
    assert_eq!(cs.len(), 1);
    assert_eq!(cs[0].program, "pkexec");
    assert_eq!(cs[0].args, vec!["apt-get", "remove", "--purge", "-y", "firefox"]);
    let fs = uninstall_commands(InstallMethod::Flatpak, "org.mozilla.firefox").unwrap();
    assert_eq!(fs.len(), 2);
    assert_eq!(fs[0].program, "flatpak");
    assert_eq!(fs[1].args, vec!["flatpak", "uninstall", "-y", "--system", "org.mozilla.firefox"]);
    assert!(matches!(uninstall_commands(InstallMethod::Manual, "x"), Err(BackendError::Unsupported(_))));
    assert!(matches!(uninstall_commands(InstallMethod::System, "x"), Err(BackendError::Unsupported(_))));
    assert!(matches!(uninstall_commands(InstallMethod::Snap, "a;b"), Err(BackendError::InvalidPackageId(_))));
}

#[test]
fn removal_descriptions() {
    assert_eq!(
        describe_uninstall(InstallMethod::Snap, "vlc", "VLC"),
        "Snap (admin authorization):\nsnap remove vlc\n\nApp: VLC"
    );
    let app = AppInfo::new(InstallMethod::Dnf, "gimp", "GIMP");
    assert_eq!(describe_app_uninstall(&app), "DNF (admin authorization):\ndnf remove -y gimp\n\nApp: GIMP");
}

#[test]
fn paths_join_like_path_join() {
    assert_eq!(join_path("/home/u", "Apps"), "/home/u/Apps");
    assert_eq!(join_path("/home/u/", "Apps"), "/home/u/Apps");
    assert_eq!(join_path("", "Apps"), "Apps");
    assert_eq!(join_path("/home/u", "/opt"), "/opt");
    assert_eq!(
        appimage_dirs_for(Some("/home/u")),
        vec!["/home/u/Applications", "/home/u/AppImages", "/home/u/Downloads", "/home/u/.local/bin", "/opt"]
    );
    assert_eq!(appimage_dirs_for(None), vec!["/opt"]);
}

#[test]
fn scan_order_and_sidebar() {
    let fedora = DistroInfo::from_os_release("ID=fedora\n");
    assert_eq!(backend_order(&fedora)[0], InstallMethod::Dnf);
    let ubuntu = DistroInfo::from_os_release("ID=ubuntu\n");
    assert_eq!(
        backend_order(&ubuntu),
        vec![
            InstallMethod::Apt,
            InstallMethod::Dnf,
            InstallMethod::Flatpak,
            InstallMethod::Snap,
            InstallMethod::AppImage,
            InstallMethod::Manual
        ]
    );
    let statuses = vec![
        BackendStatus::available(InstallMethod::Apt, Some("1".to_string()), Language::English),
        BackendStatus::unavailable(InstallMethod::Dnf, Language::English),
        BackendStatus::detectable(InstallMethod::AppImage, Language::English),
    ];
    assert_eq!(statuses[2].availability, BackendAvailability::Detectable);
    assert_eq!(
        usable_methods(&statuses),
        vec![InstallMethod::Apt, InstallMethod::AppImage, InstallMethod::System]
    );
    assert_eq!(usable_methods(&vec![]), vec![InstallMethod::System]);
}

#[test]
fn claims_and_system_removal() {
    let mut a = AppInfo::new(InstallMethod::Apt, "gimp", "GIMP");
    a.desktop_id = Some("gimp.desktop".to_string());
    a.install_path = Some("/usr".to_string());
    a.icon_name = Some("gimp".to_string());
    let b = AppInfo::new(InstallMethod::Snap, "vlc", "VLC");
    let (desktop, exec) = collect_claims(&vec![a, b]);
    assert_eq!(desktop, vec!["gimp.desktop"]);
    assert_eq!(exec, vec!["gimp", "/usr", "gimp", "vlc"]);
    assert_eq!(
        system_removal_methods(),
        vec![InstallMethod::Apt, InstallMethod::Dnf, InstallMethod::Manual]
    );
    assert!(tries_system_removal(InstallMethod::Manual, false));
    assert!(!tries_system_removal(InstallMethod::Apt, false));
    assert!(moves_to_next_backend(&BackendError::NotFound("x".to_string())));
    assert!(!moves_to_next_backend(&BackendError::PermissionDenied("x".to_string())));
    assert!(matches!(system_removal_failed(), BackendError::Unsupported(_)));
}

#[test]
fn invalid_ids_give_the_validation_error() {
    for (method, id) in [
        (InstallMethod::Apt, "foo && bar"),
        (InstallMethod::Snap, ""),
        (InstallMethod::Dnf, "-rf"),
    ] {
        let expected = validate_package_id(method, id).unwrap_err();
        let got = uninstall_commands(method, id).unwrap_err();
        assert_eq!(format!("{got:?}"), format!("{expected:?}"));
    }
    assert!(matches!(
        uninstall_commands(InstallMethod::Apt, "-rf"),
        Err(BackendError::InvalidPackageId(s)) if s == "-rf"
    ));
}

#[test]
fn verdict_after_the_pattern() {
    assert!(id_verdict(InstallMethod::Apt, "firefox", true, false).is_ok());
    assert!(matches!(
        id_verdict(InstallMethod::Apt, "/opt/x", false, true),
        Err(BackendError::InvalidPackageId(s)) if s == "/opt/x"
    ));
    assert!(id_verdict(InstallMethod::AppImage, "/home/u/A.AppImage", false, true).is_ok());
    assert!(matches!(
        id_verdict(InstallMethod::AppImage, "A.AppImage", true, false),
        Err(BackendError::InvalidPackageId(s)) if s == "AppImage requer caminho absoluto"
    ));
    assert!(validate_package_id(InstallMethod::AppImage, "/home/u/Apps/Tool.AppImage").is_ok());
}

#[test]
fn removal_steps() {
    assert!(matches!(after_removal_command(0, 2, Ok(())), RemovalStep::Done));
    assert!(matches!(
        after_removal_command(0, 2, Err(BackendError::Unavailable)),
        RemovalStep::TryNext
    ));
    assert!(matches!(
        after_removal_command(1, 2, Err(BackendError::CommandFailed("x".into()))),
        RemovalStep::Failed(BackendError::CommandFailed(s)) if s == "x"
    ));
}

#[test]
fn scan_steps() {
    let status = BackendStatus::unavailable(InstallMethod::Snap, Language::English);
    let (events, apps) = backend_finished(InstallMethod::Snap, status, None);
    assert!(apps.is_empty());
    assert_eq!(events.len(), 1);
    assert!(matches!(&events[0], ScanEvent::BackendFinished { count: 0, error: None, .. }));

    let status = BackendStatus::available(InstallMethod::Apt, None, Language::English);
    let listing = vec![AppInfo::new(InstallMethod::Apt, "vim", "Vim")];
    let (events, apps) = backend_finished(InstallMethod::Apt, status, Some(Ok(listing)));
    assert_eq!(apps.len(), 1);
    assert!(matches!(&events[0], ScanEvent::AppsFound(v) if v.len() == 1));
    assert!(matches!(&events[1], ScanEvent::BackendFinished { count: 1, error: None, .. }));

    let status = BackendStatus::available(InstallMethod::Dnf, None, Language::English);
    let (events, apps) = backend_finished(InstallMethod::Dnf, status, Some(Err("boom".into())));
    assert!(apps.is_empty());
    assert!(matches!(&events[0], ScanEvent::BackendFinished { error: Some(e), .. } if e == "boom"));

    assert_eq!(finished_ui_status(true, true), ScanUiStatus::Failed);
    assert_eq!(finished_ui_status(true, false), ScanUiStatus::Done);
    assert_eq!(finished_ui_status(false, false), ScanUiStatus::Skipped);

    let mut cache = vec![AppInfo::new(InstallMethod::Apt, "vim", "Vim")];
    merge_found(
        &mut cache,
        vec![
            AppInfo::new(InstallMethod::Apt, "vim", "Vim 2"),
            AppInfo::new(InstallMethod::Snap, "vlc", "VLC"),
            AppInfo::new(InstallMethod::Snap, "vlc", "VLC 2"),
        ],
    );
    let names: Vec<&str> = cache.iter().map(|a| a.name.as_str()).collect();
    assert_eq!(names, vec!["Vim", "VLC"]);
}

#[test]
fn sidebar_methods_added_once() {
    let mut methods = vec![InstallMethod::Apt];
    add_method(&mut methods, InstallMethod::Snap);
    add_method(&mut methods, InstallMethod::Apt);
    add_method(&mut methods, InstallMethod::Snap);
    assert_eq!(methods, vec![InstallMethod::Apt, InstallMethod::Snap]);
}
