use bmcbl_windows::import::{
    classify_dropped_extensions, extension_in, has_supported_extension, import_asset_extension_list,
    is_game_package_extension, is_import_asset_extension, is_world_preview, is_world_template_preview,
    join_extensions, kind_label_is_translated, matched_pack_name_for_reference, open_dropped_import,
    open_dropped_import_any, open_import_path, partial_import_message, selected_launch_version,
    selected_version_index, ConflictStep, ImportCounts, ImportPathRoute, ImportSession, ImportStart,
    ImportStatusKind, ImportWindowTarget, SubPackInfo,
};

fn strings(v: &[&str]) -> Vec<String> {
    v.iter().map(|s| s.to_string()).collect()
}

#[test]
fn extensions_are_matched_ignoring_case() {
    assert!(is_import_asset_extension("McWorld"));
    assert!(is_import_asset_extension("zip"));
    assert!(!is_import_asset_extension("appx"));
    assert!(is_game_package_extension("MSIXVC"));
    assert!(!is_game_package_extension("mcpack"));
    assert!(extension_in("TXT", &vec!["json", "txt"]));
    assert!(!extension_in("tx", &vec!["txt"]));
    assert_eq!(import_asset_extension_list(), vec!["mcpack", "mcworld", "mcaddon", "mctemplate", "zip"]);
}

#[test]
fn path_extensions_come_from_the_file_name() {
    let exts = vec!["mcpack", "zip"];
    assert!(has_supported_extension("C:/packs/Pack.MCPACK", &exts));
    assert!(has_supported_extension("/tmp/a.b/c.zip", &exts));
    assert!(!has_supported_extension("/tmp/a.zip/readme", &exts));
    assert!(!has_supported_extension("/tmp/.zip", &exts));
    assert!(!has_supported_extension("noext", &exts));
}

#[test]
fn opened_paths_are_routed_by_kind() {
    assert_eq!(open_import_path("D:/dl/Minecraft.Appx"), ImportPathRoute::GamePackage);
    assert_eq!(open_import_path("D:/dl/game.msixvc"), ImportPathRoute::GamePackage);
    assert_eq!(open_import_path("D:/dl/world.mcworld"), ImportPathRoute::ImportWindow);
    assert_eq!(open_import_path("D:/dl/readme"), ImportPathRoute::ImportWindow);
}

#[test]
fn dropped_files_are_sorted_into_packages_and_assets() {
    let paths = strings(&["a.mcaddon", "b.appx", "notes.txt", "c.MCTEMPLATE", "d.msixvc"]);
    let route = open_dropped_import_any(&paths);
    assert_eq!(route.game_packages, vec![1, 4]);
    assert_eq!(route.assets, vec![0, 3]);
    let none = open_dropped_import_any(&strings(&["x.txt", "y"]));
    assert!(none.game_packages.is_empty() && none.assets.is_empty());
    let by_ext = classify_dropped_extensions(&vec![Some("zip".to_string()), None, Some("APPX".to_string())]);
    assert_eq!(by_ext.game_packages, vec![2]);
    assert_eq!(by_ext.assets, vec![0]);
}

#[test]
fn dropped_files_filtered_by_the_accepted_extensions() {
    let paths = strings(&["a.mcpack", "b.mcworld", "c.MCPACK"]);
    assert_eq!(open_dropped_import(&paths, &vec!["mcpack"]), vec![0, 2]);
    assert!(open_dropped_import(&paths, &vec!["zip"]).is_empty());
    assert_eq!(join_extensions(&vec!["mcpack", "mcworld", "zip"]), "mcpack, mcworld, zip");
    assert_eq!(join_extensions(&vec!["zip"]), "zip");
    assert_eq!(join_extensions(&vec![]), "");
}

#[test]
fn locked_target() {
    let t = ImportWindowTarget::locked("1.21".into(), "Main".into(), "1.21.0".into(), None);
    assert!(t.lock_version);
    assert_eq!(t.version_folder.as_deref(), Some("1.21"));
    assert_eq!(t.instance_name.as_deref(), Some("Main"));
    assert_eq!(t.game_version.as_deref(), Some("1.21.0"));
    assert!(t.user_id.is_none());
    let d = ImportWindowTarget::default();
    assert!(!d.lock_version && d.version_folder.is_none());
}

#[test]
fn preview_kinds() {
    assert!(kind_label_is_translated("Import.resourcePacks"));
    assert!(!kind_label_is_translated("Custom"));
    assert!(!kind_label_is_translated("Import"));
    assert!(is_world_preview("Import.minecraftWorlds"));
    assert!(!is_world_preview("Import.worldTemplates"));
    assert!(is_world_template_preview("Import.worldTemplates"));
}

#[test]
fn world_pack_references_match_by_uuid() {
    let packs = vec![
        SubPackInfo { name: "No manifest".into(), uuid: None },
        SubPackInfo { name: "Textures".into(), uuid: Some("ABCD-1".into()) },
        SubPackInfo { name: "Again".into(), uuid: Some("abcd-1".into()) },
    ];
    assert_eq!(matched_pack_name_for_reference("abcd-1", Some(&packs)), Some("Textures".to_string()));
    assert_eq!(matched_pack_name_for_reference("zzz", Some(&packs)), None);
    assert_eq!(matched_pack_name_for_reference("abcd-1", None), None);
}

#[test]
fn version_selection() {
    let folders = strings(&["a", "b", "c", "b"]);
    assert_eq!(selected_version_index(&Some("b".into()), &folders), 1);
    assert_eq!(selected_version_index(&Some("z".into()), &folders), 0);
    assert_eq!(selected_version_index(&None, &folders), 0);
    assert_eq!(selected_launch_version(&Some("c".into()), &folders), Some(2));
    assert_eq!(selected_launch_version(&Some("c".into()), &vec![]), None);
}

#[test]
fn selected_folder_follows_the_local_versions() {
    let mut s = ImportSession::new();
    s.sync_selected_folder(&strings(&["x", "y"]));
    assert_eq!(s.selected_folder.as_deref(), Some("x"));
    s.set_selected_folder("y".into());
    s.sync_selected_folder(&strings(&["x", "y"]));
    assert_eq!(s.selected_folder.as_deref(), Some("y"));
    s.sync_selected_folder(&strings(&["z"]));
    assert_eq!(s.selected_folder.as_deref(), Some("z"));
    s.sync_selected_folder(&vec![]);
    assert_eq!(s.selected_folder, None);
}

#[test]
fn import_requests_are_checked_in_order() {
    let folders = strings(&["x", "y"]);
    let mut s = ImportSession::new();
    assert!(matches!(s.begin_import(None, false, &folders), ImportStart::NoFolder));
    assert_eq!(s.status, Some((ImportStatusKind::Error, "未选择导入版本".to_string())));
    s.set_selected_folder("y".into());
    match s.begin_import(Some((false, None)), false, &folders) {
        ImportStart::InvalidPack(reason) => assert_eq!(reason, "缺少 uuid"),
        _ => panic!("expected an invalid pack"),
    }
    match s.begin_import(Some((false, Some("bad manifest".into()))), false, &folders) {
        ImportStart::InvalidPack(reason) => assert_eq!(reason, "bad manifest"),
        _ => panic!("expected an invalid pack"),
    }
    assert!(!s.is_importing);
    assert!(matches!(s.begin_import(Some((true, None)), true, &folders), ImportStart::Started(1)));
    assert!(s.is_importing && s.launch_after_import && s.status.is_none());
    assert!(matches!(s.begin_import(None, false, &folders), ImportStart::Busy));
    let mut lost = ImportSession::new();
    lost.set_selected_folder("gone".into());
    assert!(matches!(lost.begin_import(None, false, &vec![]), ImportStart::MissingVersion));
    assert_eq!(lost.status, Some((ImportStatusKind::Error, "未找到目标版本信息".to_string())));
    assert!(!lost.is_importing);
}

#[test]
fn conflict_checks() {
    let mut s = ImportSession::new();
    s.is_importing = true;
    assert_eq!(s.conflict_checked(Ok(true), false), ConflictStep::AskOverwrite);
    assert!(s.show_conflict_dialog && !s.is_importing);
    s.is_importing = true;
    assert_eq!(s.conflict_checked(Ok(true), true), ConflictStep::Import);
    assert!(s.is_importing);
    assert_eq!(s.conflict_checked(Err("io".into()), false), ConflictStep::Failed);
    assert_eq!(s.status, Some((ImportStatusKind::Error, "io".to_string())));
    assert!(!s.is_importing);
}

#[test]
fn finished_imports() {
    let mut s = ImportSession::new();
    s.launch_after_import = true;
    s.is_importing = true;
    let ok = Ok(ImportCounts { imported_count: 1, failed_count: 0 });
    assert!(s.wants_launch_after(&ok));
    let f = s.finish_import(ok, true, "导入成功", "导入成功，正在启动");
    assert_eq!(f.message, "导入成功，正在启动");
    assert!(f.success && !f.schedule_auto_close);
    assert!(s.close_after_launch_completion && !s.launch_completion_close_scheduled);
    assert!(!s.is_importing && !s.launch_after_import);

    let mut s = ImportSession::new();
    let f = s.finish_import(Ok(ImportCounts { imported_count: 2, failed_count: 0 }), false, "导入成功", "-");
    assert_eq!(f.message, "导入成功，5 秒后自动关闭窗口");
    assert!(f.schedule_auto_close);

    let mut s = ImportSession::new();
    s.launch_after_import = true;
    let partial = Ok(ImportCounts { imported_count: 3, failed_count: 2 });
    assert!(!s.wants_launch_after(&partial));
    let f = s.finish_import(partial, false, "导入成功", "-");
    assert_eq!(f.message, "导入完成，成功 3 个，失败 2 个");
    assert_eq!(s.status, Some((ImportStatusKind::Success, f.message.clone())));

    let mut s = ImportSession::new();
    s.close_after_launch_completion = true;
    let f = s.finish_import(Err("disk full".into()), false, "导入成功", "-");
    assert!(!f.success && !f.schedule_auto_close);
    assert_eq!(f.message, "disk full");
    assert_eq!(s.status, Some((ImportStatusKind::Error, "disk full".to_string())));
    assert!(!s.close_after_launch_completion);
    assert_eq!(partial_import_message(0, 1), "导入完成，成功 0 个，失败 1 个");
}

#[test]
fn auto_close_only_after_success() {
    let mut s = ImportSession::new();
    assert_eq!(s.close_target_after_delay(), None);
    s.attach_window_id(42);
    s.finish_import(Ok(ImportCounts { imported_count: 1, failed_count: 0 }), false, "ok", "-");
    assert_eq!(s.close_target_after_delay(), Some(42));
    s.set_error("later failure".into());
    assert_eq!(s.close_target_after_delay(), None);
}

#[test]
fn inspections_do_not_overlap() {
    let mut s = ImportSession::new();
    assert!(s.begin_inspect());
    assert!(!s.begin_inspect());
    s.finish_inspect(Err("unreadable".into()));
    assert!(!s.is_inspecting);
    assert_eq!(s.status, Some((ImportStatusKind::Error, "unreadable".to_string())));
    assert!(s.begin_inspect());
    s.finish_inspect(Ok(()));
    assert_eq!(s.status, Some((ImportStatusKind::Error, "unreadable".to_string())));
}

#[test]
fn bare_file_names_route_by_their_last_extension() {
    let list = import_asset_extension_list();
    assert!(has_supported_extension("World.MCWORLD", &list));
    assert!(has_supported_extension("pack.tar.zip", &list));
    assert!(!has_supported_extension("mcworld", &list));
    assert!(!has_supported_extension("a.mcworld.bak", &list));
    assert!(!has_supported_extension(".zip", &list));
    assert!(!has_supported_extension("..", &list));
}

#[test]
fn a_completed_launch_schedules_the_close_once() {
    let mut s = ImportSession::new();
    assert!(!s.on_launch_status(true));
    s.close_after_launch_completion = true;
    assert!(!s.on_launch_status(false));
    assert!(s.on_launch_status(true));
    assert!(s.launch_completion_close_scheduled && !s.close_after_launch_completion);
    assert!(!s.on_launch_status(true));
}
