use quick_launcher::greet;
use quick_launcher::hotkey::{requested_hotkey, toggle_action, HotkeyPlan, HotkeyState, WindowAction};
use quick_launcher::paths::{
    check_path, folder_action, folder_path, is_special_path, make_relative_path_inner,
    resolve_launch_path, FolderAction, FolderError, LaunchPath, PathCheck, PathComponent,
};
use quick_launcher::settings::{
    default_always_on_top, default_card_font_size, default_card_height, default_card_icon_scale,
    default_card_size, default_dbl_click_blank_to_hide, default_enable_group_drag_sort,
    default_font_family, default_font_size, default_hide_on_startup, default_language,
    default_sidebar_width, default_theme, default_use_relative_path, saved_hotkey, UiSettings,
};
use quick_launcher::storage::{
    assemble_launcher_state, needs_legacy_migration, optional_text, save_records, AppEntry,
    AppRow, Group, GroupRow, LauncherState,
};
use quick_launcher::text::trim;

fn normal(s: &str) -> PathComponent {
    PathComponent::Normal(s.to_string())
}

fn render(v: &[PathComponent]) -> Vec<String> {
    v.iter()
        .map(|c| match c {
            PathComponent::Prefix(p) => p.clone(),
            PathComponent::RootDir => "/".to_string(),
            PathComponent::CurDir => ".".to_string(),
            PathComponent::ParentDir => "..".to_string(),
            PathComponent::Normal(n) => n.clone(),
        })
        .collect()
}

#[test]
fn special_paths() {
    assert!(is_special_path("shell:AppsFolder\\x"));
    assert!(is_special_path("  UWP:Microsoft.App  "));
    assert!(is_special_path("Shell:"));
    assert!(!is_special_path("C:\\shell:x"));
    assert!(!is_special_path(""));
    assert!(!is_special_path("uwp"));
}

#[test]
fn trimming_uses_unicode_whitespace() {
    assert_eq!(trim("  a b \t\n"), "a b");
    assert_eq!(trim("\u{3000}x\u{a0}"), "x");
    assert_eq!(trim("   "), "");
    assert_eq!(trim(""), "");
}

#[test]
fn relative_path_under_base() {
    let base = vec![
        PathComponent::Prefix("C:".to_string()),
        PathComponent::RootDir,
        normal("Tools"),
        normal("Launcher"),
    ];
    let path = vec![
        PathComponent::Prefix("C:".to_string()),
        PathComponent::RootDir,
        normal("Tools"),
        normal("Launcher"),
        normal("apps"),
        normal("x.exe"),
    ];
    let rel = make_relative_path_inner(&path, &base).unwrap();
    assert_eq!(render(&rel), vec!["apps", "x.exe"]);
}

#[test]
fn relative_path_climbs_out_of_base() {
    let base = vec![PathComponent::RootDir, normal("opt"), normal("launcher")];
    let path = vec![PathComponent::RootDir, normal("usr"), normal("bin"), normal("app")];
    let rel = make_relative_path_inner(&path, &base).unwrap();
    assert_eq!(render(&rel), vec!["..", "..", "usr", "bin", "app"]);
}

#[test]
fn relative_path_of_base_itself_is_dot() {
    let base = vec![PathComponent::RootDir, normal("opt")];
    let rel = make_relative_path_inner(&base, &base).unwrap();
    assert_eq!(render(&rel), vec!["."]);
}

#[test]
fn relative_path_refuses_other_drive_and_empty() {
    let base = vec![PathComponent::Prefix("C:".to_string()), PathComponent::RootDir];
    let path = vec![PathComponent::Prefix("D:".to_string()), PathComponent::RootDir, normal("x")];
    assert!(make_relative_path_inner(&path, &base).is_none());
    assert!(make_relative_path_inner(&vec![], &base).is_none());
    assert!(make_relative_path_inner(&path, &vec![]).is_none());
}

#[test]
fn launch_path_resolution() {
    assert!(matches!(resolve_launch_path("apps\\x.exe", false, true), LaunchPath::UnderBase));
    assert!(matches!(resolve_launch_path("apps\\x.exe", false, false), LaunchPath::AsGiven));
    assert!(matches!(resolve_launch_path("C:\\x.exe", true, true), LaunchPath::AsGiven));
    assert!(matches!(resolve_launch_path("shell:AppsFolder\\x", false, true), LaunchPath::AsGiven));
    assert!(matches!(resolve_launch_path("   ", false, true), LaunchPath::AsGiven));
}

#[test]
fn path_checks() {
    assert!(matches!(check_path("  "), PathCheck::Blank));
    assert!(matches!(check_path(" uwp:App "), PathCheck::Special));
    match check_path("  C:\\x.exe ") {
        PathCheck::Exists(p) => assert_eq!(p, "C:\\x.exe"),
        _ => panic!("expected a disk check"),
    }
}

#[test]
fn folder_requests() {
    assert_eq!(folder_path(" \"C:\\Program Files\\x.exe\" ").ok(), Some("C:\\Program Files\\x.exe".to_string()));
    assert_eq!(folder_path("'C:\\y'").ok(), Some("C:\\y".to_string()));
    assert_eq!(folder_path("\"'C:\\z'\"").ok(), Some("C:\\z".to_string()));
    assert_eq!(folder_path("\"").ok(), Some("\"".to_string()));
    assert!(matches!(folder_path("  "), Err(FolderError::Empty)));
    assert!(matches!(folder_path("\"  \""), Err(FolderError::Empty)));
    assert!(matches!(folder_path("shell:AppsFolder\\x"), Err(FolderError::NoFolder)));
}

#[test]
fn folder_actions() {
    assert!(matches!(folder_action(true, true, true), Ok(FolderAction::OpenDir)));
    assert!(matches!(folder_action(true, false, true), Ok(FolderAction::SelectFile)));
    assert!(matches!(folder_action(false, false, true), Ok(FolderAction::OpenParent)));
    assert!(matches!(folder_action(false, false, false), Err(FolderError::ParentNotFound)));
}

#[test]
fn settings_defaults() {
    let s = UiSettings::default();
    assert_eq!(s.language, "");
    assert_eq!(s.card_width, 120);
    assert_eq!(s.card_height, 96);
    assert_eq!(s.toggle_hotkey, "");
    assert_eq!(s.theme, "dark");
    assert_eq!(s.sidebar_width, 140);
    assert_eq!(s.font_family, "maye");
    assert_eq!(s.font_size, 13);
    assert_eq!(s.card_font_size, 11);
    assert_eq!(s.card_icon_scale, 56);
    assert!(s.dbl_click_blank_to_hide);
    assert!(s.always_on_top);
    assert!(!s.hide_on_startup);
    assert!(!s.use_relative_path);
    assert!(!s.enable_group_drag_sort);
    assert!(!s.auto_start);
    assert_eq!(default_language(), "");
    assert_eq!(default_card_size(), 120);
    assert_eq!(default_card_height(), 96);
    assert_eq!(default_theme(), "dark");
    assert_eq!(default_sidebar_width(), 140);
    assert_eq!(default_font_family(), "maye");
    assert_eq!(default_font_size(), 13);
    assert_eq!(default_card_font_size(), 11);
    assert_eq!(default_card_icon_scale(), 56);
    assert!(default_dbl_click_blank_to_hide());
    assert!(default_always_on_top());
    assert!(!default_hide_on_startup());
    assert!(!default_use_relative_path());
    assert!(!default_enable_group_drag_sort());
}

#[test]
fn saved_hotkey_is_trimmed() {
    let mut s = UiSettings::default();
    assert_eq!(saved_hotkey(&s), None);
    s.toggle_hotkey = "  Alt+Space ".to_string();
    assert_eq!(saved_hotkey(&s), Some("Alt+Space".to_string()));
}

fn row(id: &str, group: &str, args: &str, icon: &str) -> AppRow {
    AppRow {
        id: id.to_string(),
        group_id: group.to_string(),
        name: format!("name-{}", id),
        path: format!("C:\\{}.exe", id),
        args: args.to_string(),
        icon: icon.to_string(),
        added_at: 7,
    }
}

fn grow(id: &str) -> GroupRow {
    GroupRow { id: id.to_string(), name: format!("group-{}", id) }
}

#[test]
fn state_is_assembled_from_rows() {
    let groups = vec![grow("g1"), grow("g2"), grow("g3")];
    let apps = vec![
        row("a", "g2", "", "data:x"),
        row("b", "g1", "--x", "  "),
        row("c", "g2", " -y ", ""),
        row("d", "gone", "", ""),
    ];
    let st = assemble_launcher_state("g2".to_string(), groups, apps, UiSettings::default());
    assert_eq!(st.version, 1);
    assert_eq!(st.active_group_id, "g2");
    assert_eq!(st.groups.len(), 3);
    assert_eq!(st.groups[0].id, "g1");
    assert_eq!(st.groups[0].name, "group-g1");
    let ids: Vec<&str> = st.groups[1].apps.iter().map(|a| a.id.as_str()).collect();
    assert_eq!(ids, vec!["a", "c"]);
    assert_eq!(st.groups[1].apps[0].args, None);
    assert_eq!(st.groups[1].apps[0].icon, Some("data:x".to_string()));
    assert_eq!(st.groups[1].apps[1].args, Some(" -y ".to_string()));
    assert_eq!(st.groups[0].apps[0].args, Some("--x".to_string()));
    assert_eq!(st.groups[0].apps[0].icon, None);
    assert!(st.groups[2].apps.is_empty());
}

#[test]
fn active_group_falls_back_to_first() {
    let st = assemble_launcher_state("nope".to_string(), vec![grow("g1"), grow("g2")], vec![], UiSettings::default());
    assert_eq!(st.active_group_id, "g1");
    let st = assemble_launcher_state(String::new(), vec![grow("g1")], vec![], UiSettings::default());
    assert_eq!(st.active_group_id, "g1");
    let st = assemble_launcher_state("g".to_string(), vec![], vec![], UiSettings::default());
    assert_eq!(st.active_group_id, "");
}

#[test]
fn blank_columns_become_none() {
    assert_eq!(optional_text("  ".to_string()), None);
    assert_eq!(optional_text(" a ".to_string()), Some(" a ".to_string()));
}

fn entry(id: &str, args: Option<&str>) -> AppEntry {
    AppEntry {
        id: id.to_string(),
        name: id.to_uppercase(),
        path: format!("/bin/{}", id),
        args: args.map(|a| a.to_string()),
        icon: None,
        added_at: 42,
    }
}

#[test]
fn state_becomes_records() {
    let state = LauncherState {
        version: 1,
        active_group_id: "g1".to_string(),
        groups: vec![
            Group { id: "g1".to_string(), name: "One".to_string(), apps: vec![entry("a", None), entry("b", Some("-v"))] },
            Group { id: "g2".to_string(), name: "Two".to_string(), apps: vec![] },
        ],
        settings: UiSettings::default(),
    };
    let recs = save_records(&state);
    assert_eq!(recs.len(), 2);
    assert_eq!(recs[1].group.id, "g2");
    assert_eq!(recs[1].group.position, 1);
    assert_eq!(recs[0].apps.len(), 2);
    assert_eq!(recs[0].apps[1].id, "b");
    assert_eq!(recs[0].apps[1].group_id, "g1");
    assert_eq!(recs[0].apps[1].args, "-v");
    assert_eq!(recs[0].apps[0].args, "");
    assert_eq!(recs[0].apps[0].icon, "");
    assert_eq!(recs[0].apps[1].position, 1);
    assert_eq!(recs[0].apps[1].added_at, 42);
}

#[test]
fn legacy_migration_decision() {
    assert!(needs_legacy_migration(false, 0));
    assert!(needs_legacy_migration(true, 0));
    assert!(!needs_legacy_migration(true, 3));
}

#[test]
fn hotkey_normalisation() {
    assert_eq!(requested_hotkey("  Ctrl+Alt+K "), Some("ctrl+alt+k".to_string()));
    assert_eq!(requested_hotkey("   "), None);
}

#[test]
fn hotkey_plans() {
    let state = HotkeyState(Some("alt+space".to_string()));
    assert!(matches!(state.plan(Some("alt+space".to_string())), HotkeyPlan::Keep));
    match state.plan(None) {
        HotkeyPlan::Clear { unregister } => assert_eq!(unregister, Some("alt+space".to_string())),
        _ => panic!("expected a clear"),
    }
    match state.plan(Some("ctrl+k".to_string())) {
        HotkeyPlan::Replace { register, unregister } => {
            assert_eq!(register, "ctrl+k");
            assert_eq!(unregister, Some("alt+space".to_string()));
        }
        _ => panic!("expected a replace"),
    }
    let mut empty = HotkeyState(None);
    assert!(matches!(empty.plan(None), HotkeyPlan::Keep));
    empty.set(Some("x".to_string()));
    assert_eq!(empty.0, Some("x".to_string()));
}

#[test]
fn window_toggle() {
    assert!(matches!(toggle_action(Some(true)), WindowAction::Hide));
    assert!(matches!(toggle_action(Some(false)), WindowAction::ShowAndFocus));
    assert!(matches!(toggle_action(None), WindowAction::ShowAndFocus));
}

#[test]
fn greeting() {
    assert_eq!(greet("Ann"), "Hello, Ann! You've been greeted from Rust!");
}

#[test]
fn drive_letters_compare_without_case() {
    let base = vec![PathComponent::Prefix("C:".to_string()), PathComponent::RootDir, normal("Tools")];
    let path = vec![
        PathComponent::Prefix("c:".to_string()),
        PathComponent::RootDir,
        normal("Tools"),
        normal("x.exe"),
    ];
    let rel = make_relative_path_inner(&path, &base).unwrap();
    assert_eq!(render(&rel), vec!["x.exe"]);
    let unc_base = vec![PathComponent::Prefix("\\\\Server\\share".to_string()), PathComponent::RootDir];
    let unc_path = vec![PathComponent::Prefix("\\\\server\\share".to_string()), PathComponent::RootDir];
    assert!(make_relative_path_inner(&unc_path, &unc_base).is_none());
    let vbase = vec![PathComponent::Prefix("\\\\?\\D:".to_string()), PathComponent::RootDir];
    let vpath = vec![PathComponent::Prefix("\\\\?\\d:".to_string()), PathComponent::RootDir, normal("a")];
    assert_eq!(render(&make_relative_path_inner(&vpath, &vbase).unwrap()), vec!["a"]);
}
