use hyprshell::config::Modifier;
use hyprshell::config::{Overview, SearchEngine, Switch};
use hyprshell::data::{
    clients_to_close, enable_clients, enable_workspaces, overview_sort_config, switch_sort_config,
    update_client_position, ClientData, MonitorData, SortConfig, WorkspaceData,
};
use hyprshell::overview::Active;
use hyprshell::tiles::{
    active_client_tile, active_workspace_tile, client_tiles, monitor_clients, monitor_workspaces,
    workspace_tiles, ClientTile,
};
use hyprshell::dispatch::{
    deactivate_special_workspace_if_needed, special_name, switch_client_by_initial_class,
    switch_special_workspace, switch_workspace, to_ascii_lowercase, SpecialSwitch,
    WorkspaceSwitch,
};
use hyprshell::editor::{mod_key_to_accelerator, mod_key_to_string};
use hyprshell::migrate::{
    check_migration_needed, get_config_version, moved_config_message, MigrationError,
    V4SearchEngine,
};
use hyprshell::paths::{
    config_file_candidates, get_cache_home, get_config_dirs, get_config_home, get_data_dirs,
    get_data_home, get_default_cache_dir, get_default_config_file, get_default_css_file,
    get_default_data_dir, get_default_system_data_dir, join, split_paths,
};
use hyprshell::runs::{get_all_weeks, get_current_week, get_name_from_timestamp, week_file_name};
use hyprshell::transfer::{
    generate_transfer_socat, CloseSwitch, ExternalTransferType, OpenSwitch,
};
use hyprshell::workarounds::{
    check_migration_needed as workarounds_migration_needed,
    get_config_version as workarounds_version, migrate as migrate_workarounds,
    read_config_version, version_in_document, ClassToIcon,
    Workarrounds,
};
use hyprshell::workarounds_io as wio;

#[test]
fn transfer_messages_as_socat_commands() {
    assert_eq!(
        generate_transfer_socat(&ExternalTransferType::OpenOverview),
        "hyprshell socat '\"OpenOverview\"'"
    );
    assert_eq!(
        generate_transfer_socat(&ExternalTransferType::OpenSwitch(OpenSwitch {
            reverse: true,
            event_time: Some(1234),
            event_id: None
        })),
        "hyprshell socat '{\"OpenSwitch\":{\"reverse\":true,\"event_time\":1234}}'"
    );
    assert_eq!(
        ExternalTransferType::OpenSwitch(OpenSwitch {
            reverse: false,
            event_time: None,
            event_id: Some(18446744073709551615)
        })
        .to_json(),
        "{\"OpenSwitch\":{\"reverse\":false,\"event_id\":18446744073709551615}}"
    );
    assert_eq!(
        ExternalTransferType::CloseSwitch(CloseSwitch { switch: true }).to_json(),
        "{\"CloseSwitch\":{\"switch\":true}}"
    );
    assert_eq!(ExternalTransferType::Reload.to_json(), "\"Reload\"");
}

#[test]
fn xdg_paths() {
    assert_eq!(join("/a", "b"), "/a/b");
    assert_eq!(join("/a/", "b"), "/a/b");
    assert_eq!(join("", "b"), "b");
    let c = config_file_candidates("/home/u/.config", false);
    assert_eq!(c[0], "/home/u/.config/hyprshell/config.toml");
    assert_eq!(c[3], "/home/u/.config/hyprshell/config.json5");
    assert_eq!(
        get_default_config_file("/c", false, [false, false, true, true]),
        "/c/hyprshell/config.ron"
    );
    assert_eq!(get_default_config_file("/c", false, [false; 4]), "/c/hyprshell/config.toml");
    assert_eq!(get_default_css_file("/c/", false), "/c/hyprshell/styles.css");
    assert_eq!(get_default_data_dir("/d", false), "/d/hyprshell");
    assert_eq!(get_default_cache_dir("/k", false), "/k/hyprshell");
    assert_eq!(get_default_system_data_dir(false), "/usr/share/hyprshell");
    assert_eq!(
        get_default_config_file("/c", true, [false, true, false, false]),
        "/c/hyprshell.debug/config.json"
    );
    assert_eq!(get_default_config_file("/c", true, [false; 4]), "/c/hyprshell.debug/config.toml");
    assert_eq!(get_default_css_file("/c", true), "/c/hyprshell.debug/styles.css");
    assert_eq!(get_default_data_dir("/d", true), "/d/hyprshell.debug");
    assert_eq!(get_default_cache_dir("/k/", true), "/k/hyprshell.debug");
    assert_eq!(get_default_system_data_dir(true), "/usr/share/hyprshell.debug");
    assert_eq!(get_config_home(None, Some("/home/u")), "/home/u/.config");
    assert_eq!(get_config_home(Some("/x"), Some("/home/u")), "/x");
    assert_eq!(get_config_home(Some("/x"), None), "/x");
    assert_eq!(get_data_home(None, Some("/h")), "/h/.local/share");
    assert_eq!(get_cache_home(None, Some("/h")), "/h/.cache");
    assert_eq!(get_cache_home(Some("/c"), None), "/c");
    assert_eq!(split_paths("/a::/b"), vec!["/a", "", "/b"]);
    assert_eq!(get_config_dirs(None), vec!["/etc/xdg/"]);
    assert_eq!(get_data_dirs(None), vec!["/usr/local/share", "/usr/share"]);
    assert_eq!(get_data_dirs(Some("/x:/y")), vec!["/x", "/y"]);
}

#[test]
fn migration_versions() {
    assert_eq!(check_migration_needed(5), Ok(false));
    assert_eq!(check_migration_needed(4), Ok(true));
    assert_eq!(check_migration_needed(6), Err(MigrationError::NewerThanSupported));
    assert_eq!(get_config_version(None), Err(MigrationError::NoVersion));
    assert_eq!(get_config_version(Some(3)), Ok(3));
    assert_eq!(workarounds_migration_needed(0), Ok(true));
    assert_eq!(workarounds_migration_needed(1), Ok(false));
    assert_eq!(workarounds_migration_needed(2), Err(MigrationError::NewerThanSupported));
    assert_eq!(workarounds_version(None), Ok(0));
    assert_eq!(workarounds_version(Some("version = 1\n")), Ok(1));
    assert_eq!(workarounds_version(Some("version = \"one\"\n")), Err(MigrationError::NoVersion));
    assert_eq!(workarounds_version(Some("version = = 1")), Err(MigrationError::InvalidToml));
    assert_eq!(workarounds_version(Some("version = -1")), Ok(u64::MAX));
    assert_eq!(read_config_version(Some("[class_to_icon]\n")), None);
    assert_eq!(read_config_version(Some("version = 0\n[x]\ny = 2\n")), Some(Ok(0)));
    assert_eq!(read_config_version(None), Some(Ok(0)));
    assert_eq!(read_config_version(Some("=")), Some(Err(MigrationError::InvalidToml)));
    assert_eq!(version_in_document(None), Err(MigrationError::InvalidToml));
    assert_eq!(version_in_document(Some(Some(None))), Err(MigrationError::NoVersion));
    assert_eq!(version_in_document(Some(Some(Some(3)))), Ok(3));
}

#[test]
fn workaround_migration_and_conversion() {
    let w = migrate_workarounds(0).expect("from nothing");
    assert_eq!(w.version, 1);
    assert_eq!(w.class_to_icon.len(), 1);
    assert_eq!(w.class_to_icon[0].class, "helium");
    assert_eq!(w.class_to_icon[0].icon, "helium-browser");
    assert_eq!(
        migrate_workarounds(7).map(|w| w.version),
        Err(MigrationError::UnsupportedVersion(7))
    );
    let file = wio::Workarrounds {
        version: 1,
        class_to_icon: vec![
            wio::ClassToIcon { enabled: true, class: "a".into(), icon: "x".into() },
            wio::ClassToIcon { enabled: false, class: "b".into(), icon: "y".into() },
        ],
    };
    let w = Workarrounds::from_io(file);
    assert_eq!(
        w.class_to_icon,
        vec![ClassToIcon { class: "b".into(), icon: "y".into() }]
    );
}

#[test]
fn editor_key_texts() {
    assert_eq!(mod_key_to_accelerator(Modifier::Super, "super_l"), "<Super>Super_L");
    assert_eq!(mod_key_to_accelerator(Modifier::Alt, "CONTROL_R"), "<Alt>Control_R");
    assert_eq!(mod_key_to_accelerator(Modifier::NoModifier, "Tab"), "Tab");
    assert_eq!(mod_key_to_string(Modifier::Ctrl, "t"), "Ctrl + t");
    assert_eq!(mod_key_to_string(Modifier::NoModifier, "t"), "t");
}

fn client(monitor: i128, x: i16, workspace: i32, class: &str) -> ClientData {
    ClientData {
        class: class.into(),
        title: String::new(),
        workspace,
        monitor,
        x,
        y: 100,
        width: 10,
        height: 10,
        enabled: false,
    }
}

#[test]
fn client_positions_become_monitor_relative() {
    let monitors = vec![
        (0, MonitorData { x: 0, y: 0, width: 1920, height: 1080 }),
        (1, MonitorData { x: 1920, y: 40, width: 1920, height: 1080 }),
    ];
    let clients = vec![
        (10, client(1, 2000, 1, "a")),
        (11, client(7, 5, 1, "b")),
        (12, client(0, 5, 1, "c")),
    ];
    let r = update_client_position(clients, &monitors);
    assert_eq!(r.len(), 2);
    assert_eq!(r[0].0, 10);
    assert_eq!(r[0].1.x, 80);
    assert_eq!(r[0].1.y, 60);
    assert_eq!(r[1].0, 12);
    assert_eq!(r[1].1.x, 5);
}

#[test]
fn filters_enable_clients_and_workspaces() {
    let config = SortConfig {
        filter_same_class: true,
        filter_current_monitor: true,
        ..SortConfig::default()
    };
    let clients = vec![
        (1, client(0, 0, 1, "kitty")),
        (2, client(0, 0, 2, "firefox")),
        (3, client(1, 0, 3, "kitty")),
        (4, client(0, 0, 3, "kitty")),
    ];
    let clients = enable_clients(clients, &config, Some("kitty"), 1, 0);
    let enabled: Vec<_> = clients.iter().map(|(_, c)| c.enabled).collect();
    assert_eq!(enabled, vec![true, false, false, true]);
    let ws = |name: &str| WorkspaceData { name: name.into(), monitor: 0, any_client_enabled: false };
    let workspaces = vec![(1, ws("1")), (2, ws("2")), (3, ws("3")), (4, ws("4")), (5, ws("5"))];
    let workspaces = enable_workspaces(workspaces, &clients, 5);
    let enabled: Vec<_> = workspaces.iter().map(|(_, w)| w.any_client_enabled).collect();
    assert_eq!(enabled, vec![true, false, false, false, true]);
    let all = enable_clients(
        vec![(1, client(0, 0, 1, "x"))],
        &SortConfig::default(),
        None,
        9,
        9,
    );
    assert!(all[0].1.enabled);
}

#[test]
fn workspace_and_client_dispatch_decisions() {
    assert_eq!(switch_workspace(3, Some(3)), WorkspaceSwitch::AlreadyActive);
    assert_eq!(switch_workspace(3, Some(1)), WorkspaceSwitch::Normal(3));
    assert_eq!(switch_workspace(-98, None), WorkspaceSwitch::Special(-98));
    assert_eq!(special_name("special:special:magic"), "magic");
    assert_eq!(special_name("magic"), "magic");
    assert_eq!(
        deactivate_special_workspace_if_needed("1", Some("special:term")).as_deref(),
        Some("term")
    );
    assert_eq!(deactivate_special_workspace_if_needed("special:x", Some("2")), None);
    assert_eq!(
        deactivate_special_workspace_if_needed("special:x", None).as_deref(),
        Some("x")
    );
    let workspaces = vec![(-98, "special:magic".to_string()), (2, "2".to_string())];
    assert_eq!(
        switch_special_workspace(-98, &vec![], &workspaces),
        SpecialSwitch::Toggle("magic".into())
    );
    assert_eq!(switch_special_workspace(-98, &vec![-98], &workspaces), SpecialSwitch::AlreadyShown);
    assert_eq!(switch_special_workspace(-5, &vec![], &workspaces), SpecialSwitch::NotFound);
    assert_eq!(to_ascii_lowercase("FireFox-ÄB"), "firefox-Äb");
    let (pattern, legacy) = switch_client_by_initial_class("Firefox");
    assert_eq!(pattern, "firefox");
    assert_eq!(legacy, "initialclass:firefox");
}

#[test]
fn run_files_are_named_by_year_and_iso_week() {
    assert_eq!(week_file_name(2025, 7), "2025_07.json");
    assert_eq!(week_file_name(2024, 52), "2024_52.json");
    assert_eq!(week_file_name(-3, 1), "-3_01.json");
    // 2015-05-15 is in ISO week 20.
    assert_eq!(get_current_week(1431648000).as_deref(), Some("2015_20.json"));
    assert_eq!(get_name_from_timestamp(1431648000, 1).as_deref(), Some("2015_19.json"));
    // 2021-01-01 belongs to ISO week 53 of 2020 but keeps its calendar year.
    assert_eq!(get_current_week(1609459200).as_deref(), Some("2021_53.json"));
    let weeks = get_all_weeks(1431648000, 3).expect("dates");
    assert_eq!(weeks, vec!["2015_20.json", "2015_19.json", "2015_18.json"]);
    assert_eq!(get_all_weeks(1431648000, 0), Some(vec![]));
    assert_eq!(get_current_week(i64::MAX), None);
}

#[test]
fn sort_configs_follow_the_settings() {
    let s = switch_sort_config(&Switch::default());
    assert!(s.sort_recent && s.filter_current_monitor && !s.filter_same_class);
    assert!(s.exclude_workspaces.is_none());
    let o = overview_sort_config(&Overview::default());
    assert!(!o.sort_recent && !o.filter_current_monitor);
    assert_eq!(o.exclude_workspaces.as_deref(), Some("special:.*"));
}

#[test]
fn closing_the_selection_closes_its_window_or_its_workspace() {
    let clients = vec![
        (1u64, client(0, 0, 2, "a")),
        (2u64, client(0, 0, 3, "b")),
        (3u64, client(0, 0, 2, "c")),
    ];
    let active = Active { client: Some(2), workspace: 2, monitor: 0 };
    assert_eq!(clients_to_close(true, active, &clients), vec![1, 3]);
    assert_eq!(clients_to_close(false, active, &clients), vec![2]);
    let none = Active { client: None, workspace: 9, monitor: 0 };
    assert_eq!(clients_to_close(false, none, &clients), Vec::<u64>::new());
    assert_eq!(clients_to_close(true, none, &clients), Vec::<u64>::new());
}

#[test]
fn moved_config_note_names_both_files() {
    assert_eq!(
        moved_config_message("/c/config.toml", "/c/config.ron.bak"),
        "Config was moved to '/c/config.toml'\nOld config is at '/c/config.ron.bak'\n"
    );
}

#[test]
fn switch_tiles_skip_disabled_and_unknown_monitors() {
    let m0 = MonitorData { x: 0, y: 0, width: 1920, height: 1080 };
    let m1 = MonitorData { x: 1920, y: 0, width: 1280, height: 720 };
    let monitors = vec![(0i128, m0), (1i128, m1)];
    let on = |monitor: i128, workspace: i32| ClientData { enabled: true, ..client(monitor, 0, workspace, "c") };
    let clients = vec![
        (10u64, on(0, 1)),
        (11u64, client(0, 0, 1, "off")),
        (12u64, on(1, 2)),
        (13u64, on(7, 2)),
        (14u64, on(0, 1)),
    ];
    let ws = |name: &str, monitor: i128, any: bool| WorkspaceData {
        name: name.into(),
        monitor,
        any_client_enabled: any,
    };
    let workspaces = vec![(1, ws("1", 0, true)), (2, ws("2", 1, true)), (3, ws("3", 0, false)), (4, ws("4", 9, true))];
    let tiles = workspace_tiles(&workspaces, &clients, &monitors);
    assert_eq!(tiles.len(), 2);
    assert_eq!((tiles[0].id, tiles[0].workspace, tiles[0].monitor), (1, 0, m0));
    assert_eq!(tiles[0].clients, vec![0, 4]);
    assert_eq!((tiles[1].id, tiles[1].workspace, tiles[1].monitor), (2, 1, m1));
    assert_eq!(tiles[1].clients, vec![2, 3]);
    assert_eq!(active_workspace_tile(&tiles, 2), Some(1));
    assert_eq!(active_workspace_tile(&tiles, 4), None);

    let windows = client_tiles(&clients, &monitors);
    assert_eq!(
        windows,
        vec![
            ClientTile { id: 10, client: 0, monitor: m0 },
            ClientTile { id: 12, client: 2, monitor: m1 },
            ClientTile { id: 14, client: 4, monitor: m0 },
        ]
    );
    assert_eq!(active_client_tile(&windows, Some(14)), Some(2));
    assert_eq!(active_client_tile(&windows, Some(11)), None);
    assert_eq!(active_client_tile(&windows, None), None);
}

#[test]
fn each_monitor_overview_shows_its_own_workspaces_and_windows() {
    let ws = |monitor: i128| WorkspaceData { name: "w".into(), monitor, any_client_enabled: true };
    let workspaces = vec![(1, ws(0)), (2, ws(1)), (3, ws(0))];
    assert_eq!(monitor_workspaces(&workspaces, 0), vec![0, 2]);
    assert_eq!(monitor_workspaces(&workspaces, 1), vec![1]);
    assert_eq!(monitor_workspaces(&workspaces, 5), Vec::<usize>::new());
    let clients = vec![(1u64, client(1, 0, 2, "a")), (2u64, client(0, 0, 1, "b")), (3u64, client(1, 0, 2, "c"))];
    assert_eq!(monitor_clients(&clients, 1), vec![0, 2]);
    assert_eq!(monitor_clients(&clients, 0), vec![1]);
}

#[test]
fn engine_migration_keeps_key_url_and_name_up_to_case() {
    let engines = [
        ("ChatGpt", 'c', "https://chatgpt.com/?q={}"),
        ("Google", 'g', "https://www.google.com/search?q={}"),
        ("Mine", 'm', "https://example.org/?q={}"),
        ("Google", 'x', "https://www.google.com/search?q={}"),
    ];
    for (name, key, url) in engines {
        let v = V4SearchEngine { url: url.into(), name: name.into(), key };
        let n = SearchEngine::from_io(v.migrate());
        assert_eq!(n.key, key);
        assert_eq!(n.url, url);
        assert_eq!(n.name.to_lowercase(), name.to_lowercase());
    }
    let chat = SearchEngine::from_io(
        V4SearchEngine { url: "https://chatgpt.com/?q={}".into(), name: "ChatGpt".into(), key: 'c' }.migrate(),
    );
    assert_eq!(chat.name, "ChatGPT");
}
