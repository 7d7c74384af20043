use hyprshell::launcher::{launch, PluginLaunch};
use hyprshell::transfer::Identifier;
use hyprshell::config::{SearchEngine, WebSearchConfig};
use hyprshell::launcher::applications::{
    bonus_score, from_desktop_entry, get_launch_items, launch_option as app_launch_option,
    DesktopAction, DesktopEntry, RunCounts,
};
use hyprshell::launcher::command_line_for;
use hyprshell::launcher::path::{
    file_manager_from_entry, get_file_manager_info, get_launch_items as path_items,
    launch_option as path_launch_option, path_query, FilemanagerData,
};
use hyprshell::launcher::web::{
    browser_from_entry, convert_to_key, get_browser_info, get_chars, get_static_options,
    launch_option as web_launch_option, BrowserData,
};
use hyprshell::transfer::PluginName;

fn browser(exec: &str) -> BrowserData {
    BrowserData {
        exec_line: exec.to_string(),
        startup_wm_class: Some("firefox".to_string()),
        icon: Some("firefox".to_string()),
    }
}

#[test]
fn web_search_fills_the_url_and_quotes_it() {
    let (ret, launch) = web_launch_option(
        Some("https://www.google.com/search?q={}"),
        "rust verus",
        &browser("firefox %u"),
    );
    assert!(ret.show_animation);
    let launch = launch.expect("a launch");
    assert_eq!(
        launch.command,
        "firefox 'https://www.google.com/search?q=rust verus'"
    );
    assert_eq!(launch.focus_class.as_deref(), Some("firefox"));

    let (_, launch) = web_launch_option(Some("https://x/?q={}&again={}"), "a", &browser("browser"));
    assert_eq!(launch.expect("a launch").command, "browser 'https://x/?q=a&again=a'");

    let (ret, launch) = web_launch_option(Some("https://x/{}"), "", &browser("browser"));
    assert!(!ret.show_animation);
    assert!(launch.is_none());

    let (ret, launch) = web_launch_option(None, "text", &browser("browser"));
    assert!(ret.show_animation);
    assert!(launch.is_none());
}

#[test]
fn every_placeholder_is_replaced() {
    assert_eq!(command_line_for("open %U --x %F", "a"), "open a --x a");
    assert_eq!(command_line_for("open %f %u", "b"), "open b b");
    assert_eq!(command_line_for("open", "c"), "open c");
    assert_eq!(command_line_for("open %%u", "d"), "open %d");
}

#[test]
fn static_options_one_per_engine() {
    let config = WebSearchConfig {
        engines: vec![
            SearchEngine { url: "https://g/{}".into(), name: "Google".into(), key: 'g' },
            SearchEngine { url: "https://w/{}".into(), name: "Wikipedia".into(), key: 'w' },
        ],
    };
    let items = get_static_options(&config, &Some("browser-icon".to_string()));
    assert_eq!(items.len(), 2);
    assert_eq!(items[0].text, "Google");
    assert_eq!(items[0].details, "Search with Google");
    assert_eq!(items[1].key, 'w');
    assert_eq!(items[1].iden.plugin, PluginName::WebSearch);
    assert_eq!(items[1].iden.data.as_deref(), Some("https://w/{}"));
    assert_eq!(items[1].icon.as_deref(), Some("browser-icon"));
}

fn file_manager() -> FilemanagerData {
    FilemanagerData {
        exec_line: "nautilus %U".to_string(),
        name: "Files".to_string(),
        icon: None,
    }
}

#[test]
fn paths_are_offered_to_the_file_manager() {
    assert_eq!(path_query("/etc", "/home/u").as_deref(), Some("/etc"));
    assert_eq!(path_query("~/docs", "/home/u").as_deref(), Some("/home/u/docs"));
    assert_eq!(path_query("~", "").as_deref(), Some(""));
    assert_eq!(path_query("docs", "/home/u"), None);
    assert_eq!(path_query("", "/home/u"), None);

    let items = path_items("~/docs", &file_manager(), true);
    assert_eq!(items.len(), 1);
    assert_eq!(items[0].item.name, "Open in Files");
    assert_eq!(items[0].score, 13);
    assert!(items[0].enabled);
    assert_eq!(items[0].item.iden.plugin, PluginName::Path);
    let umlaut = FilemanagerData { exec_line: "x".into(), name: "Dateiä".into(), icon: None };
    assert_eq!(path_items("/", &umlaut, false)[0].score, "Open in Dateiä".len() as u64);
    assert!(path_items("docs", &file_manager(), true).is_empty());

    let (ret, cmd) = path_launch_option("/etc", &file_manager());
    assert!(ret.show_animation);
    assert_eq!(cmd.as_deref(), Some("nautilus /etc"));
    let (ret, cmd) = path_launch_option("", &file_manager());
    assert!(!ret.show_animation && cmd.is_none());
}

fn entry(name: &str, source: &str) -> DesktopEntry {
    DesktopEntry {
        name: name.to_string(),
        keywords: vec!["kw".to_string()],
        icon: Some("icon".to_string()),
        exec_line: format!("{name} %u"),
        exec_path: None,
        terminal: false,
        exec_search: name.to_lowercase(),
        type_search: None,
        source: source.to_string(),
        actions: vec![DesktopAction {
            id: "new-window".to_string(),
            name: "New Window".to_string(),
            exec_line: format!("{name} --new-window"),
        }],
    }
}

#[test]
fn bonus_matches_the_logarithmic_curve() {
    for runs in (0u64..200).chain([1000, 1 << 40, u64::MAX]) {
        let curve = ((runs as f64) - 2.0).ln() / 0.025;
        assert_eq!(bonus_score(runs), curve.clamp(0.0, 60.0) as u64, "{runs}");
    }
}

#[test]
fn run_counts_accumulate_per_file() {
    let mut runs = RunCounts::new();
    assert_eq!(runs.get("/a.desktop"), 0);
    runs.add("/a.desktop", 2);
    runs.add("/b.desktop", 1);
    runs.add("/a.desktop", 3);
    assert_eq!(runs.get("/a.desktop"), 5);
    assert_eq!(runs.get("/b.desktop"), 1);
    assert_eq!(runs.get("/c.desktop"), 0);
}

#[test]
fn applications_are_ranked_by_runs_stably() {
    let entries = vec![
        entry("A", "/a"),
        entry("B", "/b"),
        entry("C", "/c"),
        entry("D", "/d"),
    ];
    let mut runs = RunCounts::new();
    runs.add("/b", 5);
    runs.add("/d", 9);
    runs.add("/c", 5);
    let items = get_launch_items(&entries, &runs);
    let names: Vec<_> = items.iter().map(|i| i.name.as_str()).collect();
    assert_eq!(names, vec!["D", "B", "C", "A"]);
    assert_eq!(items[0].bonus_score, 60);
    assert_eq!(items[1].bonus_score, 43);
    assert_eq!(items[3].bonus_score, 0);
    assert_eq!(items[0].children.len(), 1);
    assert_eq!(items[0].children[0].name, "New Window");
    assert_eq!(items[0].children[0].iden.data_additional.as_deref(), Some("new-window"));
    assert_eq!(items[0].iden.data.as_deref(), Some("/d"));
    let single = from_desktop_entry(&entries[0], 7);
    assert_eq!(single.bonus_score, 7);
    assert_eq!(single.details, "a");
}

#[test]
fn launching_an_application_or_its_action() {
    let entries = vec![entry("A", "/a"), entry("B", "/b")];
    let (ret, run) = app_launch_option(Some("/b"), None, &entries);
    assert!(ret.show_animation);
    let run = run.expect("a run");
    assert_eq!(run.exec_line, "B %u");
    assert_eq!(run.source, "/b");
    let (_, run) = app_launch_option(Some("/a"), Some("new-window"), &entries);
    assert_eq!(run.expect("a run").exec_line, "A --new-window");
    let (ret, run) = app_launch_option(Some("/a"), Some("missing"), &entries);
    assert!(!ret.show_animation && run.is_none());
    let (ret, run) = app_launch_option(Some("/z"), None, &entries);
    assert!(!ret.show_animation && run.is_none());
    let (ret, run) = app_launch_option(None, None, &entries);
    assert!(!ret.show_animation && run.is_none());
}

fn matched(name: &str, score: u64) -> hyprshell::launcher::MatchedLaunchItem {
    hyprshell::launcher::MatchedLaunchItem {
        item: hyprshell::launcher::LaunchItem {
            name: name.to_string(),
            keywords: vec![],
            icon: None,
            details: String::new(),
            details_long: None,
            bonus_score: 0,
            iden: Identifier::plugin(PluginName::Path),
            takes_args: false,
            children: vec![],
        },
        score,
        args: None,
        enabled: true,
    }
}

#[test]
fn matches_rank_by_descending_score_stably() {
    let ranked = hyprshell::launcher::rank_matches(vec![
        matched("a", 1),
        matched("b", 5),
        matched("c", 1),
        matched("d", 7),
        matched("e", 5),
    ]);
    let names: Vec<_> = ranked.iter().map(|m| m.item.name.as_str()).collect();
    assert_eq!(names, vec!["d", "b", "e", "a", "c"]);
}

#[test]
fn input_driven_items_follow_enabled_plugins() {
    let mut plugins = hyprshell::config::Plugins {
        applications: None,
        terminal: None,
        shell: None,
        websearch: None,
        calc: None,
        path: Some(()),
        actions: None,
    };
    let out = hyprshell::launcher::get_input_driven_launch_items(
        &plugins,
        vec![matched("path", 3)],
        vec![matched("calc", 9)],
    );
    assert_eq!(out.len(), 1);
    assert_eq!(out[0].item.name, "path");
    plugins.calc = Some(hyprshell::config::CalcPluginConfig { prefix: None });
    let out = hyprshell::launcher::get_input_driven_launch_items(
        &plugins,
        vec![matched("path", 3)],
        vec![matched("calc", 9)],
    );
    let names: Vec<_> = out.iter().map(|m| m.item.name.as_str()).collect();
    assert_eq!(names, vec!["calc", "path"]);
}

#[test]
fn launches_are_routed_to_their_plugin() {
    let iden = Identifier::data(PluginName::WebSearch, "https://g/{}".to_string());
    assert_eq!(
        launch(&iden, "rust", None),
        PluginLaunch::WebSearch { data: Some("https://g/{}".to_string()), text: "rust".to_string() }
    );
    let iden = Identifier::data_additional(PluginName::Actions, "kill".into(), "child".into());
    assert_eq!(
        launch(&iden, "firefox", Some("-9")),
        PluginLaunch::Actions {
            data: Some("kill".into()),
            text: "firefox".into(),
            data_additional: Some("child".into()),
            args: Some("-9".into())
        }
    );
    assert_eq!(
        launch(&Identifier::plugin(PluginName::Path), "/etc", None),
        PluginLaunch::Path { text: "/etc".into() }
    );
    assert_eq!(
        launch(&Identifier::plugin(PluginName::Calc), "1+1", None),
        PluginLaunch::Calc { data: None }
    );
}

#[test]
fn browser_comes_from_an_entry_with_exec_or_the_portal() {
    assert!(browser_from_entry(None, Some("x".into()), None).is_none());
    let b = browser_from_entry(Some("firefox %u".into()), Some("firefox".into()), None).unwrap();
    assert_eq!(b.exec_line, "firefox %u");
    assert_eq!(b.startup_wm_class.as_deref(), Some("firefox"));
    let kept = get_browser_info(Some(browser("chromium %U")));
    assert_eq!(kept.exec_line, "chromium %U");
    let portal = get_browser_info(None);
    assert_eq!(
        portal.exec_line,
        r#"gdbus call --session --dest="org.freedesktop.portal.Desktop" --object-path=/org/freedesktop/portal/desktop --method=org.freedesktop.portal.OpenURI.OpenURI '' '%u' '{}'"#
    );
    assert_eq!(portal.startup_wm_class.as_deref(), Some("firefox"));
    assert_eq!(portal.icon.as_deref(), Some("Dbus"));
}

#[test]
fn file_manager_comes_from_an_entry_with_exec_or_the_service() {
    assert!(file_manager_from_entry(None, Some("Files".into()), None).is_none());
    let f = file_manager_from_entry(Some("nautilus %U".into()), None, Some("n".into())).unwrap();
    assert_eq!(f.name, "");
    assert_eq!(f.icon.as_deref(), Some("n"));
    let service = get_file_manager_info(None);
    assert_eq!(
        service.exec_line,
        r#"gdbus call --session --dest="org.freedesktop.FileManager1" --object-path=/org/freedesktop/FileManager1 --method=org.freedesktop.FileManager1.ShowFolders "['file://%u']" ''"#
    );
    assert_eq!(service.name, "Dbus");
    assert_eq!(service.icon.as_deref(), Some("org.gnome.Nautilus"));
}

#[test]
fn engine_keys_are_lower_case_letters() {
    assert_eq!(convert_to_key('a'), Some('a'));
    assert_eq!(convert_to_key('z'), Some('z'));
    assert_eq!(convert_to_key('A'), None);
    assert_eq!(convert_to_key('1'), None);
    let config = WebSearchConfig {
        engines: vec![
            SearchEngine { url: "u".into(), name: "G".into(), key: 'g' },
            SearchEngine { url: "u".into(), name: "N".into(), key: '1' },
            SearchEngine { url: "u".into(), name: "W".into(), key: 'w' },
        ],
    };
    assert_eq!(get_chars(&config), vec!['g', 'w']);
}
