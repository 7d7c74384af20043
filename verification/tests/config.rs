use hyprshell::check::{check, CheckError};
use hyprshell::config::{
    CalcPluginConfig, Config, Modifier, Overview, Plugins, SearchEngine, Switch, Windows,
};
use hyprshell::convert::default_config;
use hyprshell::explain::explain;

fn full() -> Config {
    Config {
        windows: Some(Windows {
            overview: Some(Overview::default()),
            switch: Some(Switch::default()),
            ..Default::default()
        }),
    }
}

#[test]
fn test_valid_config() {
    let config = full();
    let result = check(&config);
    assert!(result.is_ok());
}

#[test]
fn test_invalid_scale() {
    let mut config = full();
    config
        .windows
        .as_mut()
        .expect("config option missing")
        .general
        .scale_bits = 20.0f64.to_bits();
    assert!(check(&config).is_err());
    config
        .windows
        .as_mut()
        .expect("config option missing")
        .general
        .scale_bits = 0.0f64.to_bits();
    assert!(check(&config).is_err());
}

#[test]
fn test_invalid_key() {
    let mut config = full();
    let overview = config
        .windows
        .as_mut()
        .expect("config option missing")
        .overview
        .as_mut()
        .expect("config option missing");
    overview.key = String::from("super");
    assert!(check(&config).is_err());
}

#[test]
fn test_duplicate_engine_key() {
    let mut config = full();
    let launcher = &mut config
        .windows
        .as_mut()
        .expect("config option missing")
        .overview
        .as_mut()
        .expect("config option missing")
        .launcher;
    if let Some(ws) = launcher.plugins.websearch.as_mut() {
        ws.engines.clear();
        ws.engines.push(SearchEngine {
            key: 'g',
            name: String::from("Google"),
            url: String::from("https://google1.com"),
        });
        ws.engines.push(SearchEngine {
            key: 'g',
            name: String::from("Google2"),
            url: String::from("https://google2.com"),
        });
    }
    assert!(check(&config).is_err());
}

#[test]
fn test_empty_engine_url() {
    let mut config = full();
    let launcher = &mut config
        .windows
        .as_mut()
        .expect("config option missing")
        .overview
        .as_mut()
        .expect("config option missing")
        .launcher;
    if let Some(ws) = launcher.plugins.websearch.as_mut() {
        if let Some(ws) = ws.engines.get_mut(0) {
            ws.url = String::from("");
        }
    }
    assert!(check(&config).is_err());
}

#[test]
fn test_empty_engine_name() {
    let mut config = full();
    let launcher = &mut config
        .windows
        .as_mut()
        .expect("config option missing")
        .overview
        .as_mut()
        .expect("config option missing")
        .launcher;
    if let Some(ws) = launcher.plugins.websearch.as_mut() {
        if let Some(engine) = ws.engines.get_mut(0) {
            engine.name = String::from("");
        }
    }
    assert!(check(&config).is_err());
}

#[test]
fn test_empty_terminal() {
    let mut config = full();
    let launcher = &mut config
        .windows
        .as_mut()
        .expect("config option missing")
        .overview
        .as_mut()
        .expect("config option missing")
        .launcher;
    launcher.default_terminal = Some(String::from(""));
    assert!(check(&config).is_err());
}

#[test]
fn check_reports_each_error_kind_and_its_message() {
    let mut config = full();
    let w = config.windows.as_mut().expect("windows");
    w.general.scale_bits = 15.0f64.to_bits();
    assert_eq!(check(&config), Err(CheckError::InvalidScale));
    assert_eq!(
        CheckError::InvalidScale.message(),
        "Scale factor must be less than 15 and greater than 0"
    );

    let mut config = full();
    config.windows.as_mut().expect("windows").overview.as_mut().expect("overview").key =
        String::from("ctrl");
    assert_eq!(check(&config), Err(CheckError::OpenKeyIsBareModifier));

    let mut config = full();
    config
        .windows
        .as_mut()
        .expect("windows")
        .overview
        .as_mut()
        .expect("overview")
        .launcher
        .default_terminal = Some(String::new());
    assert_eq!(check(&config), Err(CheckError::EmptyTerminal));
    assert_eq!(
        CheckError::EmptyTerminal.message(),
        "Default terminal command cannot be empty"
    );

    let mut config = full();
    let engines = &mut config
        .windows
        .as_mut()
        .expect("windows")
        .overview
        .as_mut()
        .expect("overview")
        .launcher
        .plugins
        .websearch
        .as_mut()
        .expect("websearch")
        .engines;
    engines[1].key = 'g';
    assert_eq!(check(&config), Err(CheckError::DuplicateEngineKey('g')));
    assert_eq!(
        CheckError::DuplicateEngineKey('g').message(),
        "Duplicate search engine key: g"
    );
    assert_eq!(CheckError::EmptyEngineUrl.message(), "Search engine url cannot be empty");
    assert_eq!(CheckError::EmptyEngineName.message(), "Search engine name cannot be empty");
}

#[test]
fn scale_bounds_follow_float_comparison() {
    for (scale, ok) in [
        (0.0f64, false),
        (-0.0, false),
        (-1.0, false),
        (f64::NEG_INFINITY, false),
        (f64::INFINITY, false),
        (15.0, false),
        (14.999, true),
        (f64::MIN_POSITIVE, true),
        (8.5, true),
        (1.0, true),
        (f64::NAN, true),
    ] {
        let mut config = full();
        config.windows.as_mut().expect("windows").general.scale_bits = scale.to_bits();
        let expected = !(scale >= 15.0 || scale <= 0.0);
        assert_eq!(expected, ok, "{scale}");
        assert_eq!(check(&config).is_ok(), ok, "{scale}");
    }
}

#[test]
fn default_windows_values() {
    let config = default_config();
    let w = config.windows.expect("default windows");
    assert_eq!(f64::from_bits(w.general.scale_bits), 8.5);
    assert_eq!(w.general.items_per_row, 5);
    assert!(w.overview.is_none());
    assert!(w.switch.is_none());
    let s = Switch::default();
    assert_eq!(s.modifier, Modifier::Alt);
    assert_eq!(s.key, "Tab");
    assert_eq!(s.kill_key, 'q');
    let o = Overview::default();
    assert_eq!(o.key, "Super_L");
    assert_eq!(o.modifier, Modifier::Super);
    let engines = &o.launcher.plugins.websearch.as_ref().expect("websearch").engines;
    assert_eq!(engines.len(), 2);
    assert_eq!(engines[0].name, "Google");
    assert_eq!(engines[0].key, 'g');
    assert_eq!(engines[1].name, "Wikipedia");
    assert_eq!(engines[1].url, "https://en.wikipedia.org/wiki/Special:Search?search={}");
}

fn create_test_config() -> Config {
    full()
}

#[test]
fn test_explain_with_overview_calc_0() {
    let out: &str = r"Config is valid (/test/config.ron)
Explanation (blue are keys, bold blue keys can be configured in config):
Use Super + Super_L to open the Overview. Use tab and grave / shift + tab to select a different window, press return to switch
You can also use the arrow keys or Ctrl + vim keys to navigate the workspaces. Use Esc to close the overview.
After opening the Overview the Launcher is available:
	- Start typing to search through applications (sorted by how often they were opened).
		Press return to launch the first app, use Ctrl + 1/2/3/... to open the second, third, etc.
	- Press Ctrl + t to run the typed command in a terminal.
	- Press Ctrl + <key> to search the typed text in any of the configured SearchEngines: Google, Wikipedia.
	- Typing `=` followed by a mathematical expression will calculate it and display the result in the launcher.
	- Paths (starting with ~ or /) can be open in default file-manager.
	- Type Reboot/Shutdown/etc. to run corresponding commands. Type `actions` to see all available ones.

Press Alt + tab and hold Alt to view recently used applications. Press tab and grave / shift + tab to select a different window, release Alt to close the window.
";
    let mut config = create_test_config();
    let a = config.windows.as_mut().expect("must exist");
    a.overview
        .as_mut()
        .expect("must exist")
        .launcher
        .plugins
        .calc = Some(CalcPluginConfig {
        prefix: Some("=".to_string()),
    });
    let result = explain(&config, Some("/test/config.ron"), false);
    assert_eq!(result, out);
}

#[test]
fn test_explain_with_overview_calc_1() {
    let out: &str = r"Config is valid (/test/config.ron)
Explanation (blue are keys, bold blue keys can be configured in config):
Use Super + Super_L to open the Overview. Use tab and grave / shift + tab to select a different window, press return to switch
You can also use the arrow keys or Ctrl + vim keys to navigate the workspaces. Use Esc to close the overview.
After opening the Overview the Launcher is available:
	- Start typing to search through applications (sorted by how often they were opened).
		Press return to launch the first app, use Ctrl + 1/2/3/... to open the second, third, etc.
	- Press Ctrl + t to run the typed command in a terminal.
	- Press Ctrl + <key> to search the typed text in any of the configured SearchEngines: Google, Wikipedia.
	- Typing a mathematical expression will calculate it and display the result in the launcher.
	- Paths (starting with ~ or /) can be open in default file-manager.
	- Type Reboot/Shutdown/etc. to run corresponding commands. Type `actions` to see all available ones.

Press Alt + tab and hold Alt to view recently used applications. Press tab and grave / shift + tab to select a different window, release Alt to close the window.
";
    let mut config = create_test_config();
    let a = config.windows.as_mut().expect("must exist");
    a.overview
        .as_mut()
        .expect("must exist")
        .launcher
        .plugins
        .calc = Some(CalcPluginConfig { prefix: None });
    let result = explain(&config, Some("/test/config.ron"), false);
    assert_eq!(result, out);
}

#[test]
fn test_explain_without_overview() {
    let out: &str = r"Config is valid (/test/config.ron)
Explanation (blue are keys, bold blue keys can be configured in config):
<Overview disabled>

Press Alt + tab and hold Alt to view recently used applications. Press tab and grave / shift + tab to select a different window, release Alt to close the window.
";
    let mut config = create_test_config();
    config
        .windows
        .as_mut()
        .expect("config option missing")
        .overview = None;
    let result = explain(&config, Some("/test/config.ron"), false);
    assert_eq!(result, out);
}

#[test]
fn test_explain_without_switch() {
    let out: &str = r"Config is valid (/test/config.ron)
Explanation (blue are keys, bold blue keys can be configured in config):
Use Super + Super_L to open the Overview. Use tab and grave / shift + tab to select a different window, press return to switch
You can also use the arrow keys or Ctrl + vim keys to navigate the workspaces. Use Esc to close the overview.
After opening the Overview the Launcher is available:
	- Start typing to search through applications (sorted by how often they were opened).
		Press return to launch the first app, use Ctrl + 1/2/3/... to open the second, third, etc.
	- Press Ctrl + t to run the typed command in a terminal.
	- Press Ctrl + <key> to search the typed text in any of the configured SearchEngines: Google, Wikipedia.
	- Typing a mathematical expression will calculate it and display the result in the launcher.
	- Paths (starting with ~ or /) can be open in default file-manager.
	- Type Reboot/Shutdown/etc. to run corresponding commands. Type `actions` to see all available ones.

<Switch mode disabled>
";
    let mut config = create_test_config();
    config
        .windows
        .as_mut()
        .expect("config option missing")
        .switch = None;
    let result = explain(&config, Some("/test/config.ron"), false);
    assert_eq!(result, out);
}

#[test]
fn test_explain_without_plugins() {
    let out: &str = r"Use Super + Super_L to open the Overview. Use tab and grave / shift + tab to select a different window, press return to switch
You can also use the arrow keys or Ctrl + vim keys to navigate the workspaces. Use Esc to close the overview.
After opening the Overview the Launcher is available:
	<No plugins enabled in launcher>

Press Alt + tab and hold Alt to view recently used applications. Press tab and grave / shift + tab to select a different window, release Alt to close the window.
";
    let mut config = create_test_config();
    config
        .windows
        .as_mut()
        .expect("config option missing")
        .overview
        .as_mut()
        .expect("config option missing")
        .launcher
        .plugins = Plugins {
        applications: None,
        terminal: None,
        shell: None,
        websearch: None,
        calc: None,
        path: None,
        actions: None,
    };
    let result = explain(&config, None, false);
    assert_eq!(result, out);
}

#[test]
fn explain_colours_keys_and_reports_disabled_windows() {
    let config = Config { windows: None };
    assert_eq!(explain(&config, None, false), "<Windows disabled>\n");
    assert_eq!(
        explain(&config, None, true),
        "\x1b[3m<Windows disabled>\x1b[0m\n"
    );
}

fn strip_colour_codes(s: &str) -> String {
    let mut out = String::new();
    let mut chars = s.chars().peekable();
    while let Some(c) = chars.next() {
        if c == '\x1b' && chars.peek() == Some(&'[') {
            chars.next();
            while let Some(d) = chars.next() {
                if d == 'm' {
                    break;
                }
            }
        } else {
            out.push(c);
        }
    }
    out
}

#[test]
fn explanation_with_file_is_header_then_body_and_colours_only_add_codes() {
    let config = full();
    let plain = explain(&config, Some("/c/config.toml"), false);
    let body = explain(&config, None, false);
    let header = "Config is valid (/c/config.toml)\nExplanation (blue are keys, bold blue keys can be configured in config):\n";
    assert_eq!(plain, format!("{header}{body}"));
    let coloured = explain(&config, Some("/c/config.toml"), true);
    assert_ne!(coloured, plain);
    assert_eq!(strip_colour_codes(&coloured), plain);
    assert_eq!(strip_colour_codes(&explain(&create_test_config(), None, true)), explain(&create_test_config(), None, false));
}
