use hyprshell::binds::{
    bind_mods, generate_open_keybinds, layer_rules, legacy_binding, legacy_layer_rules,
    lua_binding, BindDispatch, BindMod, LayerEffect, LuaFlag,
};
use hyprshell::config::{Modifier, Overview, Switch, Windows};

#[test]
fn release_bindings_only_use_both_configured_modifier_sides() {
    for modifier in [Modifier::Alt, Modifier::Ctrl, Modifier::Super] {
        let windows = Windows {
            switch: Some(Switch {
                modifier,
                key: "F6".into(),
                ..Switch::default()
            }),
            ..Windows::default()
        };
        let bindings = generate_open_keybinds(&windows);
        let releases: Vec<_> = bindings.iter().filter(|b| b.release).collect();
        assert_eq!(releases.len(), 2);
        assert_eq!(releases[0].key.as_str(), modifier.to_keysym_l());
        assert_eq!(releases[1].key.as_str(), modifier.to_keysym_r());
        assert!(
            releases
                .iter()
                .all(|b| !b.timestamped && b.command.contains("\"switch\":true"))
        );
        let opens: Vec<_> = bindings.iter().filter(|b| !b.release).collect();
        assert_eq!(opens.len(), 3);
        assert!(opens.iter().all(|b| b.timestamped));
        assert_eq!(opens[0].key.as_str(), "F6");
        assert_eq!(opens[2].mods, vec![modifier.to_str(), "shift"]);
        assert!(opens[2].command.contains("\"reverse\":true"));
    }
}

#[test]
fn overview_binding_comes_first() {
    let windows = Windows {
        overview: Some(Overview::default()),
        switch: Some(Switch::default()),
        ..Windows::default()
    };
    let bindings = generate_open_keybinds(&windows);
    assert_eq!(bindings.len(), 6);
    assert_eq!(bindings[0].key, "Super_L");
    assert_eq!(bindings[0].mods, vec!["super"]);
    assert!(!bindings[0].release && !bindings[0].timestamped);
    assert_eq!(bindings[0].desc, "Open Overview with Super + Super_L");
    assert!(bindings[0].command.contains("OpenOverview"));
    assert_eq!(bindings[2].key, "grave");
    assert_eq!(bindings[1].desc, "Open Switch with Alt + Tab");
    assert!(generate_open_keybinds(&Windows::default()).is_empty());
}

#[test]
fn modifier_names_are_matched_in_any_case() {
    let mods = bind_mods(&vec!["ALT", "Ctrl", "control", "Win", "SUPER", "shift", "hyper"]);
    assert_eq!(
        mods,
        vec![
            BindMod::Alt,
            BindMod::Ctrl,
            BindMod::Ctrl,
            BindMod::Super,
            BindMod::Super,
            BindMod::Shift
        ]
    );
}

#[test]
fn lua_and_legacy_release_bindings() {
    let windows = Windows {
        switch: Some(Switch::default()),
        ..Windows::default()
    };
    let bindings = generate_open_keybinds(&windows);
    let release = &bindings[3];
    let lua = lua_binding(release);
    assert_eq!(lua.key, "Alt_L");
    assert_eq!(lua.flags.len(), 5);
    assert_eq!(lua.flags[0], LuaFlag::Release);
    assert_eq!(lua.flags[1], LuaFlag::IgnoreMods);
    assert_eq!(lua.flags[2], LuaFlag::Transparent);
    assert_eq!(lua.flags[3], LuaFlag::AutoConsuming);
    assert!(matches!(lua.dispatcher, BindDispatch::ExecCmd(ref c) if c.contains("CloseSwitch")));
    let legacy = legacy_binding(release);
    assert_eq!(legacy.flags, "rti");
    assert!(!legacy.command.contains("--event-time"));

    let open = &bindings[0];
    let lua = lua_binding(open);
    assert_eq!(lua.flags[0], LuaFlag::AutoConsuming);
    assert_eq!(lua.flags[1], LuaFlag::Repeating);
    match lua.dispatcher {
        BindDispatch::LuaFunction(f) => {
            assert!(f.contains("state.pending[state.serial] = state.time"));
            assert!(f.contains("--event-time"));
        }
        other => panic!("unexpected {other:?}"),
    }
    assert_eq!(legacy_binding(open).flags, "e");
}

#[test]
fn layer_rules_for_each_namespace() {
    let rules = layer_rules("launcher", "overview", "switch");
    assert_eq!(rules.len(), 3);
    assert_eq!(rules[2].namespace, "switch");
    assert_eq!(
        rules[2].effects,
        vec![
            LayerEffect::NoAnim(true),
            LayerEffect::Xray(false),
            LayerEffect::DimAround(true)
        ]
    );
    assert_eq!(
        legacy_layer_rules("l", "o", "s"),
        vec![
            "noanim, l",
            "xray 0, l",
            "noanim, o",
            "xray 0, o",
            "noanim, s",
            "dimaround, s",
            "xray 0, s"
        ]
    );
}
