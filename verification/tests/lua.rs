use hyprshell::lua::{
    format_bool_field, format_bool_field_opt, format_raw_field, format_raw_field_opt,
    format_string, format_string_field, format_string_field_opt, format_string_opt, EvalRaw,
    HyprError,
};

#[test]
fn test_format_string() {
    assert_eq!(format_string(&r#" test "#), r#"" test ""#);
    assert_eq!(format_string(&r#" "test" "#), r#"" \"test\" ""#);
    assert_eq!(format_string(&r#" "test\n" "#), r#"" \"test\\n\" ""#);
    assert_eq!(format_string(&r#" "test\r" "#), r#"" \"test\\r\" ""#);
    assert_eq!(format_string(&r#" "test\t" "#), r#"" \"test\\t\" ""#);
    assert_eq!(format_string(&r#" test\\ "#), r#"" test\\\\ ""#);
    assert_eq!(format_string(&r#" "test\"" "#), r#"" \"test\\\"\" ""#);
    assert_eq!(
        format_string(&r#" "test\n\r\t\\" "#),
        r#"" \"test\\n\\r\\t\\\\\" ""#
    );
    assert_eq!(format_string(&r#" test's "#), r#"" test's ""#);
}

#[test]
fn format_string_escapes_real_control_characters() {
    assert_eq!(format_string("a\nb\tc\rd"), "\"a\\nb\\tc\\rd\"");
    assert_eq!(format_string(""), "\"\"");
    assert_eq!(format_string("ü\"ß"), "\"ü\\\"ß\"");
}

#[test]
fn format_string_opt_writes_nothing_for_none() {
    assert_eq!(format_string_opt(Some("x")), "\"x\"");
    assert_eq!(format_string_opt(None), "");
}

#[test]
fn fields_are_lua_table_entries() {
    assert_eq!(format_string_field("name", "a\"b"), "name = \"a\\\"b\", ");
    assert_eq!(format_string_field_opt("name", Some("x")), "name = \"x\", ");
    assert_eq!(format_string_field_opt("name", None), "");
    assert_eq!(format_bool_field("release", true), "release = true, ");
    assert_eq!(format_bool_field("release", false), "release = false, ");
    assert_eq!(format_bool_field_opt("repeat", Some(false)), "repeat = false, ");
    assert_eq!(format_bool_field_opt("repeat", None), "");
    assert_eq!(format_raw_field("key", "{ 1 }"), "key = { 1 }, ");
    assert_eq!(format_raw_field_opt("key", Some("x")), "key = x, ");
    assert_eq!(format_raw_field_opt("key", None), "");
}

#[test]
fn eval_request_and_reply() {
    let e = EvalRaw::new("hl.dispatch()");
    assert_eq!(e.request(), "eval hl.dispatch()");
    assert!(EvalRaw::reply_result("ok").is_ok());
    match EvalRaw::reply_result("error: bad") {
        Err(HyprError::NotOkDispatch(m)) => assert_eq!(m, "Could not eval: error: bad"),
        other => panic!("unexpected {other:?}"),
    }
}

#[test]
fn literal_holds_no_bare_line_break_or_tab() {
    let lit = format_string("a\tb\nc\rd\"e");
    assert_eq!(lit, "\"a\\tb\\nc\\rd\\\"e\"");
    assert!(!lit.contains('\t') && !lit.contains('\n') && !lit.contains('\r'));
}
