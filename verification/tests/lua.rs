use hyprland::lua::{
    format_bool_field, format_bool_field_opt, format_raw_field, format_raw_field_opt, format_string,
    format_string_field, format_string_field_opt,
};

#[test]
fn test_format_string() {
    assert_eq!(format_string(r#" test "#), r#"" test ""#);
    assert_eq!(format_string(r#" "test" "#), r#"" \"test\" ""#);
    assert_eq!(format_string(r#" "test\n" "#), r#"" \"test\\n\" ""#);
    assert_eq!(format_string(r#" "test\r" "#), r#"" \"test\\r\" ""#);
    assert_eq!(format_string(r#" "test\t" "#), r#"" \"test\\t\" ""#);
    assert_eq!(format_string(r#" test\\ "#), r#"" test\\\\ ""#);
    assert_eq!(format_string(r#" "test\"" "#), r#"" \"test\\\"\" ""#);
    assert_eq!(
        format_string(r#" "test\n\r\t\\" "#),
        r#"" \"test\\n\\r\\t\\\\\" ""#
    );
    assert_eq!(format_string(r#" test's "#), r#"" test's ""#);
}

#[test]
fn format_string_escapes_control_characters() {
    assert_eq!(format_string("a\nb\tc\rd"), "\"a\\nb\\tc\\rd\"");
    assert_eq!(format_string(""), "\"\"");
}

#[test]
fn fields_end_with_comma_and_space() {
    assert_eq!(format_raw_field("order", "-20"), "order = -20, ");
    assert_eq!(format_string_field("name", "x\"y"), "name = \"x\\\"y\", ");
    assert_eq!(format_bool_field("blur", true), "blur = true, ");
    assert_eq!(format_bool_field("blur", false), "blur = false, ");
}

#[test]
fn optional_fields_are_empty_when_absent() {
    assert_eq!(format_raw_field_opt("a", &None), "");
    assert_eq!(format_raw_field_opt("a", &Some("1".to_string())), "a = 1, ");
    assert_eq!(format_string_field_opt("a", &None), "");
    assert_eq!(format_string_field_opt("a", &Some("b".to_string())), "a = \"b\", ");
    assert_eq!(format_bool_field_opt("a", &None), "");
    assert_eq!(format_bool_field_opt("a", &Some(true)), "a = true, ");
}

fn read_lua_literal(lit: &str) -> Option<String> {
    let body = lit.strip_prefix('"')?.strip_suffix('"')?;
    let mut out = String::new();
    let mut it = body.chars();
    while let Some(c) = it.next() {
        match c {
            '"' => return None,
            '\\' => out.push(match it.next()? {
                'n' => '\n',
                'r' => '\r',
                't' => '\t',
                '\\' => '\\',
                '"' => '"',
                _ => return None,
            }),
            c => out.push(c),
        }
    }
    Some(out)
}

#[test]
fn lua_string_reads_back() {
    for v in ["", "plain", "\"quoted\"", "a\\b", "line\nbreak\r\ttab", "end\\", "\"); os.exit() --", "ünï\"cødé"] {
        assert_eq!(read_lua_literal(&format_string(v)).as_deref(), Some(v));
    }
}
