use dprint_core::configuration::{GlobalConfiguration, NewLineKind};
use dprint_plugin_stylua::{detect_line_endings, Configuration, RawConfigMap, RawValue, StyluaPluginHandler};
use stylua_lib::{IndentType, LineEndings, OutputVerification};

fn config_with(entries: Vec<(&str, RawValue)>) -> Configuration {
    let mut m = RawConfigMap::new();
    for (k, v) in entries {
        m.insert(k.to_string(), v);
    }
    StyluaPluginHandler.resolve_config(m, &GlobalConfiguration::default()).config
}

fn kind(k: &str) -> Configuration {
    config_with(vec![("newLineKind", RawValue::Text(k.to_string()))])
}

#[test]
fn changed_text_is_returned() {
    let c = config_with(vec![]);
    let out = StyluaPluginHandler.format("a.lua", "local x=1", &c).ok().unwrap();
    assert_eq!(out, Some("local x = 1\n".to_string()));
}

#[test]
fn formatting_the_output_again_is_unchanged() {
    let c = config_with(vec![]);
    let first = StyluaPluginHandler.format("a.lua", "local   t={1,2}\nprint( t )", &c).ok().unwrap().unwrap();
    let second = StyluaPluginHandler.format("a.lua", &first, &c).ok().unwrap();
    assert_eq!(second, None);
}

#[test]
fn formatted_text_is_unchanged() {
    let c = config_with(vec![]);
    assert_eq!(StyluaPluginHandler.format("a.lua", "local x = 1\n", &c).ok().unwrap(), None);
}

#[test]
fn parse_error_fails() {
    let c = config_with(vec![]);
    let r = StyluaPluginHandler.format("a.lua", "local = = 1", &c);
    assert!(!r.err().unwrap().message.is_empty());
}

#[test]
fn auto_follows_first_line_ending() {
    let c = kind("auto");
    assert_eq!(c.new_line_kind, NewLineKind::Auto);
    let out = StyluaPluginHandler.format("a.lua", "local x=1\r\nlocal y=2\n", &c).ok().unwrap().unwrap();
    assert_eq!(out, "local x = 1\r\nlocal y = 2\r\n");
    let out = StyluaPluginHandler.format("a.lua", "local x=1\nlocal y=2\r\n", &c).ok().unwrap().unwrap();
    assert_eq!(out, "local x = 1\nlocal y = 2\n");
}

#[test]
fn system_kind_detects_too() {
    let c = kind("system");
    let out = StyluaPluginHandler.format("a.lua", "local x=1\r\n", &c).ok().unwrap().unwrap();
    assert_eq!(out, "local x = 1\r\n");
}

#[test]
fn fixed_kinds_ignore_the_text() {
    let out = StyluaPluginHandler.format("a.lua", "local x=1\n", &kind("crlf")).ok().unwrap().unwrap();
    assert_eq!(out, "local x = 1\r\n");
    let out = StyluaPluginHandler.format("a.lua", "local x=1\r\n", &kind("lf")).ok().unwrap().unwrap();
    assert_eq!(out, "local x = 1\n");
}

#[test]
fn crlf_text_unchanged_under_crlf() {
    let c = kind("crlf");
    assert_eq!(StyluaPluginHandler.format("a.lua", "local x = 1\r\n", &c).ok().unwrap(), None);
}

#[test]
fn detection_looks_at_first_terminator() {
    assert_eq!(detect_line_endings("a\r\nb\n"), LineEndings::Windows);
    assert_eq!(detect_line_endings("a\nb\r\n"), LineEndings::Unix);
    assert_eq!(detect_line_endings("\r\n"), LineEndings::Windows);
    assert_eq!(detect_line_endings("\n"), LineEndings::Unix);
    assert_eq!(detect_line_endings(""), LineEndings::Unix);
    assert_eq!(detect_line_endings("a\rb"), LineEndings::Unix);
}

#[test]
fn settings_follow_the_configuration() {
    let c = config_with(vec![
        ("useTabs", RawValue::Bool(true)),
        ("indentWidth", RawValue::Number(3)),
        ("lineWidth", RawValue::Number(40)),
        ("verify", RawValue::Bool(true)),
        ("sortRequires", RawValue::Bool(true)),
    ]);
    let s = c.engine_settings(LineEndings::Windows);
    assert_eq!(s.column_width, 40);
    assert_eq!(s.indent_width, 3);
    assert_eq!(s.indent_type, IndentType::Tabs);
    assert_eq!(s.line_endings, LineEndings::Windows);
    assert!(s.sort_requires);
    assert!(matches!(s.verification, OutputVerification::Full));
}

#[test]
fn tabs_and_width_reach_the_engine() {
    let c = config_with(vec![("useTabs", RawValue::Bool(true)), ("verify", RawValue::Bool(true))]);
    let out = StyluaPluginHandler.format("a.lua", "if a then\nb()\nend", &c).ok().unwrap().unwrap();
    assert_eq!(out, "if a then\n\tb()\nend\n");
    let c = config_with(vec![("indentWidth", RawValue::Number(3))]);
    let out = StyluaPluginHandler.format("a.lua", "if a then\nb()\nend", &c).ok().unwrap().unwrap();
    assert_eq!(out, "if a then\n   b()\nend\n");
}

#[test]
fn quote_style_reaches_the_engine() {
    let c = config_with(vec![("quoteStyle", RawValue::Text("ForceSingle".to_string()))]);
    let out = StyluaPluginHandler.format("a.lua", "local s = \"x\"\n", &c).ok().unwrap().unwrap();
    assert_eq!(out, "local s = 'x'\n");
}
