use dprint_core::configuration::{GlobalConfiguration, NewLineKind};
use dprint_plugin_stylua::values::{
    read_call_parentheses, read_collapse, read_flag, read_new_line_kind, read_positive_u32,
    read_positive_u8, read_quote_style,
};
use dprint_plugin_stylua::{RawConfigMap, RawValue, ResolveConfigurationResult, StyluaPluginHandler};
use stylua_lib::{CallParenType, CollapseSimpleStatement, QuoteStyle};

fn text(s: &str) -> RawValue {
    RawValue::Text(s.to_string())
}

fn map(entries: Vec<(&str, RawValue)>) -> RawConfigMap {
    let mut m = RawConfigMap::new();
    for (k, v) in entries {
        m.insert(k.to_string(), v);
    }
    m
}

fn resolve(entries: Vec<(&str, RawValue)>, global: &GlobalConfiguration) -> ResolveConfigurationResult {
    StyluaPluginHandler.resolve_config(map(entries), global)
}

fn names(r: &ResolveConfigurationResult) -> Vec<String> {
    r.diagnostics.iter().map(|d| d.property_name.clone()).collect()
}

#[test]
fn wrong_type_for_flag_falls_back_with_one_diagnostic() {
    let r = resolve(
        vec![("lineWidth", RawValue::Number(80)), ("useTabs", text("yes"))],
        &GlobalConfiguration::default(),
    );
    assert_eq!(r.config.line_width, 80);
    assert!(!r.config.use_tabs);
    assert_eq!(names(&r), vec!["useTabs".to_string()]);
}

#[test]
fn line_width_from_global_then_builtin() {
    let global = GlobalConfiguration { line_width: Some(100), ..Default::default() };
    assert_eq!(resolve(vec![], &global).config.line_width, 100);
    let r = resolve(vec![], &GlobalConfiguration::default());
    assert_eq!(r.config.line_width, 120);
    assert!(r.diagnostics.is_empty());
}

#[test]
fn empty_map_gives_all_defaults() {
    let r = resolve(vec![], &GlobalConfiguration::default());
    let c = &r.config;
    assert_eq!(c.line_width, 120);
    assert_eq!(c.indent_width, 2);
    assert!(!c.use_tabs);
    assert_eq!(c.new_line_kind, NewLineKind::LineFeed);
    assert!(!c.verify);
    assert_eq!(c.quote_style, QuoteStyle::AutoPreferDouble);
    assert_eq!(c.call_parentheses, CallParenType::Always);
    assert_eq!(c.collapse_simple_statement, CollapseSimpleStatement::Never);
    assert!(!c.sort_requires);
}

#[test]
fn global_settings_fill_the_shared_fields() {
    let global = GlobalConfiguration {
        line_width: Some(90),
        use_tabs: Some(true),
        indent_width: Some(8),
        new_line_kind: Some(NewLineKind::CarriageReturnLineFeed),
    };
    let c = resolve(vec![], &global).config;
    assert_eq!(c.line_width, 90);
    assert!(c.use_tabs);
    assert_eq!(c.indent_width, 8);
    assert_eq!(c.new_line_kind, NewLineKind::CarriageReturnLineFeed);
}

#[test]
fn valid_overrides_are_taken_verbatim() {
    let global = GlobalConfiguration {
        line_width: Some(90),
        use_tabs: Some(false),
        indent_width: Some(8),
        new_line_kind: Some(NewLineKind::Auto),
    };
    let r = resolve(
        vec![
            ("lineWidth", text("77")),
            ("useTabs", RawValue::Bool(true)),
            ("indentWidth", RawValue::Number(3)),
            ("newLineKind", text("crlf")),
            ("verify", text("true")),
            ("quoteStyle", text("ForceSingle")),
            ("callParentheses", text("None")),
            ("collapseSimpleStatement", text("Always")),
            ("sortRequires", RawValue::Bool(true)),
        ],
        &global,
    );
    let c = &r.config;
    assert_eq!(c.line_width, 77);
    assert!(c.use_tabs);
    assert_eq!(c.indent_width, 3);
    assert_eq!(c.new_line_kind, NewLineKind::CarriageReturnLineFeed);
    assert!(c.verify);
    assert_eq!(c.quote_style, QuoteStyle::ForceSingle);
    assert_eq!(c.call_parentheses, CallParenType::None);
    assert_eq!(c.collapse_simple_statement, CollapseSimpleStatement::Always);
    assert!(c.sort_requires);
    assert!(r.diagnostics.is_empty());
}

#[test]
fn unknown_keys_reported_once_each_in_order() {
    let r = resolve(
        vec![("zeta", RawValue::Number(1)), ("lineWidth", RawValue::Number(60)), ("alpha", text("x"))],
        &GlobalConfiguration::default(),
    );
    assert_eq!(names(&r), vec!["zeta".to_string(), "alpha".to_string()]);
    assert!(r.diagnostics.iter().all(|d| d.message == "Unknown property in configuration"));
    assert_eq!(r.config.line_width, 60);
}

#[test]
fn rejected_values_come_before_unknown_keys() {
    let r = resolve(
        vec![("other", text("x")), ("quoteStyle", text("single")), ("lineWidth", RawValue::Bool(true))],
        &GlobalConfiguration::default(),
    );
    assert_eq!(
        names(&r),
        vec!["lineWidth".to_string(), "quoteStyle".to_string(), "other".to_string()]
    );
    assert_eq!(r.config.quote_style, QuoteStyle::AutoPreferDouble);
    assert_eq!(r.config.line_width, 120);
}

#[test]
fn zero_and_out_of_range_widths_are_rejected() {
    let global = GlobalConfiguration { line_width: Some(100), indent_width: Some(4), ..Default::default() };
    let r = resolve(vec![("lineWidth", RawValue::Number(0)), ("indentWidth", RawValue::Number(300))], &global);
    assert_eq!(r.config.line_width, 100);
    assert_eq!(r.config.indent_width, 4);
    assert_eq!(names(&r), vec!["lineWidth".to_string(), "indentWidth".to_string()]);
    let r = resolve(vec![("lineWidth", RawValue::Number(-5))], &GlobalConfiguration::default());
    assert_eq!(r.config.line_width, 120);
    assert_eq!(names(&r), vec!["lineWidth".to_string()]);
}

#[test]
fn zero_global_width_falls_to_builtin() {
    let global = GlobalConfiguration { line_width: Some(0), indent_width: Some(0), ..Default::default() };
    let c = resolve(vec![], &global).config;
    assert_eq!(c.line_width, 120);
    assert_eq!(c.indent_width, 2);
}

#[test]
fn null_is_no_value_and_lists_are_rejected() {
    let r = resolve(vec![("lineWidth", RawValue::Null), ("verify", RawValue::Array)], &GlobalConfiguration::default());
    assert_eq!(r.config.line_width, 120);
    assert!(!r.config.verify);
    assert_eq!(names(&r), vec!["verify".to_string()]);
    let r = resolve(vec![("sortRequires", RawValue::Object)], &GlobalConfiguration::default());
    assert_eq!(names(&r), vec!["sortRequires".to_string()]);
}

#[test]
fn insert_replaces_in_place() {
    let mut m = RawConfigMap::new();
    m.insert("a".to_string(), RawValue::Number(1));
    m.insert("b".to_string(), RawValue::Number(2));
    m.insert("a".to_string(), RawValue::Number(3));
    assert_eq!(m.len(), 2);
    assert!(matches!(m.get("a"), Some(RawValue::Number(3))));
    assert!(m.get("c").is_none());
    assert_eq!(m.entries()[0].0, "a");
}

#[test]
fn number_readers_parse_decimal_text() {
    assert_eq!(read_positive_u32(&text("+42")), Some(42));
    assert_eq!(read_positive_u32(&text("4294967295")), Some(4294967295));
    assert_eq!(read_positive_u32(&text("4294967296")), None);
    assert_eq!(read_positive_u32(&text("-1")), None);
    assert_eq!(read_positive_u32(&text(" 1")), None);
    assert_eq!(read_positive_u32(&text("0")), None);
    assert_eq!(read_positive_u8(&text("255")), Some(255));
    assert_eq!(read_positive_u8(&text("256")), None);
    assert_eq!(read_positive_u8(&RawValue::Number(255)), Some(255));
}

#[test]
fn flag_and_name_readers() {
    assert_eq!(read_flag(&text("false")), Some(false));
    assert_eq!(read_flag(&text("True")), None);
    assert_eq!(read_flag(&RawValue::Number(1)), None);
    assert_eq!(read_new_line_kind(&text("system")), Some(NewLineKind::System));
    assert_eq!(read_new_line_kind(&text("auto")), Some(NewLineKind::Auto));
    assert_eq!(read_new_line_kind(&text("LF")), None);
    assert_eq!(read_quote_style(&text("AutoPreferSingle")), Some(QuoteStyle::AutoPreferSingle));
    assert_eq!(read_quote_style(&text("forcesingle")), None);
    assert_eq!(read_call_parentheses(&text("NoSingleTable")), Some(CallParenType::NoSingleTable));
    assert_eq!(read_collapse(&text("FunctionOnly")), Some(CollapseSimpleStatement::FunctionOnly));
    assert_eq!(read_collapse(&RawValue::Bool(true)), None);
}

#[test]
fn diagnostic_messages_tell_the_kind_of_problem() {
    let r = resolve(vec![("mystery", RawValue::Null), ("verify", text("maybe"))], &GlobalConfiguration::default());
    assert_eq!(names(&r), vec!["verify".to_string(), "mystery".to_string()]);
    assert_eq!(r.diagnostics[0].message, "Found an invalid value for this property");
    assert_eq!(r.diagnostics[1].message, "Unknown property in configuration");
}
