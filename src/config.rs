use vstd::prelude::*;
use dprint_core::configuration::{GlobalConfiguration, NewLineKind};
use stylua_lib::{CallParenType, CollapseSimpleStatement, QuoteStyle};
use crate::raw::{lookup, RawEntries, RawValue};
use crate::values::{
    call_parentheses_value, collapse_value, flag_value, new_line_kind_value, positive_u32_value,
    positive_u8_value, quote_style_value,
};

verus! {

/// The fully resolved settings of the plugin.
pub struct Configuration {
    pub line_width: u32,
    pub use_tabs: bool,
    pub indent_width: u8,
    pub new_line_kind: NewLineKind,
    pub verify: bool,
    pub quote_style: QuoteStyle,
    pub call_parentheses: CallParenType,
    pub collapse_simple_statement: CollapseSimpleStatement,
    pub sort_requires: bool,
}

impl Configuration {
    /// Both widths are positive.
    pub open spec fn wf(&self) -> bool {
        self.line_width > 0 && self.indent_width > 0
    }
}

/// An advisory about one key of the override map.
pub struct Diagnostic {
    pub property_name: String,
    pub message: String,
}

/// What resolution yields: the settings and the advisories met on the way.
pub struct ResolveConfigurationResult {
    pub diagnostics: Vec<Diagnostic>,
    pub config: Configuration,
}

pub open spec fn property_names(ds: Seq<Diagnostic>) -> Seq<Seq<char>> {
    ds.map_values(|d: Diagnostic| d.property_name@)
}

pub open spec fn invalid_value_message() -> Seq<char> {
    "Found an invalid value for this property"@
}

pub open spec fn unknown_property_message() -> Seq<char> {
    "Unknown property in configuration"@
}

/// The first `n` diagnostics report rejected values, the rest unknown keys.
#[verifier::opaque]
pub open spec fn messages_follow(ds: Seq<Diagnostic>, n: int) -> bool {
    forall|j: int|
        0 <= j < ds.len() ==> #[trigger] ds[j].message@ == if j < n {
            invalid_value_message()
        } else {
            unknown_property_message()
        }
}

/// The keys that the override map may hold, in the order they are resolved.
pub open spec fn known_keys() -> Seq<Seq<char>> {
    seq![
        "lineWidth"@,
        "useTabs"@,
        "indentWidth"@,
        "newLineKind"@,
        "verify"@,
        "quoteStyle"@,
        "callParentheses"@,
        "collapseSimpleStatement"@,
        "sortRequires"@,
    ]
}

pub open spec fn is_known_key(k: Seq<char>) -> bool {
    known_keys().contains(k)
}

/// The value supplied under `key`; a null counts as no value.
pub open spec fn supplied(raw: RawEntries, key: Seq<char>) -> Option<RawValue> {
    match lookup(raw, key) {
        Some(RawValue::Null) => None,
        other => other,
    }
}

pub open spec fn first_some<T>(over: Option<T>, fallback: T) -> T {
    match over {
        Some(v) => v,
        None => fallback,
    }
}

pub open spec fn line_width_override(raw: RawEntries) -> Option<u32> {
    match supplied(raw, "lineWidth"@) {
        Some(v) => positive_u32_value(v),
        None => None,
    }
}

pub open spec fn use_tabs_override(raw: RawEntries) -> Option<bool> {
    match supplied(raw, "useTabs"@) {
        Some(v) => flag_value(v),
        None => None,
    }
}

pub open spec fn indent_width_override(raw: RawEntries) -> Option<u8> {
    match supplied(raw, "indentWidth"@) {
        Some(v) => positive_u8_value(v),
        None => None,
    }
}

pub open spec fn new_line_kind_override(raw: RawEntries) -> Option<NewLineKind> {
    match supplied(raw, "newLineKind"@) {
        Some(v) => new_line_kind_value(v),
        None => None,
    }
}

pub open spec fn verify_override(raw: RawEntries) -> Option<bool> {
    match supplied(raw, "verify"@) {
        Some(v) => flag_value(v),
        None => None,
    }
}

pub open spec fn quote_style_override(raw: RawEntries) -> Option<QuoteStyle> {
    match supplied(raw, "quoteStyle"@) {
        Some(v) => quote_style_value(v),
        None => None,
    }
}

pub open spec fn call_parentheses_override(raw: RawEntries) -> Option<CallParenType> {
    match supplied(raw, "callParentheses"@) {
        Some(v) => call_parentheses_value(v),
        None => None,
    }
}

pub open spec fn collapse_override(raw: RawEntries) -> Option<CollapseSimpleStatement> {
    match supplied(raw, "collapseSimpleStatement"@) {
        Some(v) => collapse_value(v),
        None => None,
    }
}

pub open spec fn sort_requires_override(raw: RawEntries) -> Option<bool> {
    match supplied(raw, "sortRequires"@) {
        Some(v) => flag_value(v),
        None => None,
    }
}

/// The host's line width where it gave a positive one, else the recommended 120.
pub open spec fn global_line_width(g: GlobalConfiguration) -> u32 {
    match g.line_width {
        Some(w) => if w > 0 {
            w
        } else {
            120
        },
        None => 120,
    }
}

/// The host's indent width where it gave a positive one, else the recommended 2.
pub open spec fn global_indent_width(g: GlobalConfiguration) -> u8 {
    match g.indent_width {
        Some(w) => if w > 0 {
            w
        } else {
            2
        },
        None => 2,
    }
}

pub open spec fn global_use_tabs(g: GlobalConfiguration) -> bool {
    first_some(g.use_tabs, false)
}

pub open spec fn global_new_line_kind(g: GlobalConfiguration) -> NewLineKind {
    first_some(g.new_line_kind, NewLineKind::LineFeed)
}

/// Each setting from the override map where it holds a valid value; else, for the
/// four shared settings, from the host's global settings; else the built-in default.
pub open spec fn resolved(raw: RawEntries, g: GlobalConfiguration) -> Configuration {
    Configuration {
        line_width: first_some(line_width_override(raw), global_line_width(g)),
        use_tabs: first_some(use_tabs_override(raw), global_use_tabs(g)),
        indent_width: first_some(indent_width_override(raw), global_indent_width(g)),
        new_line_kind: first_some(new_line_kind_override(raw), global_new_line_kind(g)),
        verify: first_some(verify_override(raw), false),
        quote_style: first_some(quote_style_override(raw), QuoteStyle::AutoPreferDouble),
        call_parentheses: first_some(call_parentheses_override(raw), CallParenType::Always),
        collapse_simple_statement: first_some(
            collapse_override(raw),
            CollapseSimpleStatement::Never,
        ),
        sort_requires: first_some(sort_requires_override(raw), false),
    }
}

/// `key` once if a value was supplied for it and rejected, else nothing.
pub open spec fn flagged(raw: RawEntries, key: Seq<char>, accepted: bool) -> Seq<Seq<char>> {
    if supplied(raw, key) is Some && !accepted {
        seq![key]
    } else {
        seq![]
    }
}

/// The four shared settings whose supplied value was rejected, in resolution order.
pub open spec fn rejected_shared_keys(raw: RawEntries) -> Seq<Seq<char>> {
    flagged(raw, "lineWidth"@, line_width_override(raw) is Some) + flagged(
        raw,
        "useTabs"@,
        use_tabs_override(raw) is Some,
    ) + flagged(raw, "indentWidth"@, indent_width_override(raw) is Some) + flagged(
        raw,
        "newLineKind"@,
        new_line_kind_override(raw) is Some,
    )
}

/// The plugin's own settings whose supplied value was rejected, in resolution order.
pub open spec fn rejected_style_keys(raw: RawEntries) -> Seq<Seq<char>> {
    flagged(raw, "verify"@, verify_override(raw) is Some) + flagged(
        raw,
        "quoteStyle"@,
        quote_style_override(raw) is Some,
    ) + flagged(raw, "callParentheses"@, call_parentheses_override(raw) is Some) + flagged(
        raw,
        "collapseSimpleStatement"@,
        collapse_override(raw) is Some,
    ) + flagged(raw, "sortRequires"@, sort_requires_override(raw) is Some)
}

/// The known keys whose supplied value was rejected, in resolution order.
pub open spec fn rejected_keys(raw: RawEntries) -> Seq<Seq<char>> {
    rejected_shared_keys(raw) + rejected_style_keys(raw)
}

/// The keys of the map that no setting reads, in the order they were supplied.
pub open spec fn unknown_keys(raw: RawEntries) -> Seq<Seq<char>>
    decreases raw.len(),
{
    if raw.len() == 0 {
        seq![]
    } else {
        let rest = unknown_keys(raw.drop_last());
        if is_known_key(raw.last().0) {
            rest
        } else {
            rest.push(raw.last().0)
        }
    }
}

/// The keys that resolution reports, in order: rejected values, then unknown keys.
pub open spec fn diagnostic_keys(raw: RawEntries) -> Seq<Seq<char>> {
    rejected_keys(raw) + unknown_keys(raw)
}

} // verus!
