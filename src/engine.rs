use vstd::prelude::*;
use dprint_core::configuration::{GlobalConfiguration, NewLineKind};
use stylua_lib::{
    CallParenType, CollapseSimpleStatement, IndentType, LineEndings, OutputVerification, QuoteStyle,
};

verus! {

/// The settings handed to the formatting engine for one call.
pub struct EngineSettings {
    pub column_width: usize,
    pub line_endings: LineEndings,
    pub indent_type: IndentType,
    pub indent_width: usize,
    pub quote_style: QuoteStyle,
    pub call_parentheses: CallParenType,
    pub collapse_simple_statement: CollapseSimpleStatement,
    pub sort_requires: bool,
    pub verification: OutputVerification,
}

/// What the engine makes of `text` under `settings`: the formatted text, or
/// nothing where it fails (a parse error, or a failed verification).
pub uninterp spec fn stylua_output(text: Seq<char>, settings: EngineSettings) -> Option<Seq<char>>;

/// Relies on stylua_lib::format_code, run on the whole text with the engine's
/// defaults for what the settings leave out: its result depends on its arguments
/// alone, and it fails exactly where it yields no text.
#[verifier::external_body]
pub(crate) fn format_code(text: &str, s: &EngineSettings) -> (r: Result<String, String>)
    ensures
        r is Ok <==> stylua_output(text@, *s) is Some,
        r is Ok ==> r->Ok_0@ == stylua_output(text@, *s)->0,
{
    let config = stylua_lib::Config {
        column_width: s.column_width,
        line_endings: s.line_endings,
        indent_type: s.indent_type,
        indent_width: s.indent_width,
        quote_style: s.quote_style,
        call_parentheses: s.call_parentheses,
        collapse_simple_statement: s.collapse_simple_statement,
        sort_requires: stylua_lib::SortRequiresConfig { enabled: s.sort_requires },
        ..stylua_lib::Config::default()
    };
    stylua_lib::format_code(text, config, None, s.verification).map_err(|e| e.to_string())
}

/// Relies on stylua_lib::Config::default for the engine's own style defaults.
#[verifier::external_body]
pub(crate) fn engine_style_defaults() -> (r: (QuoteStyle, CallParenType, CollapseSimpleStatement, bool))
    ensures
        r == (
            QuoteStyle::AutoPreferDouble,
            CallParenType::Always,
            CollapseSimpleStatement::Never,
            false,
        ),
{
    let c = stylua_lib::Config::default();
    (c.quote_style, c.call_parentheses, c.collapse_simple_statement, c.sort_requires.enabled)
}

/// Relies on dprint_core's RECOMMENDED_GLOBAL_CONFIGURATION, as a
/// GlobalConfiguration through dprint_core's own `From`.
#[verifier::external_body]
pub(crate) fn recommended_global() -> (r: GlobalConfiguration)
    ensures
        r.line_width == Some(120u32),
        r.use_tabs == Some(false),
        r.indent_width == Some(2u8),
        r.new_line_kind == Some(NewLineKind::LineFeed),
{
    dprint_core::configuration::RECOMMENDED_GLOBAL_CONFIGURATION.into()
}

} // verus!
