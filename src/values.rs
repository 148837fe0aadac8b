use vstd::prelude::*;
use dprint_core::configuration::NewLineKind;
use stylua_lib::{CallParenType, CollapseSimpleStatement, QuoteStyle};
use crate::raw::RawValue;

verus! {

/// The number that a run of decimal digits denotes.
pub open spec fn digits_value(d: Seq<char>) -> int
    decreases d.len(),
{
    if d.len() == 0 {
        0
    } else {
        digits_value(d.drop_last()) * 10 + (d.last() as int - '0' as int)
    }
}

/// The number that an unsigned decimal literal denotes: an optional `+`, then one
/// or more digits.
pub open spec fn unsigned_text_value(s: Seq<char>) -> Option<int> {
    let d = if s.len() > 0 && s[0] == '+' {
        s.drop_first()
    } else {
        s
    };
    if d.len() > 0 && forall|i: int| 0 <= i < d.len() ==> '0' <= #[trigger] d[i] <= '9' {
        Some(digits_value(d))
    } else {
        None
    }
}

pub open spec fn bool_text_value(s: Seq<char>) -> Option<bool> {
    if s == "true"@ {
        Some(true)
    } else if s == "false"@ {
        Some(false)
    } else {
        None
    }
}

pub open spec fn new_line_kind_named(s: Seq<char>) -> Option<NewLineKind> {
    if s == "auto"@ {
        Some(NewLineKind::Auto)
    } else if s == "lf"@ {
        Some(NewLineKind::LineFeed)
    } else if s == "crlf"@ {
        Some(NewLineKind::CarriageReturnLineFeed)
    } else if s == "system"@ {
        Some(NewLineKind::System)
    } else {
        None
    }
}

pub open spec fn quote_style_named(s: Seq<char>) -> Option<QuoteStyle> {
    if s == "AutoPreferDouble"@ {
        Some(QuoteStyle::AutoPreferDouble)
    } else if s == "AutoPreferSingle"@ {
        Some(QuoteStyle::AutoPreferSingle)
    } else if s == "ForceDouble"@ {
        Some(QuoteStyle::ForceDouble)
    } else if s == "ForceSingle"@ {
        Some(QuoteStyle::ForceSingle)
    } else {
        None
    }
}

pub open spec fn call_parentheses_named(s: Seq<char>) -> Option<CallParenType> {
    if s == "Always"@ {
        Some(CallParenType::Always)
    } else if s == "NoSingleString"@ {
        Some(CallParenType::NoSingleString)
    } else if s == "NoSingleTable"@ {
        Some(CallParenType::NoSingleTable)
    } else if s == "None"@ {
        Some(CallParenType::None)
    } else if s == "Input"@ {
        Some(CallParenType::Input)
    } else {
        None
    }
}

pub open spec fn collapse_named(s: Seq<char>) -> Option<CollapseSimpleStatement> {
    if s == "Never"@ {
        Some(CollapseSimpleStatement::Never)
    } else if s == "FunctionOnly"@ {
        Some(CollapseSimpleStatement::FunctionOnly)
    } else if s == "ConditionalOnly"@ {
        Some(CollapseSimpleStatement::ConditionalOnly)
    } else if s == "Always"@ {
        Some(CollapseSimpleStatement::Always)
    } else {
        None
    }
}

/// Relies on `<u32 as FromStr>::from_str`: an optional `+` and decimal digits,
/// whose value fits in a `u32`.
#[verifier::external_body]
fn parse_u32(s: &str) -> (r: Option<u32>)
    ensures
        r == (match unsigned_text_value(s@) {
            Some(v) => if 0 <= v <= u32::MAX {
                Some(v as u32)
            } else {
                None
            },
            None => None,
        }),
{
    s.parse::<u32>().ok()
}

/// Relies on `<u8 as FromStr>::from_str`: an optional `+` and decimal digits,
/// whose value fits in a `u8`.
#[verifier::external_body]
fn parse_u8(s: &str) -> (r: Option<u8>)
    ensures
        r == (match unsigned_text_value(s@) {
            Some(v) => if 0 <= v <= u8::MAX {
                Some(v as u8)
            } else {
                None
            },
            None => None,
        }),
{
    s.parse::<u8>().ok()
}

/// Relies on `<bool as FromStr>::from_str`: exactly `true` or `false`.
#[verifier::external_body]
fn parse_bool(s: &str) -> (r: Option<bool>)
    ensures
        r == bool_text_value(s@),
{
    s.parse::<bool>().ok()
}

/// Relies on dprint_core's `FromStr` for `NewLineKind`: exactly one of its four names.
#[verifier::external_body]
fn parse_new_line_kind(s: &str) -> (r: Option<NewLineKind>)
    ensures
        r == new_line_kind_named(s@),
{
    s.parse::<NewLineKind>().ok()
}

/// Relies on stylua's `FromStr` for `QuoteStyle` (derived by strum): exactly a variant's name.
#[verifier::external_body]
fn parse_quote_style(s: &str) -> (r: Option<QuoteStyle>)
    ensures
        r == quote_style_named(s@),
{
    s.parse::<QuoteStyle>().ok()
}

/// Relies on stylua's `FromStr` for `CallParenType` (derived by strum): exactly a variant's name.
#[verifier::external_body]
fn parse_call_parentheses(s: &str) -> (r: Option<CallParenType>)
    ensures
        r == call_parentheses_named(s@),
{
    s.parse::<CallParenType>().ok()
}

/// Relies on stylua's `FromStr` for `CollapseSimpleStatement` (derived by strum):
/// exactly a variant's name.
#[verifier::external_body]
fn parse_collapse(s: &str) -> (r: Option<CollapseSimpleStatement>)
    ensures
        r == collapse_named(s@),
{
    s.parse::<CollapseSimpleStatement>().ok()
}

/// A positive width given as a number or as decimal text.
pub open spec fn positive_u32_value(v: RawValue) -> Option<u32> {
    match v {
        RawValue::Number(n) => if n > 0 {
            Some(n as u32)
        } else {
            None
        },
        RawValue::Text(t) => match unsigned_text_value(t@) {
            Some(x) => if 0 < x <= u32::MAX {
                Some(x as u32)
            } else {
                None
            },
            None => None,
        },
        _ => None,
    }
}

pub open spec fn positive_u8_value(v: RawValue) -> Option<u8> {
    match v {
        RawValue::Number(n) => if 0 < n <= u8::MAX {
            Some(n as u8)
        } else {
            None
        },
        RawValue::Text(t) => match unsigned_text_value(t@) {
            Some(x) => if 0 < x <= u8::MAX {
                Some(x as u8)
            } else {
                None
            },
            None => None,
        },
        _ => None,
    }
}

pub open spec fn flag_value(v: RawValue) -> Option<bool> {
    match v {
        RawValue::Bool(b) => Some(b),
        RawValue::Text(t) => bool_text_value(t@),
        _ => None,
    }
}

pub open spec fn new_line_kind_value(v: RawValue) -> Option<NewLineKind> {
    match v {
        RawValue::Text(t) => new_line_kind_named(t@),
        _ => None,
    }
}

pub open spec fn quote_style_value(v: RawValue) -> Option<QuoteStyle> {
    match v {
        RawValue::Text(t) => quote_style_named(t@),
        _ => None,
    }
}

pub open spec fn call_parentheses_value(v: RawValue) -> Option<CallParenType> {
    match v {
        RawValue::Text(t) => call_parentheses_named(t@),
        _ => None,
    }
}

pub open spec fn collapse_value(v: RawValue) -> Option<CollapseSimpleStatement> {
    match v {
        RawValue::Text(t) => collapse_named(t@),
        _ => None,
    }
}

pub fn read_positive_u32(v: &RawValue) -> (r: Option<u32>)
    ensures
        r == positive_u32_value(*v),
{
    match v {
        RawValue::Number(n) => if *n > 0 {
            Some(*n as u32)
        } else {
            None
        },
        RawValue::Text(t) => match parse_u32(t.as_str()) {
            Some(x) => if x > 0 {
                Some(x)
            } else {
                None
            },
            None => None,
        },
        _ => None,
    }
}

pub fn read_positive_u8(v: &RawValue) -> (r: Option<u8>)
    ensures
        r == positive_u8_value(*v),
{
    match v {
        RawValue::Number(n) => if *n > 0 && *n <= 255 {
            Some(*n as u8)
        } else {
            None
        },
        RawValue::Text(t) => match parse_u8(t.as_str()) {
            Some(x) => if x > 0 {
                Some(x)
            } else {
                None
            },
            None => None,
        },
        _ => None,
    }
}

pub fn read_flag(v: &RawValue) -> (r: Option<bool>)
    ensures
        r == flag_value(*v),
{
    match v {
        RawValue::Bool(b) => Some(*b),
        RawValue::Text(t) => parse_bool(t.as_str()),
        _ => None,
    }
}

pub fn read_new_line_kind(v: &RawValue) -> (r: Option<NewLineKind>)
    ensures
        r == new_line_kind_value(*v),
{
    match v {
        RawValue::Text(t) => parse_new_line_kind(t.as_str()),
        _ => None,
    }
}

pub fn read_quote_style(v: &RawValue) -> (r: Option<QuoteStyle>)
    ensures
        r == quote_style_value(*v),
{
    match v {
        RawValue::Text(t) => parse_quote_style(t.as_str()),
        _ => None,
    }
}

pub fn read_call_parentheses(v: &RawValue) -> (r: Option<CallParenType>)
    ensures
        r == call_parentheses_value(*v),
{
    match v {
        RawValue::Text(t) => parse_call_parentheses(t.as_str()),
        _ => None,
    }
}

pub fn read_collapse(v: &RawValue) -> (r: Option<CollapseSimpleStatement>)
    ensures
        r == collapse_value(*v),
{
    match v {
        RawValue::Text(t) => parse_collapse(t.as_str()),
        _ => None,
    }
}

} // verus!
