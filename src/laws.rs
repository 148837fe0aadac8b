use vstd::prelude::*;
use dprint_core::configuration::{GlobalConfiguration, NewLineKind};
use stylua_lib::LineEndings;
use crate::config::{
    call_parentheses_override, collapse_override, diagnostic_keys, flagged, indent_width_override,
    is_known_key, known_keys, line_width_override, new_line_kind_override, quote_style_override,
    rejected_keys, resolved, sort_requires_override, supplied, unknown_keys, use_tabs_override,
    verify_override, Configuration,
};
use crate::plugin::{crlf_first_line, formatted, line_endings_for, outcome_matches, settings_for, FormatError};
use crate::raw::{keys_distinct, lookup, RawEntries};
use crate::values::{
    call_parentheses_value, collapse_value, flag_value, new_line_kind_value, positive_u32_value,
    positive_u8_value, quote_style_value,
};
use vstd::string::StringSliceAdditionalSpecFns;

verus! {

/// How often `k` occurs in `s`.
pub open spec fn occurrences(s: Seq<Seq<char>>, k: Seq<char>) -> nat
    decreases s.len(),
{
    if s.len() == 0 {
        0
    } else {
        occurrences(s.drop_last(), k) + if s.last() == k {
            1nat
        } else {
            0nat
        }
    }
}

proof fn lemma_occurrences_concat(a: Seq<Seq<char>>, b: Seq<Seq<char>>, k: Seq<char>)
    ensures
        occurrences(a + b, k) == occurrences(a, k) + occurrences(b, k),
    decreases b.len(),
{
    if b.len() > 0 {
        assert((a + b).drop_last() =~= a + b.drop_last());
        lemma_occurrences_concat(a, b.drop_last(), k);
    } else {
        assert(a + b =~= a);
    }
}

proof fn lemma_unknown_once(raw: RawEntries, k: Seq<char>)
    requires
        keys_distinct(raw),
        !is_known_key(k),
    ensures
        (exists|i: int| 0 <= i < raw.len() && raw[i].0 == k) ==> occurrences(unknown_keys(raw), k)
            == 1,
        (forall|i: int| 0 <= i < raw.len() ==> raw[i].0 != k) ==> occurrences(unknown_keys(raw), k)
            == 0,
    decreases raw.len(),
{
    if raw.len() > 0 {
        let init = raw.drop_last();
        assert(keys_distinct(init)) by {
            assert forall|i: int, j: int|
                0 <= i < init.len() && 0 <= j < init.len() && i != j implies init[i].0
                != init[j].0 by {
                assert(init[i] == raw[i] && init[j] == raw[j]);
            }
        }
        lemma_unknown_once(init, k);
        let rest = unknown_keys(init);
        if raw.last().0 == k {
            assert forall|i: int| 0 <= i < init.len() implies init[i].0 != k by {
                assert(init[i] == raw[i]);
                assert(raw[raw.len() - 1].0 == k);
            }
            assert(unknown_keys(raw) == rest.push(k));
            assert(rest.push(k).drop_last() =~= rest);
        } else {
            if exists|i: int| 0 <= i < raw.len() && raw[i].0 == k {
                let i = choose|i: int| 0 <= i < raw.len() && raw[i].0 == k;
                assert(i < raw.len() - 1);
                assert(init[i] == raw[i]);
            } else {
                assert forall|i: int| 0 <= i < init.len() implies init[i].0 != k by {
                    assert(init[i] == raw[i]);
                }
            }
            if !is_known_key(raw.last().0) {
                assert(rest.push(raw.last().0).drop_last() =~= rest);
            }
        }
    }
}

proof fn lemma_unknown_not_named(k: Seq<char>)
    requires
        !is_known_key(k),
    ensures
        k != "lineWidth"@,
        k != "useTabs"@,
        k != "indentWidth"@,
        k != "newLineKind"@,
        k != "verify"@,
        k != "quoteStyle"@,
        k != "callParentheses"@,
        k != "collapseSimpleStatement"@,
        k != "sortRequires"@,
{
    assert(known_keys()[0] == "lineWidth"@);
    assert(known_keys()[1] == "useTabs"@);
    assert(known_keys()[2] == "indentWidth"@);
    assert(known_keys()[3] == "newLineKind"@);
    assert(known_keys()[4] == "verify"@);
    assert(known_keys()[5] == "quoteStyle"@);
    assert(known_keys()[6] == "callParentheses"@);
    assert(known_keys()[7] == "collapseSimpleStatement"@);
    assert(known_keys()[8] == "sortRequires"@);
}

/// A valid value supplied under a known key is taken over as it is.
pub proof fn law_valid_override_kept(raw: RawEntries, g: GlobalConfiguration)
    ensures
        forall|v: crate::raw::RawValue|
            supplied(raw, "lineWidth"@) == Some(v) && #[trigger] positive_u32_value(v) is Some
                ==> resolved(raw, g).line_width == positive_u32_value(v)->0,
        forall|v: crate::raw::RawValue|
            supplied(raw, "useTabs"@) == Some(v) && #[trigger] flag_value(v) is Some ==> resolved(
                raw,
                g,
            ).use_tabs == flag_value(v)->0,
        forall|v: crate::raw::RawValue|
            supplied(raw, "indentWidth"@) == Some(v) && #[trigger] positive_u8_value(v) is Some
                ==> resolved(raw, g).indent_width == positive_u8_value(v)->0,
        forall|v: crate::raw::RawValue|
            supplied(raw, "newLineKind"@) == Some(v) && #[trigger] new_line_kind_value(v) is Some
                ==> resolved(raw, g).new_line_kind == new_line_kind_value(v)->0,
        forall|v: crate::raw::RawValue|
            supplied(raw, "verify"@) == Some(v) && #[trigger] flag_value(v) is Some ==> resolved(
                raw,
                g,
            ).verify == flag_value(v)->0,
        forall|v: crate::raw::RawValue|
            supplied(raw, "quoteStyle"@) == Some(v) && #[trigger] quote_style_value(v) is Some
                ==> resolved(raw, g).quote_style == quote_style_value(v)->0,
        forall|v: crate::raw::RawValue|
            supplied(raw, "callParentheses"@) == Some(v) && #[trigger] call_parentheses_value(v) is Some
                ==> resolved(raw, g).call_parentheses == call_parentheses_value(v)->0,
        forall|v: crate::raw::RawValue|
            supplied(raw, "collapseSimpleStatement"@) == Some(v) && #[trigger] collapse_value(v) is Some
                ==> resolved(raw, g).collapse_simple_statement == collapse_value(v)->0,
        forall|v: crate::raw::RawValue|
            supplied(raw, "sortRequires"@) == Some(v) && #[trigger] flag_value(v) is Some ==> resolved(
                raw,
                g,
            ).sort_requires == flag_value(v)->0,
{
}

/// A key that no setting reads is reported exactly once, and the configuration
/// is complete all the same.
pub proof fn law_unknown_key_reported_once(raw: RawEntries, g: GlobalConfiguration, i: int)
    requires
        keys_distinct(raw),
        0 <= i < raw.len(),
        !is_known_key(raw[i].0),
    ensures
        occurrences(diagnostic_keys(raw), raw[i].0) == 1,
        resolved(raw, g).wf(),
{
    let k = raw[i].0;
    lemma_unknown_not_named(k);
    lemma_unknown_once(raw, k);
    lemma_occurrences_concat(rejected_keys(raw), unknown_keys(raw), k);
    lemma_rejected_known_only(raw, k);
}

proof fn lemma_flagged_zero(raw: RawEntries, key: Seq<char>, accepted: bool, k: Seq<char>)
    requires
        k != key,
    ensures
        occurrences(flagged(raw, key, accepted), k) == 0,
{
    let f = flagged(raw, key, accepted);
    if f.len() > 0 {
        assert(f =~= seq![key]);
        assert(f.drop_last() =~= Seq::<Seq<char>>::empty());
        assert(occurrences(f.drop_last(), k) == 0);
        assert(f.last() == key);
    }
}

proof fn lemma_rejected_known_only(raw: RawEntries, k: Seq<char>)
    requires
        !is_known_key(k),
    ensures
        occurrences(rejected_keys(raw), k) == 0,
{
    lemma_unknown_not_named(k);
    let f1 = flagged(raw, "lineWidth"@, line_width_override(raw) is Some);
    let f2 = flagged(raw, "useTabs"@, use_tabs_override(raw) is Some);
    let f3 = flagged(raw, "indentWidth"@, indent_width_override(raw) is Some);
    let f4 = flagged(raw, "newLineKind"@, new_line_kind_override(raw) is Some);
    let f5 = flagged(raw, "verify"@, verify_override(raw) is Some);
    let f6 = flagged(raw, "quoteStyle"@, quote_style_override(raw) is Some);
    let f7 = flagged(raw, "callParentheses"@, call_parentheses_override(raw) is Some);
    let f8 = flagged(raw, "collapseSimpleStatement"@, collapse_override(raw) is Some);
    let f9 = flagged(raw, "sortRequires"@, sort_requires_override(raw) is Some);
    lemma_flagged_zero(raw, "lineWidth"@, line_width_override(raw) is Some, k);
    lemma_flagged_zero(raw, "useTabs"@, use_tabs_override(raw) is Some, k);
    lemma_flagged_zero(raw, "indentWidth"@, indent_width_override(raw) is Some, k);
    lemma_flagged_zero(raw, "newLineKind"@, new_line_kind_override(raw) is Some, k);
    lemma_flagged_zero(raw, "verify"@, verify_override(raw) is Some, k);
    lemma_flagged_zero(raw, "quoteStyle"@, quote_style_override(raw) is Some, k);
    lemma_flagged_zero(raw, "callParentheses"@, call_parentheses_override(raw) is Some, k);
    lemma_flagged_zero(raw, "collapseSimpleStatement"@, collapse_override(raw) is Some, k);
    lemma_flagged_zero(raw, "sortRequires"@, sort_requires_override(raw) is Some, k);
    lemma_occurrences_concat(f1, f2, k);
    lemma_occurrences_concat(f1 + f2, f3, k);
    lemma_occurrences_concat(f1 + f2 + f3, f4, k);
    lemma_occurrences_concat(f5, f6, k);
    lemma_occurrences_concat(f5 + f6, f7, k);
    lemma_occurrences_concat(f5 + f6 + f7, f8, k);
    lemma_occurrences_concat(f5 + f6 + f7 + f8, f9, k);
    lemma_occurrences_concat(f1 + f2 + f3 + f4, f5 + f6 + f7 + f8 + f9, k);
}

/// Without an override, the line width comes from the host's positive setting,
/// and without either, it is 120.
pub proof fn law_line_width_precedence(raw: RawEntries, g: GlobalConfiguration)
    requires
        lookup(raw, "lineWidth"@) is None,
    ensures
        g.line_width is Some && g.line_width->0 > 0 ==> resolved(raw, g).line_width
            == g.line_width->0,
        g.line_width is None ==> resolved(raw, g).line_width == 120,
{
}

/// In automatic mode the engine is asked for Windows endings where the first line
/// ends in `\r\n`, and for Unix endings where no `\r\n` occurs at all.
pub proof fn law_newline_detection(text: &str, c: Configuration)
    requires
        c.new_line_kind == NewLineKind::Auto,
    ensures
        crlf_first_line(text.spec_bytes()) ==> settings_for(
            c,
            line_endings_for(c.new_line_kind, text.spec_bytes()),
        ).line_endings == LineEndings::Windows,
        (forall|i: int|
            0 < i < text.spec_bytes().len() ==> !(#[trigger] text.spec_bytes()[i] == 10u8
                && text.spec_bytes()[i - 1] == 13u8)) ==> settings_for(
            c,
            line_endings_for(c.new_line_kind, text.spec_bytes()),
        ).line_endings == LineEndings::Unix,
{
}

/// Text that the engine leaves as it is comes back as unchanged, and a changed
/// result never equals the input.
pub proof fn law_unchanged_exactly_when_equal(
    r: Result<Option<String>, FormatError>,
    text: &str,
    c: Configuration,
)
    requires
        outcome_matches(r, text, c),
    ensures
        formatted(text, c) == Some(text@) ==> r is Ok && r->Ok_0 is None,
        r is Ok && r->Ok_0 is Some ==> r->Ok_0->0@ != text@,
{
}

} // verus!
