use vstd::prelude::*;
use vstd::string::StringSliceAdditionalSpecFns;
use dprint_core::configuration::{GlobalConfiguration, NewLineKind};
use stylua_lib::{
    CallParenType, CollapseSimpleStatement, IndentType, LineEndings, OutputVerification, QuoteStyle,
};
use crate::config::{
    call_parentheses_override, collapse_override, diagnostic_keys, first_some, flagged,
    is_known_key, known_keys, messages_follow, property_names, quote_style_override,
    rejected_keys, rejected_shared_keys, rejected_style_keys, resolved, sort_requires_override,
    supplied, unknown_keys, unknown_property_message, verify_override, Configuration, Diagnostic,
    ResolveConfigurationResult,
};
use crate::engine::{
    engine_style_defaults, format_code, recommended_global, stylua_output, EngineSettings,
};
use crate::raw::{entry_view, RawConfigMap, RawValue};
use crate::values::{
    read_call_parentheses, read_collapse, read_flag, read_new_line_kind, read_positive_u32,
    read_positive_u8, read_quote_style,
};

verus! {

/// The plugin: resolves its settings and formats Lua files with them.
pub struct StyluaPluginHandler;

/// A failed formatting call, with the engine's message.
pub struct FormatError {
    pub message: String,
}

/// The first line terminator of `b` is `\r\n`.
pub open spec fn crlf_first_line(b: Seq<u8>) -> bool {
    exists|i: int|
        0 < i < b.len() && #[trigger] b[i] == 10u8 && b[i - 1] == 13u8 && forall|j: int|
            0 <= j < i ==> b[j] != 10u8
}

/// Windows endings where the first line ends in `\r\n`, else Unix endings.
pub open spec fn detected_line_endings(b: Seq<u8>) -> LineEndings {
    if crlf_first_line(b) {
        LineEndings::Windows
    } else {
        LineEndings::Unix
    }
}

/// The endings to emit: fixed by the setting, or taken from the text itself.
pub open spec fn line_endings_for(kind: NewLineKind, b: Seq<u8>) -> LineEndings {
    match kind {
        NewLineKind::LineFeed => LineEndings::Unix,
        NewLineKind::CarriageReturnLineFeed => LineEndings::Windows,
        _ => detected_line_endings(b),
    }
}

/// The engine's settings for `c`, emitting `le`.
pub open spec fn settings_for(c: Configuration, le: LineEndings) -> EngineSettings {
    EngineSettings {
        column_width: c.line_width as usize,
        line_endings: le,
        indent_type: if c.use_tabs {
            IndentType::Tabs
        } else {
            IndentType::Spaces
        },
        indent_width: c.indent_width as usize,
        quote_style: c.quote_style,
        call_parentheses: c.call_parentheses,
        collapse_simple_statement: c.collapse_simple_statement,
        sort_requires: c.sort_requires,
        verification: if c.verify {
            OutputVerification::Full
        } else {
            OutputVerification::None
        },
    }
}

/// What the engine makes of `text` under `c`.
pub open spec fn formatted(text: &str, c: Configuration) -> Option<Seq<char>> {
    stylua_output(text@, settings_for(c, line_endings_for(c.new_line_kind, text.spec_bytes())))
}

/// `r` is the outcome owed for `text` under `c`: a failure where the engine
/// fails, no text where its output equals the input, else the output.
pub open spec fn outcome_matches(
    r: Result<Option<String>, FormatError>,
    text: &str,
    c: Configuration,
) -> bool {
    match formatted(text, c) {
        None => r is Err,
        Some(out) => if out == text@ {
            r is Ok && r->Ok_0 is None
        } else {
            r is Ok && r->Ok_0 is Some && r->Ok_0->0@ == out
        },
    }
}

/// Finds which endings the text uses: those of its first line terminator.
pub fn detect_line_endings(text: &str) -> (r: LineEndings)
    ensures
        r == detected_line_endings(text.spec_bytes()),
{
    let b = text.as_bytes();
    let mut i: usize = 0;
    while i < b.len()
        invariant
            b@ == text.spec_bytes(),
            i <= b@.len(),
            forall|j: int| 0 <= j < i ==> b@[j] != 10u8,
        decreases b@.len() - i,
    {
        if b[i] == 10u8 {
            if i > 0 && b[i - 1] == 13u8 {
                assert(b@[i as int] == 10u8);
                return LineEndings::Windows;
            } else {
                assert forall|k: int|
                    0 < k < b@.len() && #[trigger] b@[k] == 10u8 && b@[k - 1] == 13u8 implies !(
                    forall|j: int| 0 <= j < k ==> b@[j] != 10u8) by {
                    if k > i {
                        assert(b@[i as int] == 10u8);
                    }
                }
                return LineEndings::Unix;
            }
        }
        i = i + 1;
    }
    LineEndings::Unix
}

impl Configuration {
    /// The engine's settings for this configuration, emitting `line_endings`.
    pub fn engine_settings(&self, line_endings: LineEndings) -> (r: EngineSettings)
        ensures
            r == settings_for(*self, line_endings),
    {
        EngineSettings {
            column_width: self.line_width as usize,
            line_endings,
            indent_type: if self.use_tabs {
                IndentType::Tabs
            } else {
                IndentType::Spaces
            },
            indent_width: self.indent_width as usize,
            quote_style: self.quote_style,
            call_parentheses: self.call_parentheses,
            collapse_simple_statement: self.collapse_simple_statement,
            sort_requires: self.sort_requires,
            verification: if self.verify {
                OutputVerification::Full
            } else {
                OutputVerification::None
            },
        }
    }
}

/// The value under `key`, a null counting as none.
fn supplied_value<'a>(raw: &'a RawConfigMap, key: &str) -> (r: Option<&'a RawValue>)
    ensures
        match r {
            Some(v) => supplied(raw@, key@) == Some(*v),
            None => supplied(raw@, key@) is None,
        },
{
    match raw.get(key) {
        Some(RawValue::Null) => None,
        other => other,
    }
}

/// Reports `key` where a value was supplied for it and not accepted.
fn note_rejected(
    diagnostics: &mut Vec<Diagnostic>,
    key: &str,
    was_supplied: bool,
    accepted: bool,
)
    requires
        messages_follow(old(diagnostics)@, old(diagnostics)@.len() as int),
    ensures
        messages_follow(final(diagnostics)@, final(diagnostics)@.len() as int),
        property_names(final(diagnostics)@) == property_names(old(diagnostics)@) + (if was_supplied
            && !accepted {
            seq![key@]
        } else {
            seq![]
        }),
{
    proof {
        reveal(messages_follow);
    }
    if was_supplied && !accepted {
        diagnostics.push(
            Diagnostic {
                property_name: key.to_owned(),
                message: "Found an invalid value for this property".to_owned(),
            },
        );
        proof {
            assert(property_names(diagnostics@) =~= property_names(old(diagnostics)@) + seq![key@]);
        }
    } else {
        proof {
            assert(property_names(diagnostics@) =~= property_names(old(diagnostics)@) + seq![]);
        }
    }
}

fn known_key_list() -> (r: Vec<String>)
    ensures
        r@.map_values(|s: String| s@) == known_keys(),
{
    let r = vec![
        "lineWidth".to_owned(),
        "useTabs".to_owned(),
        "indentWidth".to_owned(),
        "newLineKind".to_owned(),
        "verify".to_owned(),
        "quoteStyle".to_owned(),
        "callParentheses".to_owned(),
        "collapseSimpleStatement".to_owned(),
        "sortRequires".to_owned(),
    ];
    assert(r@.map_values(|s: String| s@) =~= known_keys());
    r
}

fn is_known(key: &String, known: &Vec<String>) -> (r: bool)
    requires
        known@.map_values(|s: String| s@) == known_keys(),
    ensures
        r == is_known_key(key@),
{
    let mut i: usize = 0;
    while i < known.len()
        invariant
            i <= known@.len(),
            known@.map_values(|s: String| s@) == known_keys(),
            forall|j: int| 0 <= j < i ==> known_keys()[j] != key@,
        decreases known@.len() - i,
    {
        assert(known_keys()[i as int] == known@[i as int]@);
        if known[i] == *key {
            return true;
        }
        i = i + 1;
    }
    false
}

proof fn lemma_no_messages(ds: Seq<Diagnostic>)
    requires
        ds.len() == 0,
    ensures
        messages_follow(ds, 0),
{
    reveal(messages_follow);
}

/// Reports, in order, each key of `raw` that no setting reads.
fn report_unknown_keys(raw: &RawConfigMap, diagnostics: &mut Vec<Diagnostic>)
    requires
        messages_follow(old(diagnostics)@, old(diagnostics)@.len() as int),
    ensures
        property_names(final(diagnostics)@) == property_names(old(diagnostics)@) + unknown_keys(
            raw@,
        ),
        messages_follow(final(diagnostics)@, old(diagnostics)@.len() as int),
{
    let ghost n = diagnostics@.len() as int;
    proof {
        reveal(messages_follow);
    }
    let known = known_key_list();
    let entries = raw.entries();
    let mut i: usize = 0;
    while i < entries.len()
        invariant
            i <= entries@.len(),
            entries@.map_values(|e: (String, RawValue)| entry_view(e)) == raw@,
            known@.map_values(|s: String| s@) == known_keys(),
            property_names(diagnostics@) == property_names(old(diagnostics)@) + unknown_keys(
                raw@.take(i as int),
            ),
            n == old(diagnostics)@.len(),
            diagnostics@.len() >= n,
            messages_follow(diagnostics@, n),
        decreases entries@.len() - i,
    {
        let ghost before = diagnostics@;
        proof {
            reveal(messages_follow);
        }
        assert(raw@[i as int] == entry_view(entries@[i as int]));
        assert(raw@.take(i as int + 1).drop_last() =~= raw@.take(i as int));
        if !is_known(&entries[i].0, &known) {
            diagnostics.push(
                Diagnostic {
                    property_name: entries[i].0.clone(),
                    message: "Unknown property in configuration".to_owned(),
                },
            );
            assert(property_names(diagnostics@) =~= property_names(before).push(
                entries@[i as int].0@,
            ));
            assert(diagnostics@[before.len() as int].message@ == unknown_property_message());
            assert forall|j: int| 0 <= j < before.len() implies diagnostics@[j] == before[j] by {}
        }
        i = i + 1;
    }
    assert(raw@.take(entries@.len() as int) =~= raw@);
}

/// The four shared settings: override, else the host's setting, else the
/// recommended default.
fn resolve_shared(
    raw: &RawConfigMap,
    global_config: &GlobalConfiguration,
    diagnostics: &mut Vec<Diagnostic>,
) -> (r: (u32, bool, u8, NewLineKind))
    requires
        messages_follow(old(diagnostics)@, old(diagnostics)@.len() as int),
    ensures
        r.0 == resolved(raw@, *global_config).line_width,
        r.1 == resolved(raw@, *global_config).use_tabs,
        r.2 == resolved(raw@, *global_config).indent_width,
        r.3 == resolved(raw@, *global_config).new_line_kind,
        property_names(final(diagnostics)@) == property_names(old(diagnostics)@)
            + rejected_shared_keys(raw@),
        messages_follow(final(diagnostics)@, final(diagnostics)@.len() as int),
{
    let recommended = recommended_global();

    let entry = supplied_value(raw, "lineWidth");
    let over = match entry {
        Some(v) => read_positive_u32(v),
        None => None,
    };
    note_rejected(diagnostics, "lineWidth", entry.is_some(), over.is_some());
    let line_width = match over {
        Some(w) => w,
        None => match global_config.line_width {
            Some(w) => if w > 0 {
                w
            } else {
                recommended.line_width.unwrap()
            },
            None => recommended.line_width.unwrap(),
        },
    };

    let entry = supplied_value(raw, "useTabs");
    let over = match entry {
        Some(v) => read_flag(v),
        None => None,
    };
    note_rejected(diagnostics, "useTabs", entry.is_some(), over.is_some());
    let use_tabs = match over {
        Some(b) => b,
        None => match global_config.use_tabs {
            Some(b) => b,
            None => recommended.use_tabs.unwrap(),
        },
    };

    let entry = supplied_value(raw, "indentWidth");
    let over = match entry {
        Some(v) => read_positive_u8(v),
        None => None,
    };
    note_rejected(diagnostics, "indentWidth", entry.is_some(), over.is_some());
    let indent_width = match over {
        Some(w) => w,
        None => match global_config.indent_width {
            Some(w) => if w > 0 {
                w
            } else {
                recommended.indent_width.unwrap()
            },
            None => recommended.indent_width.unwrap(),
        },
    };

    let entry = supplied_value(raw, "newLineKind");
    let over = match entry {
        Some(v) => read_new_line_kind(v),
        None => None,
    };
    note_rejected(diagnostics, "newLineKind", entry.is_some(), over.is_some());
    let new_line_kind = match over {
        Some(k) => k,
        None => match global_config.new_line_kind {
            Some(k) => k,
            None => recommended.new_line_kind.unwrap(),
        },
    };

    assert(property_names(diagnostics@) =~= property_names(old(diagnostics)@)
        + rejected_shared_keys(raw@));
    (line_width, use_tabs, indent_width, new_line_kind)
}

/// The plugin's own settings: override, else the engine's default.
#[verifier::rlimit(60)]
fn resolve_style(raw: &RawConfigMap, diagnostics: &mut Vec<Diagnostic>) -> (r: (
    bool,
    QuoteStyle,
    CallParenType,
    CollapseSimpleStatement,
    bool,
))
    requires
        messages_follow(old(diagnostics)@, old(diagnostics)@.len() as int),
    ensures
        r.0 == first_some(verify_override(raw@), false),
        r.1 == first_some(quote_style_override(raw@), QuoteStyle::AutoPreferDouble),
        r.2 == first_some(call_parentheses_override(raw@), CallParenType::Always),
        r.3 == first_some(collapse_override(raw@), CollapseSimpleStatement::Never),
        r.4 == first_some(sort_requires_override(raw@), false),
        property_names(final(diagnostics)@) == property_names(old(diagnostics)@)
            + rejected_style_keys(raw@),
        messages_follow(final(diagnostics)@, final(diagnostics)@.len() as int),
{
    let (default_quote, default_call, default_collapse, default_sort) =
        engine_style_defaults();
    let ghost start = property_names(diagnostics@);
    let ghost f1 = flagged(raw@, "verify"@, verify_override(raw@) is Some);
    let ghost f2 = flagged(raw@, "quoteStyle"@, quote_style_override(raw@) is Some);
    let ghost f3 = flagged(raw@, "callParentheses"@, call_parentheses_override(raw@) is Some);
    let ghost f4 = flagged(raw@, "collapseSimpleStatement"@, collapse_override(raw@) is Some);
    let ghost f5 = flagged(raw@, "sortRequires"@, sort_requires_override(raw@) is Some);
    let entry = supplied_value(raw, "verify");
    let over = match entry {
        Some(v) => read_flag(v),
        None => None,
    };
    note_rejected(diagnostics, "verify", entry.is_some(), over.is_some());
    assert(property_names(diagnostics@) =~= start + f1);
    let verify = match over {
        Some(b) => b,
        None => false,
    };

    let entry = supplied_value(raw, "quoteStyle");
    let over = match entry {
        Some(v) => read_quote_style(v),
        None => None,
    };
    note_rejected(diagnostics, "quoteStyle", entry.is_some(), over.is_some());
    assert(property_names(diagnostics@) =~= start + (f1 + f2));
    let quote_style = match over {
        Some(q) => q,
        None => default_quote,
    };

    let entry = supplied_value(raw, "callParentheses");
    let over = match entry {
        Some(v) => read_call_parentheses(v),
        None => None,
    };
    note_rejected(diagnostics, "callParentheses", entry.is_some(), over.is_some());
    assert(property_names(diagnostics@) =~= start + (f1 + f2 + f3));
    let call_parentheses = match over {
        Some(c) => c,
        None => default_call,
    };

    let entry = supplied_value(raw, "collapseSimpleStatement");
    let over = match entry {
        Some(v) => read_collapse(v),
        None => None,
    };
    note_rejected(
        diagnostics,
        "collapseSimpleStatement",
        entry.is_some(),
        over.is_some(),
    );
    assert(property_names(diagnostics@) =~= start + (f1 + f2 + f3 + f4));
    let collapse_simple_statement = match over {
        Some(c) => c,
        None => default_collapse,
    };

    let entry = supplied_value(raw, "sortRequires");
    let over = match entry {
        Some(v) => read_flag(v),
        None => None,
    };
    note_rejected(diagnostics, "sortRequires", entry.is_some(), over.is_some());
    assert(property_names(diagnostics@) =~= start + (f1 + f2 + f3 + f4 + f5));
    let sort_requires = match over {
        Some(b) => b,
        None => default_sort,
    };

    assert(property_names(diagnostics@) =~= property_names(old(diagnostics)@)
        + rejected_style_keys(raw@));
    (verify, quote_style, call_parentheses, collapse_simple_statement, sort_requires)
}

impl StyluaPluginHandler {
    /// Merges the override map, the host's global settings and the built-in
    /// defaults into one configuration, and reports each rejected value and each
    /// unknown key. It never fails.
    pub fn resolve_config(
        &mut self,
        config: RawConfigMap,
        global_config: &GlobalConfiguration,
    ) -> (r: ResolveConfigurationResult)
        requires
            config.wf(),
        ensures
            r.config == resolved(config@, *global_config),
            r.config.wf(),
            property_names(r.diagnostics@) == diagnostic_keys(config@),
            messages_follow(r.diagnostics@, rejected_keys(config@).len() as int),
            *final(self) == *old(self),
    {
        let mut diagnostics: Vec<Diagnostic> = Vec::new();
        proof {
            lemma_no_messages(diagnostics@);
        }
        let (line_width, use_tabs, indent_width, new_line_kind) = resolve_shared(
            &config,
            global_config,
            &mut diagnostics,
        );
        let (verify, quote_style, call_parentheses, collapse_simple_statement, sort_requires) =
            resolve_style(&config, &mut diagnostics);
        assert(property_names(diagnostics@) =~= rejected_keys(config@));
        assert(diagnostics@.len() == rejected_keys(config@).len());

        report_unknown_keys(&config, &mut diagnostics);

        let resolved_config = Configuration {
            line_width,
            use_tabs,
            indent_width,
            new_line_kind,
            verify,
            quote_style,
            call_parentheses,
            collapse_simple_statement,
            sort_requires,
        };
        ResolveConfigurationResult { diagnostics, config: resolved_config }
    }

    /// Formats `file_text` under `config`: `Ok(None)` where the engine's output
    /// equals the input, `Ok(Some(text))` where it differs, and the engine's
    /// error where it fails. The path only names the file.
    pub fn format(&mut self, _file_path: &str, file_text: &str, config: &Configuration) -> (r:
        Result<Option<String>, FormatError>)
        ensures
            *final(self) == *old(self),
            outcome_matches(r, file_text, *config),
    {
        let line_endings = match config.new_line_kind {
            NewLineKind::LineFeed => LineEndings::Unix,
            NewLineKind::CarriageReturnLineFeed => LineEndings::Windows,
            _ => detect_line_endings(file_text),
        };
        let settings = config.engine_settings(line_endings);
        match format_code(file_text, &settings) {
            Ok(result) => {
                let input = file_text.to_owned();
                if result == input {
                    Ok(None)
                } else {
                    Ok(Some(result))
                }
            },
            Err(message) => Err(FormatError { message }),
        }
    }
}

} // verus!
