use vstd::prelude::*;

verus! {

/// The newline setting of the host (`auto`, `lf`, `crlf`, `system`).
#[verifier::external_type_specification]
pub struct ExNewLineKind(dprint_core::configuration::NewLineKind);

/// The settings that the host shares among all its formatters.
#[verifier::external_type_specification]
pub struct ExGlobalConfiguration(dprint_core::configuration::GlobalConfiguration);

#[verifier::external_type_specification]
pub struct ExLineEndings(stylua_lib::LineEndings);

#[verifier::external_type_specification]
pub struct ExIndentType(stylua_lib::IndentType);

#[verifier::external_type_specification]
pub struct ExQuoteStyle(stylua_lib::QuoteStyle);

#[verifier::external_type_specification]
pub struct ExCallParenType(stylua_lib::CallParenType);

#[verifier::external_type_specification]
pub struct ExCollapseSimpleStatement(stylua_lib::CollapseSimpleStatement);

#[verifier::external_type_specification]
pub struct ExOutputVerification(stylua_lib::OutputVerification);

} // verus!
