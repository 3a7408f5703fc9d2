//! The diagnostics channel: which messages are asked for, and the line that
//! the default sink writes for one.

use vstd::prelude::*;

verus! {

/// Severity bit of verbose messages.
pub const SEVERITY_VERBOSE: u32 = 0x0001;

/// Severity bit of informational messages.
pub const SEVERITY_INFO: u32 = 0x0010;

/// Severity bit of warnings.
pub const SEVERITY_WARNING: u32 = 0x0100;

/// Severity bit of errors.
pub const SEVERITY_ERROR: u32 = 0x1000;

/// Category bit of general messages.
pub const CATEGORY_GENERAL: u32 = 0x1;

/// Category bit of messages from validation.
pub const CATEGORY_VALIDATION: u32 = 0x2;

/// Category bit of messages on performance.
pub const CATEGORY_PERFORMANCE: u32 = 0x4;

/// All four severities.
pub const ALL_SEVERITIES: u32 = 0x1111;

/// All three categories.
pub const ALL_CATEGORIES: u32 = 0x7;

/// The messages that the messenger asks the implementation for.
#[derive(Clone, Copy, Debug, PartialEq, Eq, Structural)]
pub struct DiagnosticsConfig {
    /// The severities to report, as a mask of severity bits.
    pub severity_mask: u32,
    /// The categories to report, as a mask of category bits.
    pub category_mask: u32,
}

impl DiagnosticsConfig {
    pub fn new(severity_mask: u32, category_mask: u32) -> (config: DiagnosticsConfig)
        ensures
            config == (DiagnosticsConfig { severity_mask, category_mask }),
    {
        DiagnosticsConfig { severity_mask, category_mask }
    }

    /// Every severity of every category.
    pub fn all() -> (config: DiagnosticsConfig)
        ensures
            config.severity_mask == SEVERITY_VERBOSE | SEVERITY_INFO | SEVERITY_WARNING
                | SEVERITY_ERROR,
            config.category_mask == CATEGORY_GENERAL | CATEGORY_VALIDATION | CATEGORY_PERFORMANCE,
            config == (DiagnosticsConfig {
                severity_mask: ALL_SEVERITIES,
                category_mask: ALL_CATEGORIES,
            }),
    {
        assert(0x0001u32 | 0x0010u32 | 0x0100u32 | 0x1000u32 == 0x1111u32) by (bit_vector);
        assert(0x1u32 | 0x2u32 | 0x4u32 == 0x7u32) by (bit_vector);
        DiagnosticsConfig { severity_mask: ALL_SEVERITIES, category_mask: ALL_CATEGORIES }
    }
}

/// How `ash` prints a severity mask with `{:?}`.
pub uninterp spec fn severity_label(severity: u32) -> Seq<char>;

/// How `ash` prints a category mask with `{:?}`.
pub uninterp spec fn category_label(category: u32) -> Seq<char>;

/// The lowercase form that `str::to_lowercase` gives a text.
pub uninterp spec fn lowercase(text: Seq<char>) -> Seq<char>;

/// Formats the mask with the `Debug` impl of
/// `ash::vk::DebugUtilsMessageSeverityFlagsEXT`; the text depends on the mask
/// alone.
#[verifier::external_body]
fn severity_text(severity: u32) -> (text: String)
    ensures
        text@ == severity_label(severity),
{
    format!("{:?}", ash::vk::DebugUtilsMessageSeverityFlagsEXT::from_raw(severity))
}

/// Formats the mask with the `Debug` impl of
/// `ash::vk::DebugUtilsMessageTypeFlagsEXT`; the text depends on the mask
/// alone.
#[verifier::external_body]
fn category_text(category: u32) -> (text: String)
    ensures
        text@ == category_label(category),
{
    format!("{:?}", ash::vk::DebugUtilsMessageTypeFlagsEXT::from_raw(category))
}

/// Calls `str::to_lowercase`; the result depends on the text alone.
#[verifier::external_body]
fn to_lowercase(text: &str) -> (lower: String)
    ensures
        lower@ == lowercase(text@),
{
    text.to_lowercase()
}

/// The line for one message: `[Debug][severity][category] message`.
pub open spec fn report_text(severity: Seq<char>, category: Seq<char>, message: Seq<char>) -> Seq<
    char,
> {
    "[Debug]["@ + severity + "]["@ + category + "] "@ + message
}

/// Composes the line that the default sink writes for a message whose
/// severity and category are already given as text.
pub fn format_report(severity: &str, category: &str, message: &str) -> (line: String)
    ensures
        line@ == report_text(severity@, category@, message@),
{
    let mut line = String::from_str("[Debug][");
    line.append(severity);
    line.append("][");
    line.append(category);
    line.append("] ");
    line.append(message);
    line
}

/// The line that the default sink writes for a message reported with the
/// given severity and category bits: both are printed as `ash` names them, in
/// lowercase.
pub fn report(severity: u32, category: u32, message: &str) -> (line: String)
    ensures
        line@ == report_text(
            lowercase(severity_label(severity)),
            lowercase(category_label(category)),
            message@,
        ),
{
    let severity_name = to_lowercase(severity_text(severity).as_str());
    let category_name = to_lowercase(category_text(category).as_str());
    format_report(severity_name.as_str(), category_name.as_str(), message)
}

} // verus!
