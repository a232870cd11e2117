//! The debug-message bridge: what the messenger listens to, and how a native
//! debug message becomes a log line.

use super::native::{
    category_general, category_performance, category_validation, debug_quote, debug_quoted,
    severity_error, severity_info, severity_verbose, severity_warning, vk_false,
};
use vstd::prelude::*;

verus! {

/// The descriptor of a debug messenger: which severities and which message
/// categories it is to receive, as the API's raw flag bits.
#[derive(Debug, Clone, Copy, PartialEq, Eq, Structural)]
pub struct MessengerInfo {
    pub message_severity: u32,
    pub message_type: u32,
}

/// Severity flag bits.
pub open spec fn spec_severity_verbose() -> u32 {
    0x0001
}

pub open spec fn spec_severity_info() -> u32 {
    0x0010
}

pub open spec fn spec_severity_warning() -> u32 {
    0x0100
}

pub open spec fn spec_severity_error() -> u32 {
    0x1000
}

/// Category flag bits.
pub open spec fn spec_category_general() -> u32 {
    0x1
}

pub open spec fn spec_category_validation() -> u32 {
    0x2
}

pub open spec fn spec_category_performance() -> u32 {
    0x4
}

/// The tag a log line carries for a severity. Only an exact single flag has
/// a tag of its own.
pub open spec fn spec_severity_label(severity: u32) -> Seq<char> {
    if severity == spec_severity_verbose() {
        "[Verbose]"@
    } else if severity == spec_severity_warning() {
        "[Warning]"@
    } else if severity == spec_severity_error() {
        "[Error]"@
    } else if severity == spec_severity_info() {
        "[Info]"@
    } else {
        "[Unknown]"@
    }
}

/// The tag a log line carries for a message category. Only an exact single
/// flag has a tag of its own.
pub open spec fn spec_category_label(category: u32) -> Seq<char> {
    if category == spec_category_general() {
        "[General]"@
    } else if category == spec_category_performance() {
        "[Performance]"@
    } else if category == spec_category_validation() {
        "[Validation]"@
    } else {
        "[Unknown]"@
    }
}

/// A possibly absent text, with absence read as the empty text.
pub open spec fn text_or_empty(text: Option<&str>) -> Seq<char> {
    match text {
        Some(t) => t@,
        None => Seq::<char>::empty(),
    }
}

/// The payload of a native debug message, made safe to read: the flags as
/// they came, and the identifier and the message as owned texts, each empty
/// where the native pointer was null.
#[derive(Debug, PartialEq, Eq)]
pub struct DebugMessage {
    pub severity: u32,
    pub category: u32,
    pub identifier: String,
    pub message: String,
}

/// A decoded debug message, as mathematics.
pub struct DebugMessageView {
    pub severity: u32,
    pub category: u32,
    pub identifier: Seq<char>,
    pub message: Seq<char>,
}

impl View for DebugMessage {
    type V = DebugMessageView;

    open spec fn view(&self) -> DebugMessageView {
        DebugMessageView {
            severity: self.severity,
            category: self.category,
            identifier: self.identifier@,
            message: self.message@,
        }
    }
}

/// What a payload decodes to: an absent identifier and an absent message are
/// each read as the empty text.
pub open spec fn spec_decode_debug_message(
    severity: u32,
    category: u32,
    identifier: Option<&str>,
    message: Option<&str>,
) -> DebugMessageView {
    DebugMessageView {
        severity,
        category,
        identifier: text_or_empty(identifier),
        message: text_or_empty(message),
    }
}

/// The log line for a message: a fixed prefix, the severity tag, the category
/// tag, and the already quoted message. The identifier is not part of it.
pub open spec fn spec_log_line(severity: u32, category: u32, quoted_message: Seq<char>) -> Seq<char> {
    "[Debug]"@ + spec_severity_label(severity) + spec_category_label(category) + quoted_message
}

/// The tag for a severity flag.
pub fn severity_label(severity: u32) -> (label: &'static str)
    ensures
        label@ == spec_severity_label(severity),
{
    if severity == severity_verbose() {
        "[Verbose]"
    } else if severity == severity_warning() {
        "[Warning]"
    } else if severity == severity_error() {
        "[Error]"
    } else if severity == severity_info() {
        "[Info]"
    } else {
        "[Unknown]"
    }
}

/// The tag for a message-category flag.
pub fn category_label(category: u32) -> (label: &'static str)
    ensures
        label@ == spec_category_label(category),
{
    if category == category_general() {
        "[General]"
    } else if category == category_performance() {
        "[Performance]"
    } else if category == category_validation() {
        "[Validation]"
    } else {
        "[Unknown]"
    }
}

/// A possibly absent text, made safe to read: absence is the empty text.
pub fn present_text(text: Option<&str>) -> (present: String)
    ensures
        present@ == text_or_empty(text),
{
    match text {
        Some(text) => text.to_owned(),
        None => String::new(),
    }
}

/// Decodes the payload of a native debug message. A text that is absent,
/// because the native pointer was null, is read as empty; nothing here can
/// fail.
pub fn decode_debug_message(
    severity: u32,
    category: u32,
    identifier: Option<&str>,
    message: Option<&str>,
) -> (decoded: DebugMessage)
    ensures
        decoded@ == spec_decode_debug_message(severity, category, identifier, message),
{
    DebugMessage {
        severity,
        category,
        identifier: present_text(identifier),
        message: present_text(message),
    }
}

/// Puts a log line together from the flags and the quoted message.
pub fn compose_log_line(severity: u32, category: u32, quoted_message: &str) -> (line: String)
    ensures
        line@ == spec_log_line(severity, category, quoted_message@),
{
    let mut line = String::from_str("[Debug]");
    line.append(severity_label(severity));
    line.append(category_label(category));
    line.append(quoted_message);
    line
}

/// The bridge behind the native debug callback. It takes the severity flag,
/// the category flags, and the identifier and message of the payload, each
/// absent where the native pointer was null, and gives the log line to emit
/// together with the value to hand back to the API. The line holds the
/// prefix, the two tags and the quoted message, an absent message being read
/// as empty; the identifier is decoded with the rest and leaves no trace in
/// the line. The value handed back never asks the API to abort the call.
pub fn vulkan_debug_utils_callback(
    message_severity: u32,
    message_type: u32,
    identifier: Option<&str>,
    message: Option<&str>,
) -> (out: (String, u32))
    ensures
        out.0@ == spec_log_line(
            message_severity,
            message_type,
            debug_quoted(text_or_empty(message)),
        ),
        out.1 == 0,
{
    let decoded = decode_debug_message(message_severity, message_type, identifier, message);
    let quoted = debug_quote(decoded.message.as_str());
    let line = compose_log_line(decoded.severity, decoded.category, quoted.as_str());
    (line, vk_false())
}

/// Whether a flag mask contains every bit of `flag`.
pub open spec fn mask_has(mask: u32, flag: u32) -> bool {
    mask & flag == flag
}

/// The descriptor of the messenger this backend attaches: errors, warnings
/// and informational messages, but not verbose ones, of every category.
pub fn populate_debug_messenger_create_info() -> (info: MessengerInfo)
    ensures
        info.message_severity == 0x1110,
        info.message_type == 0x7,
        mask_has(info.message_severity, spec_severity_error()),
        mask_has(info.message_severity, spec_severity_warning()),
        mask_has(info.message_severity, spec_severity_info()),
        !mask_has(info.message_severity, spec_severity_verbose()),
        mask_has(info.message_type, spec_category_general()),
        mask_has(info.message_type, spec_category_validation()),
        mask_has(info.message_type, spec_category_performance()),
{
    let message_severity: u32 = severity_warning() | severity_info() | severity_error();
    let message_type: u32 = category_general() | category_performance()
        | category_validation();
    assert(0x0100u32 | 0x0010u32 | 0x1000u32 == 0x1110u32) by (bit_vector);
    assert(0x1u32 | 0x4u32 | 0x2u32 == 0x7u32) by (bit_vector);
    assert(0x1110u32 & 0x1000u32 == 0x1000u32) by (bit_vector);
    assert(0x1110u32 & 0x0100u32 == 0x0100u32) by (bit_vector);
    assert(0x1110u32 & 0x0010u32 == 0x0010u32) by (bit_vector);
    assert(0x1110u32 & 0x0001u32 != 0x0001u32) by (bit_vector);
    assert(0x7u32 & 0x1u32 == 0x1u32) by (bit_vector);
    assert(0x7u32 & 0x2u32 == 0x2u32) by (bit_vector);
    assert(0x7u32 & 0x4u32 == 0x4u32) by (bit_vector);
    MessengerInfo { message_severity, message_type }
}

} // verus!
