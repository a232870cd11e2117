//! The calls into `ash` and `std` that the backend relies on. Nothing in this
//! file is proved: each contract restates what the called item is documented
//! or defined to give.

use vstd::prelude::*;
use vstd::utf8::{decode_utf8, valid_utf8};

verus! {

/// The loaded binding to the native GPU API library. Opaque here.
#[verifier::external_type_specification]
#[verifier::external_body]
pub struct ExEntry(ash::Entry);

/// `ash::extensions::khr::Surface::name`: the name of the window-system
/// independent surface extension.
#[verifier::external_body]
pub(crate) fn surface_extension_name() -> (name: String)
    ensures
        name@ == "VK_KHR_surface"@,
{
    ash::extensions::khr::Surface::name().to_string_lossy().into_owned()
}

/// `ash::extensions::khr::XlibSurface::name`: the name of the X11 surface
/// extension.
#[verifier::external_body]
pub(crate) fn xlib_surface_extension_name() -> (name: String)
    ensures
        name@ == "VK_KHR_xlib_surface"@,
{
    ash::extensions::khr::XlibSurface::name().to_string_lossy().into_owned()
}

/// `ash::extensions::khr::Win32Surface::name`: the name of the Win32 surface
/// extension.
#[verifier::external_body]
pub(crate) fn win32_surface_extension_name() -> (name: String)
    ensures
        name@ == "VK_KHR_win32_surface"@,
{
    ash::extensions::khr::Win32Surface::name().to_string_lossy().into_owned()
}

/// `ash::extensions::mvk::MacOSSurface::name`: the name of the macOS surface
/// extension.
#[verifier::external_body]
pub(crate) fn macos_surface_extension_name() -> (name: String)
    ensures
        name@ == "VK_MVK_macos_surface"@,
{
    ash::extensions::mvk::MacOSSurface::name().to_string_lossy().into_owned()
}

/// `ash::extensions::ext::DebugUtils::name`: the name of the debug-utilities
/// extension.
#[verifier::external_body]
pub(crate) fn debug_utils_extension_name() -> (name: String)
    ensures
        name@ == "VK_EXT_debug_utils"@,
{
    ash::extensions::ext::DebugUtils::name().to_string_lossy().into_owned()
}

/// `ash::vk::API_VERSION_1_3`: variant 0, major 1, minor 3, patch 0, packed
/// as the API packs versions (major from bit 22, minor from bit 12).
#[verifier::external_body]
pub(crate) fn api_version_1_3() -> (version: u32)
    ensures
        version == 0x0040_3000,
{
    ash::vk::API_VERSION_1_3
}

/// `ash::vk::FALSE`: the value a debug callback returns so that the call
/// which triggered it is not aborted.
#[verifier::external_body]
pub(crate) fn vk_false() -> (value: u32)
    ensures
        value == 0,
{
    ash::vk::FALSE
}

/// `ash::vk::DebugUtilsMessageSeverityFlagsEXT::VERBOSE`, as raw bits.
#[verifier::external_body]
pub(crate) fn severity_verbose() -> (bits: u32)
    ensures
        bits == 0x0001,
{
    ash::vk::DebugUtilsMessageSeverityFlagsEXT::VERBOSE.as_raw()
}

/// `ash::vk::DebugUtilsMessageSeverityFlagsEXT::INFO`, as raw bits.
#[verifier::external_body]
pub(crate) fn severity_info() -> (bits: u32)
    ensures
        bits == 0x0010,
{
    ash::vk::DebugUtilsMessageSeverityFlagsEXT::INFO.as_raw()
}

/// `ash::vk::DebugUtilsMessageSeverityFlagsEXT::WARNING`, as raw bits.
#[verifier::external_body]
pub(crate) fn severity_warning() -> (bits: u32)
    ensures
        bits == 0x0100,
{
    ash::vk::DebugUtilsMessageSeverityFlagsEXT::WARNING.as_raw()
}

/// `ash::vk::DebugUtilsMessageSeverityFlagsEXT::ERROR`, as raw bits.
#[verifier::external_body]
pub(crate) fn severity_error() -> (bits: u32)
    ensures
        bits == 0x1000,
{
    ash::vk::DebugUtilsMessageSeverityFlagsEXT::ERROR.as_raw()
}

/// `ash::vk::DebugUtilsMessageTypeFlagsEXT::GENERAL`, as raw bits.
#[verifier::external_body]
pub(crate) fn category_general() -> (bits: u32)
    ensures
        bits == 0x1,
{
    ash::vk::DebugUtilsMessageTypeFlagsEXT::GENERAL.as_raw()
}

/// `ash::vk::DebugUtilsMessageTypeFlagsEXT::VALIDATION`, as raw bits.
#[verifier::external_body]
pub(crate) fn category_validation() -> (bits: u32)
    ensures
        bits == 0x2,
{
    ash::vk::DebugUtilsMessageTypeFlagsEXT::VALIDATION.as_raw()
}

/// `ash::vk::DebugUtilsMessageTypeFlagsEXT::PERFORMANCE`, as raw bits.
#[verifier::external_body]
pub(crate) fn category_performance() -> (bits: u32)
    ensures
        bits == 0x4,
{
    ash::vk::DebugUtilsMessageTypeFlagsEXT::PERFORMANCE.as_raw()
}

/// `ash::Entry::enumerate_instance_layer_properties`: the instance layers the
/// driver stack knows, each by the bytes of its fixed-size name field, or the
/// native result code of a failed enumeration. What comes back depends on
/// the machine, so nothing is claimed of it.
#[verifier::external_body]
pub(crate) fn enumerate_layer_names(entry: &ash::Entry) -> (listing: Result<Vec<Vec<u8>>, i32>) {
    match entry.enumerate_instance_layer_properties() {
        Ok(layers) => Ok(
            layers.iter().map(|layer| layer.layer_name.iter().map(|c| *c as u8).collect()).collect(),
        ),
        Err(code) => Err(code.as_raw()),
    }
}

/// `String::from_utf8`: the text that the bytes encode, if and only if they
/// are valid UTF-8.
#[verifier::external_body]
pub(crate) fn text_from_utf8(bytes: Vec<u8>) -> (text: Option<String>)
    ensures
        text.is_some() == valid_utf8(bytes@),
        text matches Some(s) ==> s@ == decode_utf8(bytes@),
{
    String::from_utf8(bytes).ok()
}

/// What `{:?}` formatting makes of a text: the text between double quotes,
/// with the characters that `str`'s `Debug` escapes written as escapes.
pub uninterp spec fn debug_quoted(text: Seq<char>) -> Seq<char>;

/// `format!` with `{:?}` on a `str`: the quoted, escaped form of the text,
/// which depends on the text alone.
#[verifier::external_body]
pub(crate) fn debug_quote(text: &str) -> (quoted: String)
    ensures
        quoted@ == debug_quoted(text@),
{
    format!("{:?}", text)
}

} // verus!
