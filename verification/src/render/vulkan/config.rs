//! What instance creation is given: application metadata, the extensions to
//! enable, and the validation layers to enable. Pure data assembly.

use super::debug::{populate_debug_messenger_create_info, MessengerInfo};
use super::native::{
    api_version_1_3, debug_utils_extension_name, macos_surface_extension_name,
    surface_extension_name, win32_surface_extension_name, xlib_surface_extension_name,
};
use crate::render::Platform;
use vstd::prelude::*;

verus! {

/// The application metadata block of an instance. Once built it cannot be
/// changed, only read.
#[derive(Debug, PartialEq, Eq)]
pub struct ApplicationInfo {
    application_name: String,
    application_version: u32,
    engine_name: String,
    engine_version: u32,
    api_version: u32,
}

/// An application metadata block, as mathematics.
pub struct ApplicationInfoView {
    pub application_name: Seq<char>,
    pub application_version: u32,
    pub engine_name: Seq<char>,
    pub engine_version: u32,
    pub api_version: u32,
}

impl View for ApplicationInfo {
    type V = ApplicationInfoView;

    closed spec fn view(&self) -> ApplicationInfoView {
        ApplicationInfoView {
            application_name: self.application_name@,
            application_version: self.application_version,
            engine_name: self.engine_name@,
            engine_version: self.engine_version,
            api_version: self.api_version,
        }
    }
}

/// Everything instance creation takes: the metadata block, the names of the
/// extensions and of the layers to enable, and, where validation is on, the
/// messenger descriptor that covers instance creation itself. Once built it
/// cannot be changed, only read.
#[derive(Debug, PartialEq, Eq)]
pub struct InstanceConfig {
    application: ApplicationInfo,
    extensions: Vec<String>,
    layers: Vec<String>,
    debug_messenger: Option<MessengerInfo>,
}

/// An instance configuration, as mathematics.
pub struct InstanceConfigView {
    pub application: ApplicationInfoView,
    pub extensions: Seq<Seq<char>>,
    pub layers: Seq<Seq<char>>,
    pub debug_messenger: Option<MessengerInfo>,
}

impl View for InstanceConfig {
    type V = InstanceConfigView;

    closed spec fn view(&self) -> InstanceConfigView {
        InstanceConfigView {
            application: self.application@,
            extensions: self.extensions.deep_view(),
            layers: self.layers.deep_view(),
            debug_messenger: self.debug_messenger,
        }
    }
}

/// The name of the engine that every instance of this backend reports.
pub open spec fn spec_engine_name() -> Seq<char> {
    "Scribble Vulkan Engine"@
}

/// The API version this backend targets: 1.3.0, packed.
pub open spec fn spec_target_api_version() -> u32 {
    0x0040_3000
}

/// The name of the one validation layer this backend knows.
pub open spec fn spec_validation_layer_name() -> Seq<char> {
    "VK_LAYER_KHRONOS_validation"@
}

/// The layers to ask for: the validation layer if validation is wanted,
/// nothing otherwise.
pub open spec fn spec_validation_layers(validation: bool) -> Seq<Seq<char>> {
    if validation {
        seq![spec_validation_layer_name()]
    } else {
        Seq::<Seq<char>>::empty()
    }
}

/// The surface extension that belongs to a platform.
pub open spec fn spec_platform_surface_extension(platform: Platform) -> Seq<char> {
    match platform {
        Platform::Windows => "VK_KHR_win32_surface"@,
        Platform::MacOs => "VK_MVK_macos_surface"@,
        Platform::Unix => "VK_KHR_xlib_surface"@,
    }
}

/// The extensions an instance needs on a platform: the generic surface
/// extension, the platform's own, and the debug utilities, in this order.
pub open spec fn spec_required_extension_names(platform: Platform) -> Seq<Seq<char>> {
    seq![
        "VK_KHR_surface"@,
        spec_platform_surface_extension(platform),
        "VK_EXT_debug_utils"@,
    ]
}

/// The metadata block for an application name.
pub open spec fn spec_app_info(name: Seq<char>) -> ApplicationInfoView {
    ApplicationInfoView {
        application_name: name,
        application_version: 0,
        engine_name: spec_engine_name(),
        engine_version: 0,
        api_version: spec_target_api_version(),
    }
}

/// The messenger descriptor this backend uses wherever it uses one.
pub open spec fn spec_messenger_info() -> MessengerInfo {
    MessengerInfo { message_severity: 0x1110, message_type: 0x7 }
}

/// The instance configuration for a metadata block on a platform, with the
/// validation layer and the creation-time messenger exactly when validation
/// is enabled.
pub open spec fn spec_create_info(
    application: ApplicationInfoView,
    platform: Platform,
    validation: bool,
) -> InstanceConfigView {
    InstanceConfigView {
        application,
        extensions: spec_required_extension_names(platform),
        layers: spec_validation_layers(validation),
        debug_messenger: if validation {
            Some(spec_messenger_info())
        } else {
            None
        },
    }
}

/// The names of the extensions an instance needs on the given platform.
pub fn required_extension_names(platform: Platform) -> (names: Vec<String>)
    ensures
        names.deep_view() == spec_required_extension_names(platform),
{
    let mut names: Vec<String> = Vec::new();
    names.push(surface_extension_name());
    match platform {
        Platform::Windows => names.push(win32_surface_extension_name()),
        Platform::MacOs => names.push(macos_surface_extension_name()),
        Platform::Unix => names.push(xlib_surface_extension_name()),
    }
    names.push(debug_utils_extension_name());
    assert(names.deep_view() =~= spec_required_extension_names(platform));
    names
}

/// The names of the layers to ask for.
pub fn validation_layers(validation: bool) -> (names: Vec<String>)
    ensures
        names.deep_view() == spec_validation_layers(validation),
{
    let mut names: Vec<String> = Vec::new();
    if validation {
        names.push("VK_LAYER_KHRONOS_validation".to_owned());
    }
    assert(names.deep_view() =~= spec_validation_layers(validation));
    names
}

/// The metadata block for an application of the given name. Any name is
/// taken, the empty one too.
pub fn init_app_info(name: &str) -> (info: ApplicationInfo)
    ensures
        info@ == spec_app_info(name@),
{
    ApplicationInfo {
        application_name: name.to_owned(),
        application_version: 0u32,
        engine_name: "Scribble Vulkan Engine".to_owned(),
        engine_version: 0u32,
        api_version: api_version_1_3(),
    }
}

/// The configuration that instance creation is given. `validation` says
/// whether the validation layer was asked for and found to be supported.
pub fn init_create_info(app_info: ApplicationInfo, platform: Platform, validation: bool) -> (config:
    InstanceConfig)
    ensures
        config@ == spec_create_info(app_info@, platform, validation),
{
    let extensions = required_extension_names(platform);
    let layers = validation_layers(validation);
    let debug_messenger = if validation {
        Some(populate_debug_messenger_create_info())
    } else {
        None
    };
    InstanceConfig { application: app_info, extensions, layers, debug_messenger }
}

impl ApplicationInfo {
    /// The application's name.
    pub fn application_name(&self) -> (name: &str)
        ensures
            name@ == self@.application_name,
    {
        self.application_name.as_str()
    }

    /// The application's version.
    pub fn application_version(&self) -> (version: u32)
        ensures
            version == self@.application_version,
    {
        self.application_version
    }

    /// The engine's name.
    pub fn engine_name(&self) -> (name: &str)
        ensures
            name@ == self@.engine_name,
    {
        self.engine_name.as_str()
    }

    /// The engine's version.
    pub fn engine_version(&self) -> (version: u32)
        ensures
            version == self@.engine_version,
    {
        self.engine_version
    }

    /// The API version that is targeted, packed.
    pub fn api_version(&self) -> (version: u32)
        ensures
            version == self@.api_version,
    {
        self.api_version
    }
}

impl InstanceConfig {
    /// The application metadata block.
    pub fn application(&self) -> (application: &ApplicationInfo)
        ensures
            application@ == self@.application,
    {
        &self.application
    }

    /// The names of the extensions to enable.
    pub fn extensions(&self) -> (names: &Vec<String>)
        ensures
            names.deep_view() == self@.extensions,
    {
        &self.extensions
    }

    /// The names of the layers to enable.
    pub fn layers(&self) -> (names: &Vec<String>)
        ensures
            names.deep_view() == self@.layers,
    {
        &self.layers
    }

    /// The messenger descriptor that covers instance creation, if any.
    pub fn debug_messenger(&self) -> (info: Option<MessengerInfo>)
        ensures
            info == self@.debug_messenger,
    {
        self.debug_messenger
    }
}

} // verus!
