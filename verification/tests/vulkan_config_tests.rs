use scribblekit::render::vulkan::config::{
    init_app_info, init_create_info, required_extension_names, validation_layers,
};
use scribblekit::render::vulkan::debug::MessengerInfo;
use scribblekit::render::Platform;

#[test]
fn required_extensions_on_unix() {
    assert_eq!(
        required_extension_names(Platform::Unix),
        vec![
            "VK_KHR_surface".to_owned(),
            "VK_KHR_xlib_surface".to_owned(),
            "VK_EXT_debug_utils".to_owned()
        ]
    );
}

#[test]
fn required_extensions_on_windows() {
    assert_eq!(
        required_extension_names(Platform::Windows),
        vec![
            "VK_KHR_surface".to_owned(),
            "VK_KHR_win32_surface".to_owned(),
            "VK_EXT_debug_utils".to_owned()
        ]
    );
}

#[test]
fn required_extensions_on_macos() {
    assert_eq!(
        required_extension_names(Platform::MacOs),
        vec![
            "VK_KHR_surface".to_owned(),
            "VK_MVK_macos_surface".to_owned(),
            "VK_EXT_debug_utils".to_owned()
        ]
    );
}

#[test]
fn required_extensions_are_the_bindings_names() {
    assert_eq!(
        required_extension_names(Platform::Unix),
        vec![
            ash::extensions::khr::Surface::name().to_str().unwrap().to_owned(),
            ash::extensions::khr::XlibSurface::name().to_str().unwrap().to_owned(),
            ash::extensions::ext::DebugUtils::name().to_str().unwrap().to_owned()
        ]
    );
    assert_eq!(
        required_extension_names(Platform::Windows)[1],
        ash::extensions::khr::Win32Surface::name().to_str().unwrap().to_owned()
    );
    assert_eq!(
        required_extension_names(Platform::MacOs)[1],
        ash::extensions::mvk::MacOSSurface::name().to_str().unwrap().to_owned()
    );
}

#[test]
fn every_platform_ends_with_debug_utils() {
    for platform in [Platform::Windows, Platform::MacOs, Platform::Unix] {
        let names = required_extension_names(platform);
        assert_eq!(names.len(), 3);
        assert_eq!(names[0], "VK_KHR_surface");
        assert_eq!(names[2], "VK_EXT_debug_utils");
    }
}

#[test]
fn validation_layers_when_wanted() {
    assert_eq!(validation_layers(true), vec!["VK_LAYER_KHRONOS_validation".to_owned()]);
}

#[test]
fn validation_layers_when_not_wanted() {
    assert_eq!(validation_layers(false), Vec::<String>::new());
}

#[test]
fn app_info_fields() {
    let info = init_app_info("ScribbleKit");
    assert_eq!(info.application_name(), "ScribbleKit");
    assert_eq!(info.application_version(), 0);
    assert_eq!(info.engine_name(), "Scribble Vulkan Engine");
    assert_eq!(info.engine_version(), 0);
    assert_eq!(info.api_version(), 4206592);
    assert_eq!(info.api_version(), ash::vk::API_VERSION_1_3);
    assert_eq!(info.api_version(), ash::vk::make_api_version(0, 1, 3, 0));
}

#[test]
fn app_info_takes_the_empty_name() {
    let info = init_app_info("");
    assert_eq!(info.application_name(), "");
    assert_eq!(info.engine_name(), "Scribble Vulkan Engine");
}

#[test]
fn create_info_with_validation() {
    let config = init_create_info(init_app_info("demo"), Platform::Unix, true);
    assert_eq!(*config.application(), init_app_info("demo"));
    assert_eq!(*config.extensions(), required_extension_names(Platform::Unix));
    assert_eq!(*config.layers(), vec!["VK_LAYER_KHRONOS_validation".to_owned()]);
    assert_eq!(
        config.debug_messenger(),
        Some(MessengerInfo { message_severity: 0x1110, message_type: 0x7 })
    );
}

#[test]
fn create_info_without_validation() {
    let config = init_create_info(init_app_info("demo"), Platform::Windows, false);
    assert_eq!(*config.extensions(), required_extension_names(Platform::Windows));
    assert_eq!(config.extensions().len(), 3);
    assert!(config.layers().is_empty());
    assert_eq!(config.debug_messenger(), None);
}

#[test]
fn create_info_is_reproducible() {
    let a = init_create_info(init_app_info("same"), Platform::MacOs, true);
    let b = init_create_info(init_app_info("same"), Platform::MacOs, true);
    assert_eq!(a, b);
}
