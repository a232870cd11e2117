use scribblekit::render::vulkan::config::{init_app_info, init_create_info};
use scribblekit::render::vulkan::debug::MessengerInfo;
use scribblekit::render::vulkan::protocol::{GpuCommand, GpuEvent, Lifecycle, OwnerState, Stage};
use scribblekit::render::vulkan::VulkanRenderer;
use scribblekit::render::{DisplayHandle, Platform, PlatformError, RendererError};

const VALIDATION: &str = "VK_LAYER_KHRONOS_validation";

/// A stand-in for the native layer: it answers from a script and keeps count.
struct MockApi {
    loader: bool,
    layers: Result<Vec<String>, PlatformError>,
    instance: Result<u64, i32>,
    messenger: Result<u64, i32>,
    calls: Vec<&'static str>,
    enabled_layers: Option<usize>,
}

impl MockApi {
    fn healthy() -> MockApi {
        MockApi {
            loader: true,
            layers: Ok(vec!["VK_LAYER_other".to_owned(), VALIDATION.to_owned()]),
            instance: Ok(0x1000),
            messenger: Ok(0x2000),
            calls: Vec::new(),
            enabled_layers: None,
        }
    }

    fn count(&self, call: &str) -> usize {
        self.calls.iter().filter(|c| **c == call).count()
    }

    fn position(&self, call: &str) -> Option<usize> {
        self.calls.iter().position(|c| *c == call)
    }

    /// Carries out one command; `None` when there is nothing to carry out.
    fn perform(&mut self, command: GpuCommand) -> Option<GpuEvent> {
        match command {
            GpuCommand::LoadEntry => {
                self.calls.push("load_entry");
                Some(if self.loader { GpuEvent::EntryLoaded } else { GpuEvent::EntryUnavailable })
            }
            GpuCommand::EnumerateLayers => {
                self.calls.push("enumerate_layers");
                Some(GpuEvent::LayersEnumerated(self.layers.clone()))
            }
            GpuCommand::CreateInstance(config) => {
                self.calls.push("create_instance");
                self.enabled_layers = Some(config.layers().len());
                Some(match self.instance {
                    Ok(handle) => GpuEvent::InstanceCreated(handle),
                    Err(code) => GpuEvent::InstanceFailed(code),
                })
            }
            GpuCommand::CreateMessenger { .. } => {
                self.calls.push("create_messenger");
                Some(match self.messenger {
                    Ok(handle) => GpuEvent::MessengerCreated(handle),
                    Err(code) => GpuEvent::MessengerFailed(code),
                })
            }
            GpuCommand::DestroyMessenger { .. } => {
                self.calls.push("destroy_messenger");
                Some(GpuEvent::Released)
            }
            GpuCommand::DestroyInstance { .. } => {
                self.calls.push("destroy_instance");
                Some(GpuEvent::Released)
            }
            GpuCommand::UnloadEntry => {
                self.calls.push("unload_entry");
                Some(GpuEvent::Released)
            }
            GpuCommand::Idle => None,
        }
    }

    /// Carries out commands until the owner waits on nothing.
    fn settle(&mut self, owner: &mut VulkanRenderer, first: GpuCommand) {
        let mut command = first;
        while let Some(event) = self.perform(command) {
            command = owner.advance(event);
        }
    }

    /// Constructs a backend against this stand-in, as a caller would: the
    /// owner if construction succeeded, the error if it did not.
    fn construct(&mut self, validation: bool) -> Result<VulkanRenderer, RendererError> {
        let display = DisplayHandle { platform: Platform::Unix };
        let mut owner = VulkanRenderer::create("ScribbleKit", &display, validation);
        let first = owner.pending();
        self.settle(&mut owner, first);
        match owner.outcome() {
            Some(Ok(())) => Ok(owner),
            Some(Err(error)) => Err(error),
            None => panic!("construction did not settle"),
        }
    }

    /// Drops a backend: teardown, carried out to the end.
    fn drop_backend(&mut self, mut owner: VulkanRenderer) -> VulkanRenderer {
        let first = owner.destroy();
        self.settle(&mut owner, first);
        owner
    }
}

fn unix() -> DisplayHandle {
    DisplayHandle { platform: Platform::Unix }
}

#[test]
fn a_new_owner_waits_for_the_loader() {
    let owner = VulkanRenderer::create("app", &unix(), true);
    assert_eq!(owner.pending(), GpuCommand::LoadEntry);
    assert_eq!(owner.lifecycle(), Lifecycle::Unloaded);
    assert_eq!(owner.outcome(), None);
    assert_eq!(owner.enabled_layer_count(), 0);
    assert_eq!(
        owner.state(),
        OwnerState { stage: Stage::LoadingEntry, instance: None, messenger: None, failure: None }
    );
}

#[test]
fn validation_supported_end_to_end() {
    let mut api = MockApi::healthy();
    api.layers = Ok(vec![VALIDATION.to_owned()]);
    let owner = api.construct(true).expect("construction succeeds");
    assert_eq!(api.enabled_layers, Some(1));
    assert_eq!(owner.enabled_layer_count(), 1);
    assert_eq!(owner.state().instance, Some(0x1000));
    assert_eq!(owner.state().messenger, Some(0x2000));
    assert_ne!(owner.state().messenger, Some(0));
    assert_eq!(owner.lifecycle(), Lifecycle::DebugAttached);
    assert_eq!(owner.pending(), GpuCommand::Idle);
    assert_eq!(
        api.calls,
        vec!["load_entry", "enumerate_layers", "create_instance", "create_messenger"]
    );
}

#[test]
fn validation_unsupported_with_empty_layer_list() {
    let mut api = MockApi::healthy();
    api.layers = Ok(Vec::new());
    let error = api.construct(true).err().expect("construction fails");
    assert_eq!(error, RendererError::EnumerateDevicesFailed(PlatformError::NoLayers));
    assert_eq!(api.count("create_instance"), 0);
    assert_eq!(api.count("create_messenger"), 0);
    assert_eq!(api.enabled_layers, None);
    assert_eq!(api.calls, vec!["load_entry", "enumerate_layers", "unload_entry"]);
}

#[test]
fn validation_unsupported_with_other_layers_present() {
    let mut api = MockApi::healthy();
    api.layers = Ok(vec!["VK_LAYER_other".to_owned(), "VK_LAYER_more".to_owned()]);
    let error = api.construct(true).err().expect("construction fails");
    assert_eq!(error, RendererError::EnumerateDevicesFailed(PlatformError::LayerUnavailable));
    assert_eq!(api.count("create_instance"), 0);
    assert_eq!(api.calls, vec!["load_entry", "enumerate_layers", "unload_entry"]);
}

#[test]
fn unsupported_validation_always_follows_the_same_policy() {
    let listings: Vec<Vec<String>> = vec![
        Vec::new(),
        vec!["a".to_owned()],
        vec!["VK_LAYER_KHRONOS_validation ".to_owned()],
        vec!["vk_layer_khronos_validation".to_owned(), "b".to_owned()],
    ];
    for listing in listings {
        let mut api = MockApi::healthy();
        api.layers = Ok(listing);
        let error = api.construct(true).err().expect("construction fails");
        assert!(matches!(error, RendererError::EnumerateDevicesFailed(_)));
        assert_eq!(api.count("create_instance"), 0);
        assert_eq!(api.count("destroy_instance"), 0);
    }
}

#[test]
fn enumeration_failure_ends_construction() {
    let mut api = MockApi::healthy();
    api.layers = Err(PlatformError::Native(-3));
    let error = api.construct(true).err().expect("construction fails");
    assert_eq!(error, RendererError::EnumerateDevicesFailed(PlatformError::Native(-3)));
    assert_eq!(api.calls, vec!["load_entry", "enumerate_layers", "unload_entry"]);
}

#[test]
fn missing_loader_creates_nothing() {
    let mut api = MockApi::healthy();
    api.loader = false;
    let error = api.construct(true).err().expect("construction fails");
    assert_eq!(error, RendererError::InitializationFailed(PlatformError::LoaderUnavailable));
    assert_eq!(api.calls, vec!["load_entry"]);
}

#[test]
fn early_failures_never_create_or_destroy() {
    for (loader, layers) in [
        (false, Ok(vec![VALIDATION.to_owned()])),
        (true, Ok(Vec::new())),
        (true, Ok(vec!["x".to_owned()])),
        (true, Err(PlatformError::Native(-1))),
        (true, Err(PlatformError::MalformedLayerName)),
    ] {
        let mut api = MockApi::healthy();
        api.loader = loader;
        api.layers = layers;
        assert!(api.construct(true).is_err());
        assert_eq!(api.count("create_instance"), 0);
        assert_eq!(api.count("create_messenger"), 0);
        assert_eq!(api.count("destroy_messenger"), 0);
        assert_eq!(api.count("destroy_instance"), 0);
    }
}

#[test]
fn failed_instance_creation_keeps_no_handle() {
    let mut api = MockApi::healthy();
    api.instance = Err(-9);
    let error = api.construct(true).err().expect("construction fails");
    assert_eq!(error, RendererError::InitializationFailed(PlatformError::Native(-9)));
    assert_eq!(api.count("create_instance"), 1);
    assert_eq!(api.count("create_messenger"), 0);
    assert_eq!(api.count("destroy_instance"), 0);
    assert_eq!(
        api.calls,
        vec!["load_entry", "enumerate_layers", "create_instance", "unload_entry"]
    );
}

#[test]
fn null_instance_handle_is_a_failure() {
    let mut api = MockApi::healthy();
    api.instance = Ok(0);
    let error = api.construct(false).err().expect("construction fails");
    assert_eq!(error, RendererError::InitializationFailed(PlatformError::NullHandle));
    assert_eq!(api.count("destroy_instance"), 0);
}

#[test]
fn failed_messenger_does_not_leak_the_instance() {
    let mut api = MockApi::healthy();
    api.messenger = Err(-11);
    let error = api.construct(true).err().expect("construction fails");
    assert_eq!(error, RendererError::DebugSetupFailed(PlatformError::Native(-11)));
    assert_eq!(
        api.calls,
        vec![
            "load_entry",
            "enumerate_layers",
            "create_instance",
            "create_messenger",
            "destroy_instance",
            "unload_entry"
        ]
    );
    assert_eq!(api.count("destroy_messenger"), 0);
}

#[test]
fn failed_messenger_falls_back_to_the_instance_alone() {
    let mut owner = VulkanRenderer::create("app", &unix(), true);
    owner.advance(GpuEvent::EntryLoaded);
    owner.advance(GpuEvent::LayersEnumerated(Ok(vec![VALIDATION.to_owned()])));
    owner.advance(GpuEvent::InstanceCreated(7));
    let command = owner.advance(GpuEvent::MessengerFailed(-2));
    assert_eq!(command, GpuCommand::DestroyInstance { instance: 7 });
    assert_eq!(owner.lifecycle(), Lifecycle::InstanceCreated);
    assert_eq!(owner.state().messenger, None);
    assert_eq!(owner.state().instance, Some(7));
    assert_eq!(
        owner.outcome(),
        Some(Err(RendererError::DebugSetupFailed(PlatformError::Native(-2))))
    );
}

#[test]
fn null_messenger_handle_is_a_failure() {
    let mut api = MockApi::healthy();
    api.messenger = Ok(0);
    let error = api.construct(true).err().expect("construction fails");
    assert_eq!(error, RendererError::DebugSetupFailed(PlatformError::NullHandle));
    assert_eq!(api.count("destroy_instance"), 1);
}

#[test]
fn without_validation_nothing_is_probed_or_attached() {
    let mut api = MockApi::healthy();
    let owner = api.construct(false).expect("construction succeeds");
    assert_eq!(api.calls, vec!["load_entry", "create_instance"]);
    assert_eq!(api.enabled_layers, Some(0));
    assert_eq!(owner.enabled_layer_count(), 0);
    assert_eq!(owner.state().messenger, None);
    assert_eq!(owner.lifecycle(), Lifecycle::InstanceCreated);
}

#[test]
fn messenger_is_destroyed_before_the_instance() {
    let mut api = MockApi::healthy();
    let owner = api.construct(true).expect("construction succeeds");
    let owner = api.drop_backend(owner);
    let messenger = api.position("destroy_messenger").expect("messenger destroyed");
    let instance = api.position("destroy_instance").expect("instance destroyed");
    let entry = api.position("unload_entry").expect("entry unloaded");
    assert!(messenger < instance);
    assert!(instance < entry);
    assert_eq!(api.count("destroy_messenger"), 1);
    assert_eq!(api.count("destroy_instance"), 1);
    assert_eq!(owner.lifecycle(), Lifecycle::Destroyed);
    assert_eq!(owner.state().instance, None);
    assert_eq!(owner.state().messenger, None);
    assert_eq!(owner.outcome(), Some(Ok(())));
}

#[test]
fn teardown_without_a_messenger() {
    let mut api = MockApi::healthy();
    let owner = api.construct(false).expect("construction succeeds");
    let owner = api.drop_backend(owner);
    assert_eq!(
        api.calls,
        vec!["load_entry", "create_instance", "destroy_instance", "unload_entry"]
    );
    assert_eq!(owner.lifecycle(), Lifecycle::Destroyed);
}

#[test]
fn teardown_commands_name_the_handles() {
    let mut owner = VulkanRenderer::create("app", &unix(), true);
    owner.advance(GpuEvent::EntryLoaded);
    owner.advance(GpuEvent::LayersEnumerated(Ok(vec![VALIDATION.to_owned()])));
    owner.advance(GpuEvent::InstanceCreated(11));
    assert_eq!(owner.advance(GpuEvent::MessengerCreated(22)), GpuCommand::Idle);
    assert_eq!(owner.destroy(), GpuCommand::DestroyMessenger { instance: 11, messenger: 22 });
    assert_eq!(owner.lifecycle(), Lifecycle::DebugAttached);
    assert_eq!(owner.advance(GpuEvent::Released), GpuCommand::DestroyInstance { instance: 11 });
    assert_eq!(owner.lifecycle(), Lifecycle::InstanceCreated);
    assert_eq!(owner.advance(GpuEvent::Released), GpuCommand::UnloadEntry);
    assert_eq!(owner.lifecycle(), Lifecycle::EntryLoaded);
    assert_eq!(owner.advance(GpuEvent::Released), GpuCommand::Idle);
    assert_eq!(owner.lifecycle(), Lifecycle::Destroyed);
}

#[test]
fn commands_carry_the_configuration() {
    let mut owner = VulkanRenderer::create("Scribble", &DisplayHandle { platform: Platform::MacOs }, true);
    assert_eq!(owner.advance(GpuEvent::EntryLoaded), GpuCommand::EnumerateLayers);
    assert_eq!(owner.lifecycle(), Lifecycle::EntryLoaded);
    let command = owner.advance(GpuEvent::LayersEnumerated(Ok(vec![VALIDATION.to_owned()])));
    assert_eq!(
        command,
        GpuCommand::CreateInstance(init_create_info(init_app_info("Scribble"), Platform::MacOs, true))
    );
    assert_eq!(
        owner.advance(GpuEvent::InstanceCreated(5)),
        GpuCommand::CreateMessenger {
            instance: 5,
            info: MessengerInfo { message_severity: 0x1110, message_type: 0x7 }
        }
    );
}

#[test]
fn an_event_that_answers_nothing_is_ignored() {
    let mut owner = VulkanRenderer::create("app", &unix(), true);
    let before = owner.state();
    assert_eq!(owner.advance(GpuEvent::InstanceCreated(9)), GpuCommand::LoadEntry);
    assert_eq!(owner.advance(GpuEvent::Released), GpuCommand::LoadEntry);
    assert_eq!(owner.advance(GpuEvent::Shutdown), GpuCommand::LoadEntry);
    assert_eq!(owner.advance(GpuEvent::MessengerCreated(9)), GpuCommand::LoadEntry);
    assert_eq!(owner.state(), before);
    owner.advance(GpuEvent::EntryLoaded);
    assert_eq!(owner.advance(GpuEvent::EntryLoaded), GpuCommand::EnumerateLayers);
    assert_eq!(owner.advance(GpuEvent::InstanceFailed(1)), GpuCommand::EnumerateLayers);
}

#[test]
fn a_destroyed_owner_stays_destroyed() {
    let mut api = MockApi::healthy();
    let owner = api.construct(true).expect("construction succeeds");
    let mut owner = api.drop_backend(owner);
    let after = owner.state();
    for event in [
        GpuEvent::EntryLoaded,
        GpuEvent::InstanceCreated(3),
        GpuEvent::MessengerCreated(4),
        GpuEvent::Released,
        GpuEvent::Shutdown,
    ] {
        assert_eq!(owner.advance(event), GpuCommand::Idle);
        assert_eq!(owner.state(), after);
    }
}

#[test]
fn a_failure_on_record_stays() {
    let mut owner = VulkanRenderer::create("app", &unix(), true);
    owner.advance(GpuEvent::EntryLoaded);
    owner.advance(GpuEvent::LayersEnumerated(Ok(Vec::new())));
    let failure = owner.state().failure;
    assert_eq!(failure, Some(RendererError::EnumerateDevicesFailed(PlatformError::NoLayers)));
    owner.advance(GpuEvent::InstanceCreated(3));
    owner.advance(GpuEvent::Released);
    owner.advance(GpuEvent::EntryUnavailable);
    assert_eq!(owner.state().failure, failure);
    assert_eq!(owner.state().instance, None);
}

#[test]
fn render_is_safe_in_every_state() {
    let mut owner = VulkanRenderer::create("app", &unix(), false);
    owner.render();
    owner.advance(GpuEvent::EntryLoaded);
    owner.render();
    owner.advance(GpuEvent::InstanceCreated(1));
    let before = owner.state();
    for _ in 0..100 {
        owner.render();
    }
    assert_eq!(owner.state(), before);
    owner.destroy();
    owner.render();
}

#[test]
fn destroy_before_ready_changes_nothing() {
    let mut owner = VulkanRenderer::create("app", &unix(), false);
    assert_eq!(owner.destroy(), GpuCommand::LoadEntry);
    owner.advance(GpuEvent::EntryLoaded);
    let command = owner.destroy();
    assert!(matches!(command, GpuCommand::CreateInstance(_)));
    assert_eq!(owner.state().stage, Stage::CreatingInstance);
}
