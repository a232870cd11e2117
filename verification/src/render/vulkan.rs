//! The GPU-backed renderer: the owner of the native entry point, instance
//! and debug messenger. The owner makes no native call itself. It issues one
//! command at a time and is told the outcome; which command follows which
//! outcome, and that handles are released in the reverse order of their
//! creation, is what this module decides.
//!
//! Validation policy: when validation is requested and the layers turn out
//! not to be on offer, construction is abandoned with
//! `RendererError::EnumerateDevicesFailed`. It never goes on without them.

use crate::render::{DisplayHandle, Platform, PlatformError, RendererError};
use vstd::prelude::*;

pub mod config;
pub mod debug;
pub mod laws;
pub mod layers;
pub mod native;
pub mod protocol;

pub use config::required_extension_names;

use config::{
    init_app_info, init_create_info, spec_app_info, spec_create_info, spec_messenger_info,
    spec_validation_layers, validation_layers,
};
use debug::populate_debug_messenger_create_info;
use layers::{spec_validation_support, validation_support};
use protocol::{GpuCommand, GpuCommandView, GpuEvent, GpuEventView, Lifecycle, OwnerState, Stage};

verus! {

/// An owner, as mathematics: what it was created for, and its state.
pub struct OwnerModel {
    pub name: Seq<char>,
    pub platform: Platform,
    pub validation: bool,
    pub state: OwnerState,
}

/// A state in which construction has ended with `error` at `stage`, every
/// handle held so far being kept for release.
pub open spec fn failed(state: OwnerState, stage: Stage, error: RendererError) -> OwnerState {
    OwnerState { stage, failure: Some(error), ..state }
}

/// The state that follows `state` on `event`. An event that does not answer
/// what the owner is waiting on changes nothing.
pub open spec fn next_state(validation: bool, state: OwnerState, event: GpuEventView) -> OwnerState {
    match (state.stage, event) {
        (Stage::LoadingEntry, GpuEventView::EntryLoaded) => OwnerState {
            stage: if validation {
                Stage::Probing
            } else {
                Stage::CreatingInstance
            },
            ..state
        },
        (Stage::LoadingEntry, GpuEventView::EntryUnavailable) => failed(
            state,
            Stage::Destroyed,
            RendererError::InitializationFailed(PlatformError::LoaderUnavailable),
        ),
        (Stage::Probing, GpuEventView::LayersEnumerated(listing)) => match spec_validation_support(
            listing,
            spec_validation_layers(true),
        ) {
            Ok(true) => OwnerState { stage: Stage::CreatingInstance, ..state },
            Ok(false) => failed(
                state,
                Stage::ReleasingEntry,
                RendererError::EnumerateDevicesFailed(PlatformError::LayerUnavailable),
            ),
            Err(error) => failed(state, Stage::ReleasingEntry, error),
        },
        (Stage::CreatingInstance, GpuEventView::InstanceCreated(handle)) => if handle != 0 {
            OwnerState {
                stage: if validation {
                    Stage::AttachingDebug
                } else {
                    Stage::Ready
                },
                instance: Some(handle),
                ..state
            }
        } else {
            failed(
                state,
                Stage::ReleasingEntry,
                RendererError::InitializationFailed(PlatformError::NullHandle),
            )
        },
        (Stage::CreatingInstance, GpuEventView::InstanceFailed(code)) => failed(
            state,
            Stage::ReleasingEntry,
            RendererError::InitializationFailed(PlatformError::Native(code)),
        ),
        (Stage::AttachingDebug, GpuEventView::MessengerCreated(handle)) => if handle != 0 {
            OwnerState { stage: Stage::Ready, messenger: Some(handle), ..state }
        } else {
            failed(
                state,
                Stage::ReleasingInstance,
                RendererError::DebugSetupFailed(PlatformError::NullHandle),
            )
        },
        (Stage::AttachingDebug, GpuEventView::MessengerFailed(code)) => failed(
            state,
            Stage::ReleasingInstance,
            RendererError::DebugSetupFailed(PlatformError::Native(code)),
        ),
        (Stage::Ready, GpuEventView::Shutdown) => OwnerState {
            stage: if state.messenger.is_some() {
                Stage::ReleasingMessenger
            } else {
                Stage::ReleasingInstance
            },
            ..state
        },
        (Stage::ReleasingMessenger, GpuEventView::Released) => OwnerState {
            stage: Stage::ReleasingInstance,
            messenger: None,
            ..state
        },
        (Stage::ReleasingInstance, GpuEventView::Released) => OwnerState {
            stage: Stage::ReleasingEntry,
            instance: None,
            ..state
        },
        (Stage::ReleasingEntry, GpuEventView::Released) => OwnerState {
            stage: Stage::Destroyed,
            ..state
        },
        _ => state,
    }
}

/// What holds of every state an owner can be in. The messenger is a child of
/// the instance: it is held only while the instance is. Handles that are
/// held are not null. An error is on record only once construction has been
/// given up.
pub open spec fn state_wf(validation: bool, state: OwnerState) -> bool {
    &&& state.instance.is_some() <==> (state.stage is AttachingDebug || state.stage is Ready
        || state.stage is ReleasingMessenger || state.stage is ReleasingInstance)
    &&& state.messenger.is_some() <==> ((state.stage is Ready && validation) || state.stage
        is ReleasingMessenger)
    &&& state.instance != Some(0u64)
    &&& state.messenger != Some(0u64)
    &&& (state.stage is Probing || state.stage is AttachingDebug || state.stage
        is ReleasingMessenger) ==> validation
    &&& (state.stage is LoadingEntry || state.stage is Probing || state.stage is CreatingInstance
        || state.stage is AttachingDebug || state.stage is Ready || state.stage
        is ReleasingMessenger) ==> state.failure is None
    &&& state.stage is ReleasingInstance ==> (state.failure matches Some(error) ==> error
        is DebugSetupFailed)
}

impl OwnerModel {
    /// Whether this is a state an owner can be in.
    pub open spec fn wf(self) -> bool {
        state_wf(self.validation, self.state)
    }

    /// The owner after it was told `event`.
    pub open spec fn step(self, event: GpuEventView) -> OwnerModel {
        OwnerModel { state: next_state(self.validation, self.state, event), ..self }
    }

    /// The command the owner is waiting on. It is a function of the state:
    /// until an outcome is accepted, the same command stands.
    pub open spec fn pending(self) -> GpuCommandView {
        match self.state.stage {
            Stage::LoadingEntry => GpuCommandView::LoadEntry,
            Stage::Probing => GpuCommandView::EnumerateLayers,
            Stage::CreatingInstance => GpuCommandView::CreateInstance(
                spec_create_info(spec_app_info(self.name), self.platform, self.validation),
            ),
            Stage::AttachingDebug => GpuCommandView::CreateMessenger {
                instance: self.state.instance->0,
                info: spec_messenger_info(),
            },
            Stage::Ready => GpuCommandView::Idle,
            Stage::ReleasingMessenger => GpuCommandView::DestroyMessenger {
                instance: self.state.instance->0,
                messenger: self.state.messenger->0,
            },
            Stage::ReleasingInstance => GpuCommandView::DestroyInstance {
                instance: self.state.instance->0,
            },
            Stage::ReleasingEntry => GpuCommandView::UnloadEntry,
            Stage::Destroyed => GpuCommandView::Idle,
        }
    }

    /// The state of life that goes with the stage.
    pub open spec fn lifecycle(self) -> Lifecycle {
        match self.state.stage {
            Stage::LoadingEntry => Lifecycle::Unloaded,
            Stage::Probing | Stage::CreatingInstance | Stage::ReleasingEntry => Lifecycle::EntryLoaded,
            Stage::AttachingDebug | Stage::ReleasingInstance => Lifecycle::InstanceCreated,
            Stage::Ready => if self.state.messenger.is_some() {
                Lifecycle::DebugAttached
            } else {
                Lifecycle::InstanceCreated
            },
            Stage::ReleasingMessenger => Lifecycle::DebugAttached,
            Stage::Destroyed => Lifecycle::Destroyed,
        }
    }

    /// The layers the instance that is held was created with.
    pub open spec fn enabled_layers(self) -> Seq<Seq<char>> {
        if self.state.instance.is_some() {
            spec_validation_layers(self.validation)
        } else {
            Seq::<Seq<char>>::empty()
        }
    }
}

/// The owner as it is created: nothing loaded, nothing held, no error.
pub open spec fn spec_initial(name: Seq<char>, platform: Platform, validation: bool) -> OwnerModel {
    OwnerModel {
        name,
        platform,
        validation,
        state: OwnerState {
            stage: Stage::LoadingEntry,
            instance: None,
            messenger: None,
            failure: None,
        },
    }
}

/// The owner of a GPU API session: the entry point, the instance, and the
/// debug messenger where validation is on.
pub struct VulkanRenderer {
    name: String,
    platform: Platform,
    validation: bool,
    state: OwnerState,
}

impl View for VulkanRenderer {
    type V = OwnerModel;

    closed spec fn view(&self) -> OwnerModel {
        OwnerModel {
            name: self.name@,
            platform: self.platform,
            validation: self.validation,
            state: self.state,
        }
    }
}

/// A state in which construction has ended with `error` at `stage`.
fn fail(state: OwnerState, stage: Stage, error: RendererError) -> (next: OwnerState)
    ensures
        next == failed(state, stage, error),
{
    OwnerState { stage, instance: state.instance, messenger: state.messenger, failure: Some(error) }
}

/// Entry loaded or not: go on to probing, or straight to the instance where
/// no validation is wanted; give up if there is no native library.
fn entry_outcome(validation: bool, state: OwnerState, event: &GpuEvent) -> (next: OwnerState)
    requires
        state.stage is LoadingEntry,
    ensures
        next == next_state(validation, state, event@),
{
    match event {
        GpuEvent::EntryLoaded => OwnerState {
            stage: if validation {
                Stage::Probing
            } else {
                Stage::CreatingInstance
            },
            instance: state.instance,
            messenger: state.messenger,
            failure: state.failure,
        },
        GpuEvent::EntryUnavailable => fail(
            state,
            Stage::Destroyed,
            RendererError::InitializationFailed(PlatformError::LoaderUnavailable),
        ),
        _ => state,
    }
}

/// Layers enumerated: go on only if every requested layer is on offer.
fn probe_outcome(validation: bool, state: OwnerState, event: &GpuEvent) -> (next: OwnerState)
    requires
        state.stage is Probing,
    ensures
        next == next_state(validation, state, event@),
{
    match event {
        GpuEvent::LayersEnumerated(listing) => {
            let requested = validation_layers(true);
            match validation_support(listing, &requested) {
                Ok(true) => OwnerState {
                    stage: Stage::CreatingInstance,
                    instance: state.instance,
                    messenger: state.messenger,
                    failure: state.failure,
                },
                Ok(false) => fail(
                    state,
                    Stage::ReleasingEntry,
                    RendererError::EnumerateDevicesFailed(PlatformError::LayerUnavailable),
                ),
                Err(error) => fail(state, Stage::ReleasingEntry, error),
            }
        },
        _ => state,
    }
}

/// Instance created or not: keep the handle and go on to the messenger where
/// validation is on; give up, with only the entry point to release, if there
/// is no instance.
fn instance_outcome(validation: bool, state: OwnerState, event: &GpuEvent) -> (next: OwnerState)
    requires
        state.stage is CreatingInstance,
    ensures
        next == next_state(validation, state, event@),
{
    match event {
        GpuEvent::InstanceCreated(handle) => {
            if *handle != 0 {
                OwnerState {
                    stage: if validation {
                        Stage::AttachingDebug
                    } else {
                        Stage::Ready
                    },
                    instance: Some(*handle),
                    messenger: state.messenger,
                    failure: state.failure,
                }
            } else {
                fail(
                    state,
                    Stage::ReleasingEntry,
                    RendererError::InitializationFailed(PlatformError::NullHandle),
                )
            }
        },
        GpuEvent::InstanceFailed(code) => fail(
            state,
            Stage::ReleasingEntry,
            RendererError::InitializationFailed(PlatformError::Native(*code)),
        ),
        _ => state,
    }
}

/// Messenger created or not: keep the handle; or give up, falling back to
/// the instance without a messenger, which is then released.
fn setup_debug_utils(validation: bool, state: OwnerState, event: &GpuEvent) -> (next: OwnerState)
    requires
        state.stage is AttachingDebug,
    ensures
        next == next_state(validation, state, event@),
{
    match event {
        GpuEvent::MessengerCreated(handle) => {
            if *handle != 0 {
                OwnerState {
                    stage: Stage::Ready,
                    instance: state.instance,
                    messenger: Some(*handle),
                    failure: state.failure,
                }
            } else {
                fail(
                    state,
                    Stage::ReleasingInstance,
                    RendererError::DebugSetupFailed(PlatformError::NullHandle),
                )
            }
        },
        GpuEvent::MessengerFailed(code) => fail(
            state,
            Stage::ReleasingInstance,
            RendererError::DebugSetupFailed(PlatformError::Native(*code)),
        ),
        _ => state,
    }
}

/// Teardown: the messenger goes first, then the instance, then the entry
/// point; each only once the one before it is confirmed gone.
fn release_outcome(validation: bool, state: OwnerState, event: &GpuEvent) -> (next: OwnerState)
    requires
        state.stage is Ready || state.stage is ReleasingMessenger || state.stage
            is ReleasingInstance || state.stage is ReleasingEntry,
    ensures
        next == next_state(validation, state, event@),
{
    match (state.stage, event) {
        (Stage::Ready, GpuEvent::Shutdown) => OwnerState {
            stage: if state.messenger.is_some() {
                Stage::ReleasingMessenger
            } else {
                Stage::ReleasingInstance
            },
            instance: state.instance,
            messenger: state.messenger,
            failure: state.failure,
        },
        (Stage::ReleasingMessenger, GpuEvent::Released) => OwnerState {
            stage: Stage::ReleasingInstance,
            instance: state.instance,
            messenger: None,
            failure: state.failure,
        },
        (Stage::ReleasingInstance, GpuEvent::Released) => OwnerState {
            stage: Stage::ReleasingEntry,
            instance: None,
            messenger: state.messenger,
            failure: state.failure,
        },
        (Stage::ReleasingEntry, GpuEvent::Released) => OwnerState {
            stage: Stage::Destroyed,
            instance: state.instance,
            messenger: state.messenger,
            failure: state.failure,
        },
        _ => state,
    }
}

/// Every step keeps the state one that an owner can be in.
pub proof fn lemma_step_keeps_wf(model: OwnerModel, event: GpuEventView)
    requires
        model.wf(),
    ensures
        model.step(event).wf(),
{
}

impl VulkanRenderer {
    #[verifier::type_invariant]
    spec fn well_formed(self) -> bool {
        state_wf(self.validation, self.state)
    }

    /// Begins the construction of a backend for the application `name` on
    /// the display's platform. Nothing is loaded yet: the owner waits for the
    /// native library. `validation` says whether the validation layer and a
    /// debug messenger are wanted.
    pub fn create(name: &str, display_handle: &DisplayHandle, validation: bool) -> (owner: Self)
        ensures
            owner@ == spec_initial(name@, display_handle.platform, validation),
            owner@.wf(),
    {
        VulkanRenderer {
            name: name.to_owned(),
            platform: display_handle.platform,
            validation,
            state: OwnerState {
                stage: Stage::LoadingEntry,
                instance: None,
                messenger: None,
                failure: None,
            },
        }
    }

    /// The command the owner is waiting on.
    pub fn pending(&self) -> (command: GpuCommand)
        ensures
            command@ == self@.pending(),
            self@.wf(),
    {
        proof {
            use_type_invariant(self);
        }
        match self.state.stage {
            Stage::LoadingEntry => GpuCommand::LoadEntry,
            Stage::Probing => GpuCommand::EnumerateLayers,
            Stage::CreatingInstance => {
                let app_info = init_app_info(self.name.as_str());
                GpuCommand::CreateInstance(
                    init_create_info(app_info, self.platform, self.validation),
                )
            },
            Stage::AttachingDebug => GpuCommand::CreateMessenger {
                instance: self.state.instance.unwrap(),
                info: populate_debug_messenger_create_info(),
            },
            Stage::Ready => GpuCommand::Idle,
            Stage::ReleasingMessenger => GpuCommand::DestroyMessenger {
                instance: self.state.instance.unwrap(),
                messenger: self.state.messenger.unwrap(),
            },
            Stage::ReleasingInstance => GpuCommand::DestroyInstance {
                instance: self.state.instance.unwrap(),
            },
            Stage::ReleasingEntry => GpuCommand::UnloadEntry,
            Stage::Destroyed => GpuCommand::Idle,
        }
    }

    /// Tells the owner what happened and gives the command that follows. An
    /// event that does not answer the pending command is ignored, and the
    /// pending command stands.
    pub fn advance(&mut self, event: GpuEvent) -> (command: GpuCommand)
        ensures
            final(self)@ == old(self)@.step(event@),
            command@ == final(self)@.pending(),
            final(self)@.wf(),
    {
        proof {
            use_type_invariant(&*self);
            lemma_step_keeps_wf(self@, event@);
        }
        let state = self.state;
        let next = match state.stage {
            Stage::LoadingEntry => entry_outcome(self.validation, state, &event),
            Stage::Probing => probe_outcome(self.validation, state, &event),
            Stage::CreatingInstance => instance_outcome(self.validation, state, &event),
            Stage::AttachingDebug => setup_debug_utils(self.validation, state, &event),
            Stage::Ready | Stage::ReleasingMessenger | Stage::ReleasingInstance
            | Stage::ReleasingEntry => release_outcome(self.validation, state, &event),
            Stage::Destroyed => state,
        };
        self.state = next;
        self.pending()
    }

    /// Begins teardown, as dropping the backend does. It has an effect on a
    /// ready owner only; an owner whose construction failed releases what it
    /// holds without being asked.
    pub fn destroy(&mut self) -> (command: GpuCommand)
        ensures
            final(self)@ == old(self)@.step(GpuEventView::Shutdown),
            command@ == final(self)@.pending(),
            final(self)@.wf(),
    {
        self.advance(GpuEvent::Shutdown)
    }

    /// Executes one rendering pass. There is no pipeline yet, so nothing is
    /// done, in any state.
    pub fn render(&self) {
    }

    /// The stage, the handles held and the failure on record.
    pub fn state(&self) -> (state: OwnerState)
        ensures
            state == self@.state,
            self@.wf(),
    {
        proof {
            use_type_invariant(self);
        }
        self.state
    }

    /// The state of life the owner is in.
    pub fn lifecycle(&self) -> (lifecycle: Lifecycle)
        ensures
            lifecycle == self@.lifecycle(),
    {
        match self.state.stage {
            Stage::LoadingEntry => Lifecycle::Unloaded,
            Stage::Probing | Stage::CreatingInstance | Stage::ReleasingEntry => Lifecycle::EntryLoaded,
            Stage::AttachingDebug | Stage::ReleasingInstance => Lifecycle::InstanceCreated,
            Stage::Ready => if self.state.messenger.is_some() {
                Lifecycle::DebugAttached
            } else {
                Lifecycle::InstanceCreated
            },
            Stage::ReleasingMessenger => Lifecycle::DebugAttached,
            Stage::Destroyed => Lifecycle::Destroyed,
        }
    }

    /// How construction stands: `None` while it is under way, `Some(Ok(()))`
    /// once the owner is or has been ready, `Some(Err(..))` once it failed.
    pub fn outcome(&self) -> (outcome: Option<Result<(), RendererError>>)
        ensures
            outcome == spec_outcome(self@.state),
    {
        match self.state.failure {
            Some(error) => Some(Err(error)),
            None => match self.state.stage {
                Stage::LoadingEntry | Stage::Probing | Stage::CreatingInstance
                | Stage::AttachingDebug => None,
                _ => Some(Ok(())),
            },
        }
    }

    /// The number of layers the instance that is held was created with.
    pub fn enabled_layer_count(&self) -> (count: usize)
        ensures
            count == self@.enabled_layers().len(),
    {
        if self.state.instance.is_some() && self.validation {
            1
        } else {
            0
        }
    }
}

/// How construction stands in a state.
pub open spec fn spec_outcome(state: OwnerState) -> Option<Result<(), RendererError>> {
    match state.failure {
        Some(error) => Some(Err(error)),
        None => if state.stage is LoadingEntry || state.stage is Probing || state.stage
            is CreatingInstance || state.stage is AttachingDebug {
            None
        } else {
            Some(Ok(()))
        },
    }
}

} // verus!
