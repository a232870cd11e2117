//! What the owner of the native handles and the code that makes the native
//! calls say to each other: the owner issues one command at a time, and is
//! told what became of it.

use super::config::{InstanceConfig, InstanceConfigView};
use super::debug::MessengerInfo;
use super::layers::listing_view;
use crate::render::{PlatformError, RendererError};
use vstd::prelude::*;

verus! {

/// The states of an owner's life, in the order it passes through them.
#[derive(Debug, Clone, Copy, PartialEq, Eq, Structural)]
pub enum Lifecycle {
    /// Nothing is loaded.
    Unloaded,
    /// The native library is loaded; no instance exists.
    EntryLoaded,
    /// An instance exists; no messenger is attached to it.
    InstanceCreated,
    /// An instance exists and a debug messenger is attached to it.
    DebugAttached,
    /// Everything was released, or nothing ever came to exist.
    Destroyed,
}

/// Where exactly an owner stands: its state of life together with the
/// command it is waiting on, if any.
#[derive(Debug, Clone, Copy, PartialEq, Eq, Structural)]
pub enum Stage {
    /// Waiting for the native library to be loaded.
    LoadingEntry,
    /// Waiting for the layer enumeration.
    Probing,
    /// Waiting for the native instance.
    CreatingInstance,
    /// Waiting for the debug messenger.
    AttachingDebug,
    /// Constructed; waiting on nothing.
    Ready,
    /// Waiting for the messenger to be destroyed.
    ReleasingMessenger,
    /// Waiting for the instance to be destroyed.
    ReleasingInstance,
    /// Waiting for the native library to be unloaded.
    ReleasingEntry,
    /// Over; waiting on nothing.
    Destroyed,
}

/// The part of an owner that changes: its stage, the handles it holds, and
/// the error that ended its construction, if one did.
#[derive(Debug, Clone, Copy, PartialEq, Eq)]
pub struct OwnerState {
    pub stage: Stage,
    pub instance: Option<u64>,
    pub messenger: Option<u64>,
    pub failure: Option<RendererError>,
}

/// What the owner asks to be done next.
#[derive(Debug, PartialEq, Eq)]
pub enum GpuCommand {
    /// Load the native GPU API library.
    LoadEntry,
    /// Enumerate the instance layers.
    EnumerateLayers,
    /// Create the native instance from this configuration.
    CreateInstance(InstanceConfig),
    /// Create a debug messenger on the instance.
    CreateMessenger { instance: u64, info: MessengerInfo },
    /// Destroy the messenger, which belongs to the instance.
    DestroyMessenger { instance: u64, messenger: u64 },
    /// Destroy the instance.
    DestroyInstance { instance: u64 },
    /// Let the native library unload.
    UnloadEntry,
    /// Nothing: the owner is ready, or over.
    Idle,
}

/// A command, as mathematics.
pub enum GpuCommandView {
    LoadEntry,
    EnumerateLayers,
    CreateInstance(InstanceConfigView),
    CreateMessenger { instance: u64, info: MessengerInfo },
    DestroyMessenger { instance: u64, messenger: u64 },
    DestroyInstance { instance: u64 },
    UnloadEntry,
    Idle,
}

impl View for GpuCommand {
    type V = GpuCommandView;

    open spec fn view(&self) -> GpuCommandView {
        match self {
            GpuCommand::LoadEntry => GpuCommandView::LoadEntry,
            GpuCommand::EnumerateLayers => GpuCommandView::EnumerateLayers,
            GpuCommand::CreateInstance(config) => GpuCommandView::CreateInstance(config@),
            GpuCommand::CreateMessenger { instance, info } => GpuCommandView::CreateMessenger {
                instance: *instance,
                info: *info,
            },
            GpuCommand::DestroyMessenger { instance, messenger } => GpuCommandView::DestroyMessenger {
                instance: *instance,
                messenger: *messenger,
            },
            GpuCommand::DestroyInstance { instance } => GpuCommandView::DestroyInstance {
                instance: *instance,
            },
            GpuCommand::UnloadEntry => GpuCommandView::UnloadEntry,
            GpuCommand::Idle => GpuCommandView::Idle,
        }
    }
}

/// What the owner is told: the outcome of the command it was waiting on, or
/// that it is to shut down.
#[derive(Debug, PartialEq, Eq)]
pub enum GpuEvent {
    /// The native library was loaded.
    EntryLoaded,
    /// The native library could not be located or loaded.
    EntryUnavailable,
    /// The layer enumeration ended, with these names or this error.
    LayersEnumerated(Result<Vec<String>, PlatformError>),
    /// The instance was created, with this handle.
    InstanceCreated(u64),
    /// Instance creation failed with this native result code.
    InstanceFailed(i32),
    /// The messenger was created, with this handle.
    MessengerCreated(u64),
    /// Messenger creation failed with this native result code.
    MessengerFailed(i32),
    /// A destroy or unload command was carried out.
    Released,
    /// The backend is being dropped.
    Shutdown,
}

/// An event, as mathematics.
pub enum GpuEventView {
    EntryLoaded,
    EntryUnavailable,
    LayersEnumerated(Result<Seq<Seq<char>>, PlatformError>),
    InstanceCreated(u64),
    InstanceFailed(i32),
    MessengerCreated(u64),
    MessengerFailed(i32),
    Released,
    Shutdown,
}

impl View for GpuEvent {
    type V = GpuEventView;

    open spec fn view(&self) -> GpuEventView {
        match self {
            GpuEvent::EntryLoaded => GpuEventView::EntryLoaded,
            GpuEvent::EntryUnavailable => GpuEventView::EntryUnavailable,
            GpuEvent::LayersEnumerated(listing) => GpuEventView::LayersEnumerated(
                listing_view(*listing),
            ),
            GpuEvent::InstanceCreated(handle) => GpuEventView::InstanceCreated(*handle),
            GpuEvent::InstanceFailed(code) => GpuEventView::InstanceFailed(*code),
            GpuEvent::MessengerCreated(handle) => GpuEventView::MessengerCreated(*handle),
            GpuEvent::MessengerFailed(code) => GpuEventView::MessengerFailed(*code),
            GpuEvent::Released => GpuEventView::Released,
            GpuEvent::Shutdown => GpuEventView::Shutdown,
        }
    }
}

} // verus!
