//! What holds of every course an owner's life can take, whatever the native
//! layer answers.

use super::config::spec_validation_layers;
use super::layers::spec_layers_supported;
use super::protocol::{GpuCommandView, GpuEventView, Lifecycle, OwnerState};
use super::{spec_initial, OwnerModel};
use crate::render::{Platform, PlatformError, RendererError};
use vstd::prelude::*;

verus! {

/// The owner after it was told `events`, one after the other.
pub open spec fn run(model: OwnerModel, events: Seq<GpuEventView>) -> OwnerModel
    decreases events.len(),
{
    if events.len() == 0 {
        model
    } else {
        run(model, events.drop_last()).step(events.last())
    }
}

/// No instance has been held so far, and none will be: construction is
/// either still on its way to one, or was given up before there was one.
pub open spec fn precedes_instance(state: OwnerState) -> bool {
    ||| state.stage is LoadingEntry
    ||| state.stage is Probing
    ||| state.stage is CreatingInstance
    ||| {
        &&& state.stage is ReleasingEntry || state.stage is Destroyed
        &&& state.failure matches Some(error)
        &&& error is InitializationFailed || error is EnumerateDevicesFailed
    }
}

/// An error that can only arise before instance creation is asked for: the
/// native library is missing, or the probe for layers did not pass.
pub open spec fn arises_before_creation(error: RendererError) -> bool {
    error is EnumerateDevicesFailed || error == RendererError::InitializationFailed(
        PlatformError::LoaderUnavailable,
    )
}

/// Instance creation has not been asked for so far, and will not be.
pub open spec fn precedes_creation(state: OwnerState) -> bool {
    ||| state.stage is LoadingEntry
    ||| state.stage is Probing
    ||| {
        &&& state.stage is ReleasingEntry || state.stage is Destroyed
        &&& state.failure matches Some(error)
        &&& arises_before_creation(error)
    }
}

/// Whether a command creates or destroys a native object.
pub open spec fn touches_handles(command: GpuCommandView) -> bool {
    command is CreateInstance || command is CreateMessenger || command is DestroyMessenger
        || command is DestroyInstance
}

/// Every course keeps the state one that an owner can be in.
pub proof fn lemma_run_keeps_wf(model: OwnerModel, events: Seq<GpuEventView>)
    requires
        model.wf(),
    ensures
        run(model, events).wf(),
    decreases events.len(),
{
    if events.len() > 0 {
        lemma_run_keeps_wf(model, events.drop_last());
    }
}

/// The owner after `k + 1` events is the owner after `k` events, told the
/// next one.
pub proof fn lemma_run_unfolds(model: OwnerModel, events: Seq<GpuEventView>, k: int)
    requires
        0 <= k < events.len(),
    ensures
        run(model, events.take(k + 1)) == run(model, events.take(k)).step(events[k]),
{
    assert(events.take(k + 1).drop_last() =~= events.take(k));
    assert(events.take(k + 1).last() == events[k]);
}

/// Once an instance has been held, or construction has ended well, the
/// owner never again looks as if none had been.
proof fn lemma_precedes_instance_backward(model: OwnerModel, events: Seq<GpuEventView>, k: int)
    requires
        model.wf(),
        0 <= k <= events.len(),
        precedes_instance(run(model, events).state),
    ensures
        precedes_instance(run(model, events.take(k)).state),
    decreases events.len() - k,
{
    if k == events.len() {
        assert(events.take(k) =~= events);
    } else {
        lemma_precedes_instance_backward(model, events, k + 1);
        lemma_run_unfolds(model, events, k);
        lemma_run_keeps_wf(model, events.take(k));
    }
}

/// Once instance creation has been asked for, the owner never again looks as
/// if it had not been.
proof fn lemma_precedes_creation_backward(model: OwnerModel, events: Seq<GpuEventView>, k: int)
    requires
        model.wf(),
        0 <= k <= events.len(),
        precedes_creation(run(model, events).state),
    ensures
        precedes_creation(run(model, events.take(k)).state),
    decreases events.len() - k,
{
    if k == events.len() {
        assert(events.take(k) =~= events);
    } else {
        lemma_precedes_creation_backward(model, events, k + 1);
        lemma_run_unfolds(model, events, k);
        lemma_run_keeps_wf(model, events.take(k));
    }
}

/// A construction that fails before an instance exists has, at no point of
/// its course, held an instance or a messenger, asked for a messenger, or
/// asked for anything to be destroyed. If the failure is one that arises
/// before instance creation is asked for, the course holds no command that
/// creates or destroys a native object at all.
pub proof fn law_early_failure_creates_nothing(
    name: Seq<char>,
    platform: Platform,
    validation: bool,
    events: Seq<GpuEventView>,
    k: int,
)
    requires
        0 <= k <= events.len(),
        run(spec_initial(name, platform, validation), events).state.failure matches Some(error)
            && (error is InitializationFailed || error is EnumerateDevicesFailed),
    ensures
        ({
            let start = spec_initial(name, platform, validation);
            let end = run(start, events);
            let at = run(start, events.take(k));
            &&& at.state.instance is None
            &&& at.state.messenger is None
            &&& !(at.pending() is CreateMessenger)
            &&& !(at.pending() is DestroyMessenger)
            &&& !(at.pending() is DestroyInstance)
            &&& arises_before_creation(end.state.failure->0) ==> !touches_handles(at.pending())
        }),
{
    let start = spec_initial(name, platform, validation);
    lemma_run_keeps_wf(start, events);
    lemma_run_keeps_wf(start, events.take(k));
    lemma_precedes_instance_backward(start, events, k);
    if arises_before_creation(run(start, events).state.failure->0) {
        lemma_precedes_creation_backward(start, events, k);
    }
}

/// Whenever the destruction of the instance is asked for after a messenger
/// was held, the destruction of that messenger was asked for in between:
/// the messenger goes before the instance it belongs to.
pub proof fn law_messenger_destroyed_before_instance(
    model: OwnerModel,
    events: Seq<GpuEventView>,
    k: int,
    j: int,
)
    requires
        model.wf(),
        0 <= k <= j <= events.len(),
        run(model, events.take(k)).state.messenger is Some,
        run(model, events.take(j)).pending() is DestroyInstance,
    ensures
        exists|i: int|
            k <= i < j && (#[trigger] run(model, events.take(i))).pending()
                == (GpuCommandView::DestroyMessenger {
                instance: run(model, events.take(k)).state.instance->0,
                messenger: run(model, events.take(k)).state.messenger->0,
            }),
    decreases j - k,
{
    let at = run(model, events.take(k));
    lemma_run_keeps_wf(model, events.take(k));
    if at.state.stage is ReleasingMessenger {
        assert(k < j);
    } else {
        assert(at.state.stage is Ready);
        assert(k < j);
        lemma_run_unfolds(model, events, k);
        law_messenger_destroyed_before_instance(model, events, k + 1, j);
    }
}

/// A handle leaves the owner only when the native layer confirms that the
/// object was destroyed, and the instance only after the messenger.
pub proof fn law_handles_leave_by_release(model: OwnerModel, event: GpuEventView)
    requires
        model.wf(),
    ensures
        model.state.messenger is Some && model.step(event).state.messenger is None ==> {
            &&& model.pending() is DestroyMessenger
            &&& event is Released
        },
        model.state.instance is Some && model.step(event).state.instance is None ==> {
            &&& model.pending() is DestroyInstance
            &&& event is Released
            &&& model.state.messenger is None
        },
        model.state.messenger is Some && model.step(event).state.messenger is Some
            ==> model.step(event).state.messenger == model.state.messenger,
        model.state.instance is Some && model.step(event).state.instance is Some
            ==> model.step(event).state.instance == model.state.instance,
{
}

/// The one policy for validation that is requested but not on offer:
/// construction is given up with an enumeration error, no instance is asked
/// for, and only the entry point is left to release.
pub proof fn law_unsupported_validation_aborts(model: OwnerModel, available: Seq<Seq<char>>)
    requires
        model.wf(),
        model.state.stage is Probing,
        !spec_layers_supported(available, spec_validation_layers(true)),
    ensures
        ({
            let next = model.step(GpuEventView::LayersEnumerated(Ok(available)));
            &&& next.state.failure matches Some(error)
            &&& error is EnumerateDevicesFailed
            &&& next.state.instance is None
            &&& next.pending() == GpuCommandView::UnloadEntry
        }),
{
}

/// With validation requested and every layer on offer, the instance is asked
/// for with exactly the requested layers.
pub proof fn law_supported_validation_enables_layers(model: OwnerModel, available: Seq<Seq<char>>)
    requires
        model.wf(),
        model.state.stage is Probing,
        spec_layers_supported(available, spec_validation_layers(true)),
    ensures
        ({
            let next = model.step(GpuEventView::LayersEnumerated(Ok(available)));
            &&& next.state.failure is None
            &&& next.pending() matches GpuCommandView::CreateInstance(config)
            &&& config.layers == spec_validation_layers(true)
            &&& config.layers.len() == 1
        }),
{
    assert(spec_validation_layers(true).len() == 1);
    assert(!spec_layers_supported(Seq::<Seq<char>>::empty(), spec_validation_layers(true))) by {
        assert(!Seq::<Seq<char>>::empty().contains(spec_validation_layers(true)[0]));
    }
}

/// An error on record stays on record, unchanged.
pub proof fn law_failure_is_final(model: OwnerModel, event: GpuEventView)
    requires
        model.wf(),
        model.state.failure is Some,
    ensures
        model.step(event).state.failure == model.state.failure,
{
}

/// A failed messenger does not leak the instance: the owner falls back to
/// the instance alone and asks for its destruction at once.
pub proof fn law_failed_debug_setup_releases_instance(model: OwnerModel, code: i32)
    requires
        model.wf(),
        model.state.stage is AttachingDebug,
    ensures
        ({
            let next = model.step(GpuEventView::MessengerFailed(code));
            &&& next.state.failure == Some(
                RendererError::DebugSetupFailed(PlatformError::Native(code)),
            )
            &&& next.state.messenger is None
            &&& next.lifecycle() == Lifecycle::InstanceCreated
            &&& next.pending() == (GpuCommandView::DestroyInstance {
                instance: model.state.instance->0,
            })
        }),
{
}

/// Teardown of a ready owner releases in the reverse order of construction:
/// the messenger if there is one, then the instance, then the entry point.
pub proof fn law_teardown_order(model: OwnerModel)
    requires
        model.wf(),
        model.state.stage is Ready,
    ensures
        ({
            let first = model.step(GpuEventView::Shutdown);
            let second = first.step(GpuEventView::Released);
            let third = second.step(GpuEventView::Released);
            let instance = model.state.instance->0;
            match model.state.messenger {
                Some(messenger) => {
                    &&& first.pending() == (GpuCommandView::DestroyMessenger {
                        instance,
                        messenger,
                    })
                    &&& second.pending() == (GpuCommandView::DestroyInstance { instance })
                    &&& third.pending() == GpuCommandView::UnloadEntry
                    &&& third.step(GpuEventView::Released).lifecycle() == Lifecycle::Destroyed
                },
                None => {
                    &&& first.pending() == (GpuCommandView::DestroyInstance { instance })
                    &&& second.pending() == GpuCommandView::UnloadEntry
                    &&& third.lifecycle() == Lifecycle::Destroyed
                },
            }
        }),
{
}

} // verus!
