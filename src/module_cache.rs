//! The load state of the sandboxed decoder module, which is instantiated
//! once per process and shared by every later decode. The driver performs
//! each action and reports what happened as the next event.

use vstd::prelude::*;

verus! {

/// Where the decoder module stands.
#[derive(Debug, Clone, Copy, PartialEq, Eq, Structural)]
pub enum ModuleState {
    Unloaded,
    Loading,
    Loaded,
}

/// What the driver observed.
#[derive(Debug, Clone, Copy, PartialEq, Eq, Structural)]
pub enum ModuleEvent {
    /// A decode needs the module.
    DecodeRequested,
    /// The pending instantiation produced a module.
    InstantiationSucceeded,
    /// The pending instantiation failed.
    InstantiationFailed,
}

/// What the driver must do next.
#[derive(Debug, Clone, Copy, PartialEq, Eq, Structural)]
pub enum ModuleAction {
    /// Materialize the embedded source and start instantiating it.
    BeginInstantiation,
    /// Wait for the instantiation already under way.
    AwaitInstantiation,
    /// Decode with the cached module.
    UseCachedModule,
    /// Fail the waiting decodes; a later request starts over.
    ReportFailure,
    /// The event does not apply in this state.
    Ignore,
}

/// The transition table.
pub open spec fn module_step(state: ModuleState, event: ModuleEvent) -> (ModuleState, ModuleAction) {
    match (state, event) {
        (ModuleState::Unloaded, ModuleEvent::DecodeRequested) => (
            ModuleState::Loading,
            ModuleAction::BeginInstantiation,
        ),
        (ModuleState::Loading, ModuleEvent::DecodeRequested) => (
            ModuleState::Loading,
            ModuleAction::AwaitInstantiation,
        ),
        (ModuleState::Loaded, ModuleEvent::DecodeRequested) => (
            ModuleState::Loaded,
            ModuleAction::UseCachedModule,
        ),
        (ModuleState::Loading, ModuleEvent::InstantiationSucceeded) => (
            ModuleState::Loaded,
            ModuleAction::UseCachedModule,
        ),
        (ModuleState::Loading, ModuleEvent::InstantiationFailed) => (
            ModuleState::Unloaded,
            ModuleAction::ReportFailure,
        ),
        (s, _) => (s, ModuleAction::Ignore),
    }
}

/// The state and action that follow `event` in `state`. Instantiation
/// starts only from `Unloaded`, so requests that arrive while it runs wait
/// for it; a loaded module stays loaded.
pub fn next_module_state(state: ModuleState, event: ModuleEvent) -> (r: (ModuleState, ModuleAction))
    ensures
        r == module_step(state, event),
        r.1 is BeginInstantiation <==> (state is Unloaded && event is DecodeRequested),
        state is Loaded ==> r.0 is Loaded,
{
    match (state, event) {
        (ModuleState::Unloaded, ModuleEvent::DecodeRequested) => (
            ModuleState::Loading,
            ModuleAction::BeginInstantiation,
        ),
        (ModuleState::Loading, ModuleEvent::DecodeRequested) => (
            ModuleState::Loading,
            ModuleAction::AwaitInstantiation,
        ),
        (ModuleState::Loaded, ModuleEvent::DecodeRequested) => (
            ModuleState::Loaded,
            ModuleAction::UseCachedModule,
        ),
        (ModuleState::Loading, ModuleEvent::InstantiationSucceeded) => (
            ModuleState::Loaded,
            ModuleAction::UseCachedModule,
        ),
        (ModuleState::Loading, ModuleEvent::InstantiationFailed) => (
            ModuleState::Unloaded,
            ModuleAction::ReportFailure,
        ),
        (s, _) => (s, ModuleAction::Ignore),
    }
}

/// The state after feeding `events` in order, starting from `state`.
pub open spec fn module_run(state: ModuleState, events: Seq<ModuleEvent>) -> ModuleState
    decreases events.len(),
{
    if events.len() == 0 {
        state
    } else {
        module_step(module_run(state, events.drop_last()), events.last()).0
    }
}

/// Once the module is loaded, no sequence of events unloads it or starts
/// a second instantiation.
pub proof fn lemma_loaded_is_final(events: Seq<ModuleEvent>)
    ensures
        module_run(ModuleState::Loaded, events) is Loaded,
        forall|i: int|
            0 <= i < events.len() ==> !(module_step(
                module_run(ModuleState::Loaded, events.take(i)),
                #[trigger] events[i],
            ).1 is BeginInstantiation),
    decreases events.len(),
{
    if events.len() > 0 {
        lemma_loaded_is_final(events.drop_last());
    }
    assert forall|i: int| 0 <= i < events.len() implies !(module_step(
        module_run(ModuleState::Loaded, events.take(i)),
        #[trigger] events[i],
    ).1 is BeginInstantiation) by {
        lemma_loaded_is_final(events.take(i));
    }
}

} // verus!
