use draco_decoder::module_cache::{next_module_state, ModuleAction, ModuleEvent, ModuleState};

#[test]
fn first_request_starts_instantiation() {
    assert_eq!(
        next_module_state(ModuleState::Unloaded, ModuleEvent::DecodeRequested),
        (ModuleState::Loading, ModuleAction::BeginInstantiation)
    );
}

#[test]
fn racing_request_waits_for_pending_instantiation() {
    assert_eq!(
        next_module_state(ModuleState::Loading, ModuleEvent::DecodeRequested),
        (ModuleState::Loading, ModuleAction::AwaitInstantiation)
    );
}

#[test]
fn successful_instantiation_is_cached() {
    assert_eq!(
        next_module_state(ModuleState::Loading, ModuleEvent::InstantiationSucceeded),
        (ModuleState::Loaded, ModuleAction::UseCachedModule)
    );
    assert_eq!(
        next_module_state(ModuleState::Loaded, ModuleEvent::DecodeRequested),
        (ModuleState::Loaded, ModuleAction::UseCachedModule)
    );
}

#[test]
fn failed_instantiation_is_not_cached() {
    assert_eq!(
        next_module_state(ModuleState::Loading, ModuleEvent::InstantiationFailed),
        (ModuleState::Unloaded, ModuleAction::ReportFailure)
    );
}

#[test]
fn stray_events_change_nothing() {
    assert_eq!(
        next_module_state(ModuleState::Unloaded, ModuleEvent::InstantiationSucceeded),
        (ModuleState::Unloaded, ModuleAction::Ignore)
    );
    assert_eq!(
        next_module_state(ModuleState::Loaded, ModuleEvent::InstantiationFailed),
        (ModuleState::Loaded, ModuleAction::Ignore)
    );
}

#[test]
fn many_requests_instantiate_once() {
    let events = [
        ModuleEvent::DecodeRequested,
        ModuleEvent::DecodeRequested,
        ModuleEvent::DecodeRequested,
        ModuleEvent::InstantiationSucceeded,
        ModuleEvent::DecodeRequested,
        ModuleEvent::InstantiationFailed,
        ModuleEvent::DecodeRequested,
    ];
    let mut state = ModuleState::Unloaded;
    let mut begun = 0;
    for e in events {
        let (next, action) = next_module_state(state, e);
        if action == ModuleAction::BeginInstantiation {
            begun += 1;
        }
        state = next;
    }
    assert_eq!(begun, 1);
    assert_eq!(state, ModuleState::Loaded);
}
