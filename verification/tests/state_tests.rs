use matrix_bridge::state::{ClientState, ClientStateBuilder, LoopCtrl};

#[test]
fn default_state_is_all_false() {
    let state = ClientState::default();
    assert!(!state.is_guest());
    assert!(!state.has_first_synced());
    assert!(!state.is_syncing());
    assert!(!state.should_stop_syncing());
}

#[test]
fn first_cycle_records_first_sync() {
    let mut state = ClientState::default();
    assert_eq!(state.record_sync_cycle(), LoopCtrl::Continue);
    assert!(state.has_first_synced());
    assert!(state.is_syncing());
}

#[test]
fn first_sync_never_reverts() {
    let mut state = ClientState::default();
    for _ in 0..5 {
        state.record_sync_cycle();
        assert!(state.has_first_synced());
    }
    state.request_stop();
    assert!(state.has_first_synced());
    assert_eq!(state.record_sync_cycle(), LoopCtrl::Break);
    assert!(state.has_first_synced());
}

#[test]
fn stop_request_breaks_the_loop_and_clears_syncing() {
    let mut state = ClientState::default();
    state.record_sync_cycle();
    assert!(state.is_syncing());
    state.request_stop();
    assert!(state.should_stop_syncing());
    assert!(state.is_syncing());
    assert_eq!(state.record_sync_cycle(), LoopCtrl::Break);
    assert!(!state.is_syncing());
    assert!(state.has_first_synced());
}

#[test]
fn stop_request_before_the_first_cycle_still_records_it() {
    let mut state = ClientStateBuilder::default().should_stop_syncing(true).build();
    assert_eq!(state.record_sync_cycle(), LoopCtrl::Break);
    assert!(state.has_first_synced());
    assert!(!state.is_syncing());
}

#[test]
fn cycles_leave_the_guest_flag_alone() {
    let mut state = ClientStateBuilder::default().is_guest(true).build();
    state.record_sync_cycle();
    state.request_stop();
    state.record_sync_cycle();
    assert!(state.is_guest());
}

#[test]
fn builder_defaults_to_false() {
    let state = ClientStateBuilder::default().build();
    assert_eq!(state, ClientState::default());
}

#[test]
fn builder_sets_each_field_alone() {
    let guest = ClientStateBuilder::default().is_guest(true).build();
    assert!(guest.is_guest() && !guest.has_first_synced() && !guest.is_syncing());
    assert!(!guest.should_stop_syncing());
    let synced = ClientStateBuilder::default().has_first_synced(true).build();
    assert!(!synced.is_guest() && synced.has_first_synced() && !synced.is_syncing());
    let syncing = ClientStateBuilder::default().is_syncing(true).build();
    assert!(!syncing.has_first_synced() && syncing.is_syncing());
    let stopping = ClientStateBuilder::default().should_stop_syncing(true).build();
    assert!(stopping.should_stop_syncing() && !stopping.is_syncing());
}

#[test]
fn builder_keeps_the_last_value_of_a_field() {
    let state = ClientStateBuilder::default().is_guest(true).is_guest(false).build();
    assert!(!state.is_guest());
}

#[test]
fn a_failed_round_records_nothing() {
    let mut state = ClientState::default();
    assert_eq!(state.record_sync_failure(), LoopCtrl::Continue);
    assert_eq!(state, ClientState::default());
    state.record_sync_cycle();
    assert_eq!(state.record_sync_failure(), LoopCtrl::Continue);
    assert!(state.has_first_synced() && state.is_syncing());
    state.request_stop();
    assert_eq!(state.record_sync_failure(), LoopCtrl::Break);
    assert!(state.has_first_synced() && !state.is_syncing());
}
