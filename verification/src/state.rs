use vstd::prelude::*;

verus! {

/// What the synchronization loop does after a completed cycle.
#[derive(Clone, Copy, Debug, PartialEq, Eq, Structural)]
pub enum LoopCtrl {
    Continue,
    Break,
}

/// What can happen to a `ClientState`.
pub enum StateEvent {
    SyncCycleCompleted,
    SyncCycleFailed,
    StopRequested,
}

/// The mutable record a client handle shares with its synchronization loop.
#[derive(Clone, Copy, Debug, PartialEq, Eq, Structural)]
pub struct ClientState {
    is_guest: bool,
    has_first_synced: bool,
    is_syncing: bool,
    should_stop_syncing: bool,
}

/// What a `ClientState` holds.
pub struct ClientStateView {
    pub is_guest: bool,
    pub has_first_synced: bool,
    pub is_syncing: bool,
    pub should_stop_syncing: bool,
}

impl View for ClientState {
    type V = ClientStateView;

    closed spec fn view(&self) -> ClientStateView {
        ClientStateView {
            is_guest: self.is_guest,
            has_first_synced: self.has_first_synced,
            is_syncing: self.is_syncing,
            should_stop_syncing: self.should_stop_syncing,
        }
    }
}

impl ClientStateView {
    /// The record after one completed synchronization cycle: the first sync is
    /// recorded, and the syncing flag follows the stop request.
    pub open spec fn after_sync_cycle(self) -> ClientStateView {
        ClientStateView {
            is_guest: self.is_guest,
            has_first_synced: true,
            is_syncing: !self.should_stop_syncing,
            should_stop_syncing: self.should_stop_syncing,
        }
    }

    /// The record after a synchronization round that failed: no first sync is
    /// recorded; the syncing flag is cleared if a stop was requested.
    pub open spec fn after_sync_failure(self) -> ClientStateView {
        ClientStateView { is_syncing: self.is_syncing && !self.should_stop_syncing, ..self }
    }

    /// The record after a stop request: only the request changes.
    pub open spec fn after_stop_request(self) -> ClientStateView {
        ClientStateView { should_stop_syncing: true, ..self }
    }

    /// The record after one event.
    pub open spec fn after_event(self, event: StateEvent) -> ClientStateView {
        match event {
            StateEvent::SyncCycleCompleted => self.after_sync_cycle(),
            StateEvent::SyncCycleFailed => self.after_sync_failure(),
            StateEvent::StopRequested => self.after_stop_request(),
        }
    }

    /// The record after a run of events, the first of them first.
    pub open spec fn after_events(self, events: Seq<StateEvent>) -> ClientStateView
        decreases events.len(),
    {
        if events.len() == 0 {
            self
        } else {
            self.after_event(events[0]).after_events(events.drop_first())
        }
    }

    /// What the loop is told after a cycle that started from this record.
    pub open spec fn loop_ctrl(self) -> LoopCtrl {
        if self.should_stop_syncing {
            LoopCtrl::Break
        } else {
            LoopCtrl::Continue
        }
    }

    /// Only the loop changes the syncing flag: a completed cycle sets it, a
    /// stop request leaves it alone, and it is cleared only at the end of a
    /// round that found a stop requested.
    pub proof fn lemma_syncing_follows_the_loop(self, event: StateEvent)
        ensures
            event is StopRequested ==> self.after_event(event).is_syncing == self.is_syncing,
            !self.is_syncing && self.after_event(event).is_syncing ==> event is SyncCycleCompleted
                && !self.should_stop_syncing,
            self.is_syncing && !self.after_event(event).is_syncing ==> !(event is StopRequested)
                && self.should_stop_syncing,
    {
    }

    /// A run of events in two parts is the second part run after the first.
    pub proof fn lemma_events_in_two_parts(self, first: Seq<StateEvent>, second: Seq<StateEvent>)
        ensures
            self.after_events(first + second) == self.after_events(first).after_events(second),
        decreases first.len(),
    {
        if first.len() == 0 {
            assert(first + second =~= second);
        } else {
            assert((first + second)[0] == first[0]);
            assert((first + second).drop_first() =~= first.drop_first() + second);
            self.after_event(first[0]).lemma_events_in_two_parts(first.drop_first(), second);
        }
    }

    /// No run of events takes a recorded first sync back, and none changes the
    /// guest flag.
    pub proof fn lemma_first_sync_stays(self, events: Seq<StateEvent>)
        ensures
            self.has_first_synced ==> self.after_events(events).has_first_synced,
            self.after_events(events).is_guest == self.is_guest,
        decreases events.len(),
    {
        if events.len() > 0 {
            self.after_event(events[0]).lemma_first_sync_stays(events.drop_first());
        }
    }

    /// Over the whole life of a record the first sync goes from unrecorded to
    /// recorded at most once: if it is recorded after some events, it is
    /// recorded after any longer run that begins with them.
    pub proof fn lemma_first_sync_is_monotonic(
        self,
        earlier: Seq<StateEvent>,
        later: Seq<StateEvent>,
    )
        ensures
            self.after_events(earlier).has_first_synced ==> self.after_events(
                earlier + later,
            ).has_first_synced,
    {
        self.lemma_events_in_two_parts(earlier, later);
        self.after_events(earlier).lemma_first_sync_stays(later);
    }
}

impl Default for ClientState {
    fn default() -> (s: ClientState)
        ensures
            s@ == (ClientStateView {
                is_guest: false,
                has_first_synced: false,
                is_syncing: false,
                should_stop_syncing: false,
            }),
    {
        ClientState {
            is_guest: false,
            has_first_synced: false,
            is_syncing: false,
            should_stop_syncing: false,
        }
    }
}

impl ClientState {
    /// Whether this is a guest account.
    pub fn is_guest(&self) -> (b: bool)
        ensures
            b == self@.is_guest,
    {
        self.is_guest
    }

    /// Whether a first synchronization cycle has completed.
    pub fn has_first_synced(&self) -> (b: bool)
        ensures
            b == self@.has_first_synced,
    {
        self.has_first_synced
    }

    /// Whether the synchronization loop is active.
    pub fn is_syncing(&self) -> (b: bool)
        ensures
            b == self@.is_syncing,
    {
        self.is_syncing
    }

    /// Whether the loop has been asked to stop.
    pub fn should_stop_syncing(&self) -> (b: bool)
        ensures
            b == self@.should_stop_syncing,
    {
        self.should_stop_syncing
    }

    /// Records one completed synchronization cycle and says whether the loop
    /// goes on: it breaks exactly when a stop was requested. A recorded first
    /// sync stays recorded.
    pub fn record_sync_cycle(&mut self) -> (ctrl: LoopCtrl)
        ensures
            final(self)@ == old(self)@.after_sync_cycle(),
            ctrl == old(self)@.loop_ctrl(),
            final(self)@.has_first_synced,
    {
        if !self.has_first_synced {
            self.has_first_synced = true;
        }
        if self.should_stop_syncing {
            self.is_syncing = false;
            return LoopCtrl::Break;
        } else if !self.is_syncing {
            self.is_syncing = true;
        }
        LoopCtrl::Continue
    }

    /// Records a synchronization round that failed and says whether the loop
    /// goes on: the round is tried again unless a stop was requested. The
    /// delegate is not told, and nothing is recorded as synced.
    pub fn record_sync_failure(&mut self) -> (ctrl: LoopCtrl)
        ensures
            final(self)@ == old(self)@.after_sync_failure(),
            ctrl == old(self)@.loop_ctrl(),
            final(self)@.has_first_synced == old(self)@.has_first_synced,
    {
        if self.should_stop_syncing {
            self.is_syncing = false;
            return LoopCtrl::Break;
        }
        LoopCtrl::Continue
    }

    /// Asks the synchronization loop to end after the cycle in progress.
    /// Nothing else changes.
    pub fn request_stop(&mut self)
        ensures
            final(self)@ == old(self)@.after_stop_request(),
    {
        self.should_stop_syncing = true;
    }
}

/// Builds a `ClientState` field by field; a field that was not set is `false`.
#[derive(Clone, Copy, Debug)]
pub struct ClientStateBuilder {
    is_guest: Option<bool>,
    has_first_synced: Option<bool>,
    is_syncing: Option<bool>,
    should_stop_syncing: Option<bool>,
}

pub open spec fn or_false(field: Option<bool>) -> bool {
    match field {
        Some(b) => b,
        None => false,
    }
}

impl ClientStateBuilder {
    /// The record that `build` returns.
    pub closed spec fn built(self) -> ClientStateView {
        ClientStateView {
            is_guest: or_false(self.is_guest),
            has_first_synced: or_false(self.has_first_synced),
            is_syncing: or_false(self.is_syncing),
            should_stop_syncing: or_false(self.should_stop_syncing),
        }
    }

    pub fn is_guest(self, value: bool) -> (b: ClientStateBuilder)
        ensures
            b.built() == (ClientStateView { is_guest: value, ..self.built() }),
    {
        ClientStateBuilder { is_guest: Some(value), ..self }
    }

    pub fn has_first_synced(self, value: bool) -> (b: ClientStateBuilder)
        ensures
            b.built() == (ClientStateView { has_first_synced: value, ..self.built() }),
    {
        ClientStateBuilder { has_first_synced: Some(value), ..self }
    }

    pub fn is_syncing(self, value: bool) -> (b: ClientStateBuilder)
        ensures
            b.built() == (ClientStateView { is_syncing: value, ..self.built() }),
    {
        ClientStateBuilder { is_syncing: Some(value), ..self }
    }

    pub fn should_stop_syncing(self, value: bool) -> (b: ClientStateBuilder)
        ensures
            b.built() == (ClientStateView { should_stop_syncing: value, ..self.built() }),
    {
        ClientStateBuilder { should_stop_syncing: Some(value), ..self }
    }

    pub fn build(self) -> (s: ClientState)
        ensures
            s@ == self.built(),
    {
        ClientState {
            is_guest: self.is_guest.unwrap_or(false),
            has_first_synced: self.has_first_synced.unwrap_or(false),
            is_syncing: self.is_syncing.unwrap_or(false),
            should_stop_syncing: self.should_stop_syncing.unwrap_or(false),
        }
    }
}

impl Default for ClientStateBuilder {
    fn default() -> (b: ClientStateBuilder)
        ensures
            b.built() == (ClientStateView {
                is_guest: false,
                has_first_synced: false,
                is_syncing: false,
                should_stop_syncing: false,
            }),
    {
        ClientStateBuilder {
            is_guest: None,
            has_first_synced: None,
            is_syncing: None,
            should_stop_syncing: None,
        }
    }
}

} // verus!
