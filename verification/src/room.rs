use crate::error::ClientError;
use std::sync::Arc;
use vstd::prelude::*;
use vstd::string::StringExecFns;

verus! {

/// A message as the delegate sees it.
#[derive(Debug, PartialEq, Eq)]
pub struct Message {
    pub sender: String,
    pub content: String,
}

/// What a `Message` holds.
pub struct MessageView {
    pub sender: Seq<char>,
    pub content: Seq<char>,
}

impl View for Message {
    type V = MessageView;

    open spec fn view(&self) -> MessageView {
        MessageView { sender: self.sender@, content: self.content@ }
    }
}

impl Clone for Message {
    fn clone(&self) -> (copy: Message)
        ensures
            copy@ == self@,
    {
        Message { sender: self.sender.clone(), content: self.content.clone() }
    }
}

impl MessageView {
    /// The message on one line: the sender, a colon and a space, the content.
    pub open spec fn rendered(self) -> Seq<char> {
        self.sender + ": "@ + self.content
    }
}

impl Message {
    /// The message on one line.
    pub fn render(&self) -> (line: String)
        ensures
            line@ == self@.rendered(),
    {
        self.sender.clone().concat(": ").concat(self.content.as_str())
    }
}

/// One item of a room's timeline, as far as the bridge tells items apart: a
/// room message, an event of another kind, or an item that could not be
/// decoded.
#[derive(Debug, PartialEq, Eq)]
pub enum TimelineEvent {
    RoomMessage(Message),
    Other,
    Undecodable,
}

/// What a `TimelineEvent` holds.
pub enum TimelineEventView {
    RoomMessage(MessageView),
    Other,
    Undecodable,
}

impl View for TimelineEvent {
    type V = TimelineEventView;

    open spec fn view(&self) -> TimelineEventView {
        match self {
            TimelineEvent::RoomMessage(message) => TimelineEventView::RoomMessage(message@),
            TimelineEvent::Other => TimelineEventView::Other,
            TimelineEvent::Undecodable => TimelineEventView::Undecodable,
        }
    }
}

/// The events of a timeline as models, in order.
pub open spec fn events_model(events: Seq<TimelineEvent>) -> Seq<TimelineEventView> {
    Seq::new(events.len(), |i: int| events[i]@)
}

/// The room messages among the events, in the order of the events.
pub open spec fn messages_of(events: Seq<TimelineEventView>) -> Seq<MessageView>
    decreases events.len(),
{
    if events.len() == 0 {
        Seq::empty()
    } else {
        let before = messages_of(events.drop_last());
        match events.last() {
            TimelineEventView::RoomMessage(message) => before.push(message),
            _ => before,
        }
    }
}

/// The messages, each on one line.
pub open spec fn rendered_lines(messages: Seq<MessageView>) -> Seq<Seq<char>> {
    Seq::new(messages.len(), |i: int| messages[i].rendered())
}

/// The lines of a vector of strings.
pub open spec fn lines_model(lines: Seq<String>) -> Seq<Seq<char>> {
    Seq::new(lines.len(), |i: int| lines[i]@)
}

/// Told once for each decoded live message, in the order of arrival.
pub trait RoomDelegate: Sync + Send {
    fn did_receive_message(&self, message: Arc<Message>);
}

/// What a call of `start_live_event_listener` did.
#[derive(Clone, Copy, Debug, PartialEq, Eq, Structural)]
pub enum ListenerStart {
    /// The room was not listening and now is: the caller starts one
    /// forwarding task, which works under this number.
    Started(u64),
    /// The room was listening already: nothing changed, and no task is to be
    /// started.
    AlreadyListening,
    /// The room was not listening and has no number left to give: nothing
    /// changed, and no task is to be started.
    Exhausted,
}

/// What the forwarding task is to do with one item of the live stream.
#[derive(Debug, PartialEq, Eq)]
pub enum ListenerStep {
    /// The room no longer listens for the task: the item is dropped and the
    /// task ends.
    Stop,
    /// Nothing is delivered: the item is no room message, or no delegate is
    /// registered.
    Skip,
    /// This message goes to the delegate.
    Deliver(Message),
}

/// What a `ListenerStep` holds.
pub enum ListenerStepView {
    Stop,
    Skip,
    Deliver(MessageView),
}

impl View for ListenerStep {
    type V = ListenerStepView;

    open spec fn view(&self) -> ListenerStepView {
        match self {
            ListenerStep::Stop => ListenerStepView::Stop,
            ListenerStep::Skip => ListenerStepView::Skip,
            ListenerStep::Deliver(message) => ListenerStepView::Deliver(message@),
        }
    }
}

/// What the forwarding task does with one item: it asks first whether the
/// room still listens for it and ends without touching the item if not; else
/// a room message goes to the delegate, if there is one, and everything else
/// is skipped.
pub open spec fn listener_step(
    admitted: bool,
    has_delegate: bool,
    event: TimelineEventView,
) -> ListenerStepView {
    if !admitted {
        ListenerStepView::Stop
    } else if has_delegate && event is RoomMessage {
        ListenerStepView::Deliver(event->RoomMessage_0)
    } else {
        ListenerStepView::Skip
    }
}

/// The latch that keeps a room to one live listener at a time: whether the
/// room listens, and the number of the listener that was started last.
pub struct Latch {
    pub listening: bool,
    pub listener: u64,
}

impl Latch {
    /// Whether the room listens for the task that works under `task`. It
    /// never does for two tasks at once.
    pub open spec fn admits(self, task: u64) -> bool {
        self.listening && self.listener == task
    }

    /// Whether the task under `task` has been turned off for good: its number
    /// was given out, and the room does not listen for it.
    pub open spec fn retired(self, task: u64) -> bool {
        task <= self.listener && !self.admits(task)
    }

    /// What a start does at this latch.
    pub open spec fn start_outcome(self) -> ListenerStart {
        if self.listening {
            ListenerStart::AlreadyListening
        } else if self.listener == u64::MAX {
            ListenerStart::Exhausted
        } else {
            ListenerStart::Started((self.listener + 1) as u64)
        }
    }

    /// The latch after a start: a start that succeeds opens it under the next
    /// number; any other leaves it as it is.
    pub open spec fn after_start(self) -> Latch {
        match self.start_outcome() {
            ListenerStart::Started(number) => Latch { listening: true, listener: number },
            _ => self,
        }
    }

    /// The latch after a stop: closed, the number kept.
    pub open spec fn after_stop(self) -> Latch {
        Latch { listening: false, listener: self.listener }
    }

    /// The latch after one call.
    pub open spec fn after_op(self, op: ListenerOp) -> Latch {
        match op {
            ListenerOp::Start => self.after_start(),
            ListenerOp::Stop => self.after_stop(),
        }
    }

    /// The latch after a run of calls, the first of them first.
    pub open spec fn after_ops(self, ops: Seq<ListenerOp>) -> Latch
        decreases ops.len(),
    {
        if ops.len() == 0 {
            self
        } else {
            self.after_op(ops[0]).after_ops(ops.drop_first())
        }
    }

    /// How many forwarding tasks a run of calls starts: one for each start
    /// that is answered `Started`.
    pub open spec fn listeners_started(self, ops: Seq<ListenerOp>) -> nat
        decreases ops.len(),
    {
        if ops.len() == 0 {
            0
        } else {
            let rest = self.after_op(ops[0]).listeners_started(ops.drop_first());
            if ops[0] is Start && self.start_outcome() is Started {
                rest + 1
            } else {
                rest
            }
        }
    }
}

/// A call that turns the live listener of a room on or off.
pub enum ListenerOp {
    Start,
    Stop,
}

/// The message for a room without an avatar.
pub open spec fn no_avatar() -> Seq<char> {
    "No avatar"@
}

/// What a room says of itself.
#[derive(Debug)]
pub struct RoomInfo {
    pub room_id: String,
    pub name: Option<String>,
    pub topic: Option<String>,
    pub avatar_url: Option<String>,
    pub is_direct: bool,
    pub is_public: bool,
    pub is_encrypted: bool,
    pub is_space: bool,
}

/// The text that an optional string holds.
pub open spec fn text_of(field: Option<String>) -> Option<Seq<char>> {
    match field {
        Some(text) => Some(text@),
        None => None,
    }
}

fn copy_of(field: &Option<String>) -> (copy: Option<String>)
    ensures
        text_of(copy) == text_of(*field),
{
    match field {
        Some(text) => Some(text.clone()),
        None => None,
    }
}

/// One room: what it says of itself, the delegate for its live messages, and
/// the latch that keeps it to one live listener at a time.
pub struct Room {
    info: RoomInfo,
    delegate: Option<Box<dyn RoomDelegate>>,
    is_listening_to_live_events: bool,
    listener: u64,
}

impl Room {
    /// What the room says of itself.
    pub closed spec fn info(&self) -> RoomInfo {
        self.info
    }

    /// Whether the room forwards live events.
    pub closed spec fn listening(&self) -> bool {
        self.is_listening_to_live_events
    }

    /// The number of the listener that was started last; 0 before the first.
    pub closed spec fn listener(&self) -> u64 {
        self.listener
    }

    /// The room's latch.
    pub open spec fn latch(&self) -> Latch {
        Latch { listening: self.listening(), listener: self.listener() }
    }

    /// The delegate that is registered, if there is one.
    pub closed spec fn delegate(&self) -> Option<Box<dyn RoomDelegate>> {
        self.delegate
    }

    /// Whether a delegate is registered.
    pub open spec fn has_delegate(&self) -> bool {
        self.delegate() is Some
    }

    /// A room that does not listen, has started no listener and has no
    /// delegate.
    pub fn new(info: RoomInfo) -> (room: Room)
        ensures
            room.info() == info,
            room.latch() == (Latch { listening: false, listener: 0 }),
            room.delegate() is None,
    {
        Room { info, delegate: None, is_listening_to_live_events: false, listener: 0 }
    }

    /// Replaces the delegate as a whole; the one before it is dropped.
    pub fn set_delegate(&mut self, delegate: Option<Box<dyn RoomDelegate>>)
        ensures
            final(self).delegate() == delegate,
            final(self).latch() == old(self).latch(),
            final(self).info() == old(self).info(),
    {
        self.delegate = delegate;
    }

    /// The delegate to which a `Deliver` step goes.
    pub fn current_delegate(&self) -> (found: Option<&Box<dyn RoomDelegate>>)
        ensures
            match found {
                Some(delegate) => self.delegate() == Some(*delegate),
                None => self.delegate() is None,
            },
    {
        self.delegate.as_ref()
    }

    /// Replaces what the room says of itself as a whole.
    pub fn set_info(&mut self, info: RoomInfo)
        ensures
            final(self).info() == info,
            final(self).delegate() == old(self).delegate(),
            final(self).latch() == old(self).latch(),
    {
        self.info = info;
    }

    /// The room's identifier.
    pub fn id(&self) -> (id: String)
        ensures
            id@ == self.info().room_id@,
    {
        self.info.room_id.clone()
    }

    /// The room's identifier.
    pub fn identifier(&self) -> (id: String)
        ensures
            id@ == self.info().room_id@,
    {
        self.id()
    }

    pub fn name(&self) -> (name: Option<String>)
        ensures
            text_of(name) == text_of(self.info().name),
    {
        copy_of(&self.info.name)
    }

    pub fn topic(&self) -> (topic: Option<String>)
        ensures
            text_of(topic) == text_of(self.info().topic),
    {
        copy_of(&self.info.topic)
    }

    pub fn avatar_url(&self) -> (url: Option<String>)
        ensures
            text_of(url) == text_of(self.info().avatar_url),
    {
        copy_of(&self.info.avatar_url)
    }

    pub fn is_direct(&self) -> (b: bool)
        ensures
            b == self.info().is_direct,
    {
        self.info.is_direct
    }

    pub fn is_public(&self) -> (b: bool)
        ensures
            b == self.info().is_public,
    {
        self.info.is_public
    }

    pub fn is_encrypted(&self) -> (b: bool)
        ensures
            b == self.info().is_encrypted,
    {
        self.info.is_encrypted
    }

    pub fn is_space(&self) -> (b: bool)
        ensures
            b == self.info().is_space,
    {
        self.info.is_space
    }

    /// The avatar that was fetched for a room; a room without one is a
    /// failure.
    pub fn avatar(found: Option<Vec<u8>>) -> (r: Result<Vec<u8>, ClientError>)
        ensures
            match found {
                Some(bytes) => r matches Ok(payload) && payload@ == bytes@,
                None => r matches Err(e) && e.msg_view() == no_avatar(),
            },
    {
        match found {
            Some(bytes) => Ok(bytes),
            None => Err(ClientError::generic("No avatar")),
        }
    }

    /// Whether the room forwards live events.
    pub fn is_listening_to_live_events(&self) -> (b: bool)
        ensures
            b == self.listening(),
    {
        self.is_listening_to_live_events
    }

    /// Turns the live listener on and gives it a number of its own. A room
    /// that listens already is left as it is, and the caller is told so:
    /// there is never a second listener. Every task that was started before
    /// works under another number and is admitted no more.
    pub fn start_live_event_listener(&mut self) -> (outcome: ListenerStart)
        ensures
            outcome == old(self).latch().start_outcome(),
            final(self).latch() == old(self).latch().after_start(),
            final(self).delegate() == old(self).delegate(),
            final(self).info() == old(self).info(),
    {
        if self.is_listening_to_live_events {
            return ListenerStart::AlreadyListening;
        }
        if self.listener == u64::MAX {
            return ListenerStart::Exhausted;
        }
        self.listener = self.listener + 1;
        self.is_listening_to_live_events = true;
        ListenerStart::Started(self.listener)
    }

    /// Turns the live listener off. The forwarding task sees it at its next
    /// item, and no later start admits it again.
    pub fn stop_live_event_listener(&mut self)
        ensures
            final(self).latch() == old(self).latch().after_stop(),
            final(self).delegate() == old(self).delegate(),
            final(self).info() == old(self).info(),
    {
        self.is_listening_to_live_events = false;
    }

    /// One turn of the forwarding task that works under `listener`, for the
    /// item that has just arrived. The room changes nothing and calls nobody:
    /// the caller hands a `Deliver` to `current_delegate`.
    pub fn on_live_event(&self, listener: u64, event: TimelineEvent) -> (step: ListenerStep)
        ensures
            step@ == listener_step(self.latch().admits(listener), self.has_delegate(), event@),
    {
        if !self.is_listening_to_live_events || self.listener != listener {
            return ListenerStep::Stop;
        }
        if self.delegate.is_none() {
            return ListenerStep::Skip;
        }
        match event {
            TimelineEvent::RoomMessage(message) => ListenerStep::Deliver(message),
            _ => ListenerStep::Skip,
        }
    }


    /// The room messages of a fetched chunk of the timeline, each on one
    /// line, in the order of the chunk. Other events and undecodable items
    /// are left out.
    pub fn messages(chunk: &Vec<TimelineEvent>) -> (lines: Vec<String>)
        ensures
            lines_model(lines@) == rendered_lines(messages_of(events_model(chunk@))),
    {
        let mut lines: Vec<String> = Vec::new();
        let mut i: usize = 0;
        while i < chunk.len()
            invariant
                0 <= i <= chunk.len(),
                lines_model(lines@) == rendered_lines(
                    messages_of(events_model(chunk@).take(i as int)),
                ),
            decreases chunk.len() - i,
        {
            let ghost before = events_model(chunk@).take(i as int);
            let ghost now = events_model(chunk@).take(i + 1);
            proof {
                assert(now.drop_last() =~= before);
                assert(now.last() == chunk@[i as int]@);
            }
            match &chunk[i] {
                TimelineEvent::RoomMessage(message) => {
                    let ghost earlier = lines@;
                    lines.push(message.render());
                    proof {
                        let found = messages_of(before);
                        assert(messages_of(now) == found.push(message@));
                        assert(lines_model(earlier).len() == found.len());
                        assert forall|k: int| 0 <= k < found.len() implies lines_model(lines@)[k]
                            == rendered_lines(messages_of(now))[k] by {
                            assert(lines_model(earlier)[k] == rendered_lines(found)[k]);
                        }
                        assert(lines_model(lines@) =~= rendered_lines(messages_of(now)));
                    }
                },
                _ => {
                    proof {
                        assert(messages_of(now) == messages_of(before));
                    }
                },
            }
            i = i + 1;
        }
        proof {
            assert(events_model(chunk@).take(chunk@.len() as int) =~= events_model(chunk@));
        }
        lines
    }
}

/// Starts with no stop between them start at most one forwarding task,
/// however many the calls: exactly one where the room was not listening and
/// had a number left, and then the room listens under the next number.
pub proof fn lemma_starts_without_stop(latch: Latch, ops: Seq<ListenerOp>)
    requires
        forall|i: int| 0 <= i < ops.len() ==> ops[i] is Start,
    ensures
        latch.listeners_started(ops) <= 1,
        latch.listeners_started(ops) == 1 <==> ops.len() > 0 && latch.start_outcome() is Started,
        ops.len() > 0 ==> latch.after_ops(ops) == latch.after_start(),
    decreases ops.len(),
{
    if ops.len() > 0 {
        lemma_starts_without_stop(latch.after_start(), ops.drop_first());
        assert(latch.after_start().after_start() == latch.after_start());
        assert(latch.after_ops(ops) == latch.after_start().after_ops(ops.drop_first()));
    }
}

/// A run of calls in two parts is the second part run after the first.
pub proof fn lemma_ops_in_two_parts(latch: Latch, first: Seq<ListenerOp>, second: Seq<ListenerOp>)
    ensures
        latch.after_ops(first + second) == latch.after_ops(first).after_ops(second),
        latch.listeners_started(first + second) == latch.listeners_started(first) + latch.after_ops(
            first,
        ).listeners_started(second),
    decreases first.len(),
{
    if first.len() == 0 {
        assert(first + second =~= second);
    } else {
        assert((first + second)[0] == first[0]);
        assert((first + second).drop_first() =~= first.drop_first() + second);
        lemma_ops_in_two_parts(latch.after_op(first[0]), first.drop_first(), second);
    }
}

/// The numbers that a room gives out only grow, and a task that was turned
/// off for good stays so, whatever is called later.
pub proof fn lemma_retired_stays_retired(latch: Latch, task: u64, ops: Seq<ListenerOp>)
    ensures
        latch.listener <= latch.after_ops(ops).listener,
        latch.retired(task) ==> latch.after_ops(ops).retired(task),
    decreases ops.len(),
{
    if ops.len() > 0 {
        lemma_retired_stays_retired(latch.after_op(ops[0]), task, ops.drop_first());
    }
}

/// After a stop the next start succeeds, whatever came before, as long as
/// the room has a number left: one new forwarding task is started under a
/// number that no task had before, the room listens for it, and for no task
/// that was started earlier.
pub proof fn lemma_stop_then_start(latch: Latch, before: Seq<ListenerOp>, earlier: u64)
    requires
        latch.after_ops(before).listener < u64::MAX,
        earlier <= latch.after_ops(before).listener,
    ensures
        !latch.after_ops(before + seq![ListenerOp::Stop]).listening,
        latch.after_ops(before + seq![ListenerOp::Stop]).start_outcome() == ListenerStart::Started(
            (latch.after_ops(before).listener + 1) as u64,
        ),
        latch.listeners_started(before + seq![ListenerOp::Stop, ListenerOp::Start])
            == latch.listeners_started(before) + 1,
        latch.after_ops(before + seq![ListenerOp::Stop, ListenerOp::Start]).admits(
            (latch.after_ops(before).listener + 1) as u64,
        ),
        latch.after_ops(before + seq![ListenerOp::Stop, ListenerOp::Start]).retired(earlier),
{
    let stop = seq![ListenerOp::Stop];
    let both = seq![ListenerOp::Stop, ListenerOp::Start];
    let start = seq![ListenerOp::Start];
    let reached = latch.after_ops(before);
    lemma_ops_in_two_parts(latch, before, stop);
    lemma_ops_in_two_parts(latch, before, both);
    assert(stop.drop_first() =~= Seq::<ListenerOp>::empty());
    assert(both.drop_first() =~= start);
    assert(start.drop_first() =~= Seq::<ListenerOp>::empty());
    assert(reached.after_ops(stop) == reached.after_stop().after_ops(stop.drop_first()));
    assert(reached.after_ops(both) == reached.after_stop().after_ops(start));
    assert(reached.after_stop().after_ops(start) == reached.after_stop().after_start().after_ops(
        start.drop_first(),
    ));
    lemma_starts_without_stop(reached.after_stop(), start);
    assert(reached.listeners_started(both) == reached.after_stop().listeners_started(start));
}

/// What reaches one forwarding task, in the order in which it happens.
pub enum ListenerInput {
    /// The next item of the live stream.
    Item(TimelineEventView),
    /// `start_live_event_listener` was called.
    StartRequested,
    /// `stop_live_event_listener` was called.
    StopRequested,
    /// A delegate was registered.
    DelegateSet,
    /// The delegate was taken away.
    DelegateCleared,
}

/// The events as items of the live stream, in order.
pub open spec fn as_items(events: Seq<TimelineEventView>) -> Seq<ListenerInput> {
    Seq::new(events.len(), |i: int| ListenerInput::Item(events[i]))
}

/// The messages as room-message events, in order.
pub open spec fn as_events(messages: Seq<MessageView>) -> Seq<TimelineEventView> {
    Seq::new(messages.len(), |i: int| TimelineEventView::RoomMessage(messages[i]))
}

/// The messages that the forwarding task under `task` hands to the delegate
/// over a run of inputs, in the order of the calls. The task takes
/// `listener_step` for each item and ends at the first `Stop`.
pub open spec fn deliveries(
    task: u64,
    latch: Latch,
    has_delegate: bool,
    inputs: Seq<ListenerInput>,
) -> Seq<MessageView>
    decreases inputs.len(),
{
    if inputs.len() == 0 {
        Seq::empty()
    } else {
        let rest = inputs.drop_first();
        match inputs[0] {
            ListenerInput::StartRequested => deliveries(task, latch.after_start(), has_delegate, rest),
            ListenerInput::StopRequested => deliveries(task, latch.after_stop(), has_delegate, rest),
            ListenerInput::DelegateSet => deliveries(task, latch, true, rest),
            ListenerInput::DelegateCleared => deliveries(task, latch, false, rest),
            ListenerInput::Item(event) => match listener_step(
                latch.admits(task),
                has_delegate,
                event,
            ) {
                ListenerStepView::Stop => Seq::empty(),
                ListenerStepView::Skip => deliveries(task, latch, has_delegate, rest),
                ListenerStepView::Deliver(message) => seq![message] + deliveries(
                    task,
                    latch,
                    has_delegate,
                    rest,
                ),
            },
        }
    }
}

/// The room messages of a timeline in two parts are those of the first part
/// followed by those of the second.
pub proof fn lemma_messages_of_two_parts(
    first: Seq<TimelineEventView>,
    second: Seq<TimelineEventView>,
)
    ensures
        messages_of(first + second) == messages_of(first) + messages_of(second),
    decreases second.len(),
{
    if second.len() == 0 {
        assert(first + second =~= first);
        assert(messages_of(first) + messages_of(second) =~= messages_of(first));
    } else {
        let all = first + second;
        assert(all.drop_last() =~= first + second.drop_last());
        assert(all.last() == second.last());
        lemma_messages_of_two_parts(first, second.drop_last());
        match second.last() {
            TimelineEventView::RoomMessage(message) => {
                assert(messages_of(all) =~= messages_of(first) + messages_of(second));
            },
            _ => {},
        }
    }
}

/// The room messages of a timeline that holds nothing else are all of it.
pub proof fn lemma_messages_of_messages(messages: Seq<MessageView>)
    ensures
        messages_of(as_events(messages)) == messages,
    decreases messages.len(),
{
    if messages.len() == 0 {
        assert(messages_of(as_events(messages)) =~= messages);
    } else {
        let events = as_events(messages);
        assert(events.drop_last() =~= as_events(messages.drop_last()));
        lemma_messages_of_messages(messages.drop_last());
        assert(messages_of(events) =~= messages);
    }
}


/// The task for which the room listens, with a delegate throughout, hands
/// over exactly the room messages of the stream, each once and in the order
/// of arrival.
pub proof fn lemma_delivers_in_order(task: u64, latch: Latch, events: Seq<TimelineEventView>)
    requires
        latch.admits(task),
    ensures
        deliveries(task, latch, true, as_items(events)) == messages_of(events),
    decreases events.len(),
{
    let inputs = as_items(events);
    if events.len() == 0 {
        assert(deliveries(task, latch, true, inputs) =~= messages_of(events));
    } else {
        let head = seq![events[0]];
        let tail = events.drop_first();
        assert(inputs.drop_first() =~= as_items(tail));
        assert(events =~= head + tail);
        lemma_delivers_in_order(task, latch, tail);
        lemma_messages_of_two_parts(head, tail);
        assert(head.drop_last() =~= Seq::<TimelineEventView>::empty());
        assert(messages_of(head.drop_last()) =~= Seq::<MessageView>::empty());
        match events[0] {
            TimelineEventView::RoomMessage(message) => {
                assert(messages_of(head) =~= seq![message]);
            },
            _ => {
                assert(messages_of(head) =~= Seq::<MessageView>::empty());
                assert(messages_of(head) + messages_of(tail) =~= messages_of(tail));
            },
        }
    }
}

/// An item that is no room message, among room messages, is skipped and
/// nothing else is: one delivery for each message, in order, and the number
/// of deliveries is the number of messages, not of items.
pub proof fn lemma_skips_what_is_no_message(
    task: u64,
    latch: Latch,
    before: Seq<MessageView>,
    odd: TimelineEventView,
    after: Seq<MessageView>,
)
    requires
        latch.admits(task),
        !(odd is RoomMessage),
    ensures
        deliveries(task, latch, true, as_items(as_events(before) + seq![odd] + as_events(after)))
            == before + after,
        deliveries(
            task,
            latch,
            true,
            as_items(as_events(before) + seq![odd] + as_events(after)),
        ).len() == before.len() + after.len(),
{
    let stream = as_events(before) + seq![odd] + as_events(after);
    lemma_delivers_in_order(task, latch, stream);
    lemma_messages_of_two_parts(as_events(before) + seq![odd], as_events(after));
    lemma_messages_of_two_parts(as_events(before), seq![odd]);
    lemma_messages_of_messages(before);
    lemma_messages_of_messages(after);
    assert(seq![odd].drop_last() =~= Seq::<TimelineEventView>::empty());
    assert(messages_of(seq![odd].drop_last()) =~= Seq::<MessageView>::empty());
    assert(messages_of(seq![odd]) =~= Seq::<MessageView>::empty());
    assert(before + Seq::<MessageView>::empty() =~= before);
}

/// A task that was turned off for good hands over nothing more, whatever
/// arrives and whatever is called later, a new start included.
pub proof fn lemma_retired_task_is_silent(
    task: u64,
    latch: Latch,
    has_delegate: bool,
    inputs: Seq<ListenerInput>,
)
    requires
        latch.retired(task),
    ensures
        deliveries(task, latch, has_delegate, inputs) == Seq::<MessageView>::empty(),
    decreases inputs.len(),
{
    if inputs.len() > 0 {
        let rest = inputs.drop_first();
        lemma_retired_task_is_silent(task, latch, true, rest);
        lemma_retired_task_is_silent(task, latch, false, rest);
        lemma_retired_task_is_silent(task, latch.after_start(), has_delegate, rest);
        lemma_retired_task_is_silent(task, latch.after_stop(), has_delegate, rest);
    }
}

/// After a stop request the delegate gets nothing more from a task that was
/// started before it, that is, one whose number the room has given out:
/// whatever arrives later and whatever is called later, a restart included,
/// such a task hands over what it handed over before the request. The first
/// item that reaches it after the request is dropped, and the task ends
/// there.
pub proof fn lemma_nothing_after_stop(
    task: u64,
    latch: Latch,
    has_delegate: bool,
    before: Seq<ListenerInput>,
    after: Seq<ListenerInput>,
)
    requires
        task <= latch.listener,
    ensures
        deliveries(task, latch, has_delegate, before + seq![ListenerInput::StopRequested] + after)
            == deliveries(task, latch, has_delegate, before),
    decreases before.len(),
{
    let stop = seq![ListenerInput::StopRequested];
    let all = before + stop + after;
    if before.len() == 0 {
        assert(all.drop_first() =~= after);
        lemma_retired_task_is_silent(task, latch.after_stop(), has_delegate, after);
    } else {
        assert(all[0] == before[0]);
        assert(all.drop_first() =~= before.drop_first() + stop + after);
        let rest = before.drop_first();
        lemma_nothing_after_stop(task, latch, true, rest, after);
        lemma_nothing_after_stop(task, latch, false, rest, after);
        lemma_nothing_after_stop(task, latch.after_start(), has_delegate, rest, after);
        lemma_nothing_after_stop(task, latch.after_stop(), has_delegate, rest, after);
    }
}

/// A start, a stop and a second start, with no item between them, leave one
/// listener: a message that arrives next is handed over once, by the task
/// that was started last, and the task that was started first hands over
/// nothing, now or later.
pub proof fn lemma_restart_delivers_once(
    latch: Latch,
    message: MessageView,
    later: Seq<ListenerInput>,
)
    requires
        !latch.listening,
        latch.listener + 2 <= u64::MAX,
    ensures
        ({
            let first = (latch.listener + 1) as u64;
            let second = (latch.listener + 2) as u64;
            let reached = latch.after_start().after_stop().after_start();
            let arrival = seq![ListenerInput::Item(TimelineEventView::RoomMessage(message))];
            &&& latch.start_outcome() == ListenerStart::Started(first)
            &&& latch.after_start().after_stop().start_outcome() == ListenerStart::Started(second)
            &&& reached.admits(second)
            &&& deliveries(second, reached, true, arrival) == seq![message]
            &&& deliveries(first, reached, true, arrival + later) == Seq::<MessageView>::empty()
        }),
{
    let first = (latch.listener + 1) as u64;
    let second = (latch.listener + 2) as u64;
    let reached = latch.after_start().after_stop().after_start();
    let event = TimelineEventView::RoomMessage(message);
    let arrival = seq![ListenerInput::Item(event)];
    lemma_retired_task_is_silent(first, reached, true, arrival + later);
    lemma_delivers_in_order(second, reached, seq![event]);
    assert(as_items(seq![event]) =~= arrival);
    assert(seq![event].drop_last() =~= Seq::<TimelineEventView>::empty());
    assert(messages_of(seq![event].drop_last()) =~= Seq::<MessageView>::empty());
    assert(messages_of(seq![event]) =~= seq![message]);
}

} // verus!
