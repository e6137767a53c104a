//! The handshake between the launcher and its confirmation view.
//!
//! Before a command runs, a secondary view may ask the user to confirm it.
//! The view is created first and announces, some time later, that it has
//! loaded; only then can the pending command be pushed into it. The
//! announcement may arrive more than once, and announcements of other views
//! travel on the same channel, so the handshake latches: the command is
//! handed out for the first announcement that names this view and for no
//! other.

use vstd::prelude::*;

verus! {

/// Where a handshake stands.
#[derive(Clone, Copy, Debug, PartialEq, Eq, Structural)]
pub enum Phase {
    /// The view has been requested; nobody listens for it yet.
    Opened,
    /// The listener is registered and the view has not announced itself.
    AwaitingReady,
    /// The command has been handed out. Terminal.
    Delivered,
    /// The view went away before the command was handed out. Terminal.
    Closed,
}

/// What can happen to a handshake.
pub enum Event {
    /// The listener for the view's announcement has been registered.
    Listening,
    /// Some view has announced that it has loaded, with this payload.
    Loaded(Seq<char>),
    /// The confirmation view has closed.
    Closed,
}

/// The mathematical content of a handshake.
pub struct HandshakeView {
    pub phase: Phase,
    pub command: Seq<char>,
}

/// The payload by which the confirmation view names itself: its label as a
/// JSON string.
pub open spec fn ready_payload() -> Seq<char> {
    "\"confirmation\""@
}

impl HandshakeView {
    /// Whether an announcement with this payload releases the command.
    pub open spec fn releases(self, payload: Seq<char>) -> bool {
        self.phase == Phase::AwaitingReady && payload == ready_payload()
    }

    /// The handshake once the listener is registered.
    pub open spec fn listening(self) -> HandshakeView {
        if self.phase == Phase::Opened {
            HandshakeView { phase: Phase::AwaitingReady, command: self.command }
        } else {
            self
        }
    }

    /// The handshake after one announcement.
    pub open spec fn after_signal(self, payload: Seq<char>) -> HandshakeView {
        if self.releases(payload) {
            HandshakeView { phase: Phase::Delivered, command: self.command }
        } else {
            self
        }
    }

    /// The handshake after its view has closed.
    pub open spec fn closed(self) -> HandshakeView {
        if self.phase == Phase::Delivered {
            self
        } else {
            HandshakeView { phase: Phase::Closed, command: self.command }
        }
    }

    /// The handshake after one event.
    pub open spec fn after(self, event: Event) -> HandshakeView {
        match event {
            Event::Listening => self.listening(),
            Event::Loaded(payload) => self.after_signal(payload),
            Event::Closed => self.closed(),
        }
    }

    /// Whether an event makes the handshake hand out its command.
    pub open spec fn released_by(self, event: Event) -> bool {
        event matches Event::Loaded(payload) && self.releases(payload)
    }

    /// The handshake after a run of events, oldest first.
    pub open spec fn after_all(self, events: Seq<Event>) -> HandshakeView
        decreases events.len(),
    {
        if events.len() == 0 {
            self
        } else {
            self.after(events[0]).after_all(events.drop_first())
        }
    }

    /// How often a run of events makes the handshake hand out its command.
    pub open spec fn deliveries(self, events: Seq<Event>) -> nat
        decreases events.len(),
    {
        if events.len() == 0 {
            0
        } else {
            let rest = self.after(events[0]).deliveries(events.drop_first());
            if self.released_by(events[0]) {
                1 + rest
            } else {
                rest
            }
        }
    }
}

/// One confirmation in progress: the pending command and the latch that
/// guards its delivery.
pub struct ConfirmationHandshake {
    phase: Phase,
    command: String,
}

impl View for ConfirmationHandshake {
    type V = HandshakeView;

    closed spec fn view(&self) -> HandshakeView {
        HandshakeView { phase: self.phase, command: self.command@ }
    }
}

impl ConfirmationHandshake {
    /// Starts a handshake for `command`. The caller creates the view next.
    pub fn open(command: String) -> (handshake: Self)
        ensures
            handshake@ == (HandshakeView { phase: Phase::Opened, command: command@ }),
    {
        ConfirmationHandshake { phase: Phase::Opened, command }
    }

    /// Records that the listener for the view's announcement is registered.
    pub fn listening(&mut self)
        ensures
            final(self)@ == old(self)@.after(Event::Listening),
    {
        if self.phase == Phase::Opened {
            self.phase = Phase::AwaitingReady;
        }
    }

    /// Handles one announcement. Returns the command to push into the view
    /// when this announcement is the first to name it while the handshake
    /// waits, and sets the latch in the same step; every other announcement
    /// is ignored.
    pub fn view_loaded(&mut self, payload: &str) -> (push: Option<String>)
        ensures
            final(self)@ == old(self)@.after(Event::Loaded(payload@)),
            push is Some <==> old(self)@.released_by(Event::Loaded(payload@)),
            push matches Some(text) ==> text@ == old(self)@.command,
    {
        if self.phase == Phase::AwaitingReady && names_confirmation_view(payload) {
            self.phase = Phase::Delivered;
            Some(self.command.clone())
        } else {
            None
        }
    }

    /// Records that the view has closed.
    pub fn view_closed(&mut self)
        ensures
            final(self)@ == old(self)@.after(Event::Closed),
    {
        if self.phase != Phase::Delivered {
            self.phase = Phase::Closed;
        }
    }

    /// Where the handshake stands.
    pub fn phase(&self) -> (phase: Phase)
        ensures
            phase == self@.phase,
    {
        self.phase
    }

    /// The latch: whether the command has been handed out.
    pub fn delivered(&self) -> (set: bool)
        ensures
            set == (self@.phase == Phase::Delivered),
    {
        self.phase == Phase::Delivered
    }

    /// The pending command.
    pub fn command(&self) -> (text: &str)
        ensures
            text@ == self@.command,
    {
        self.command.as_str()
    }
}

/// Whether `payload` is the announcement of the confirmation view.
pub fn names_confirmation_view(payload: &str) -> (named: bool)
    ensures
        named == (payload@ == ready_payload()),
{
    let expected: String = "\"confirmation\"".to_owned();
    let given: String = payload.to_owned();
    given == expected
}

/// The payload that names the confirmation view is the view's label between
/// double quotes.
pub proof fn lemma_ready_payload_quotes_the_label()
    ensures
        ready_payload() == seq!['"'] + "confirmation"@ + seq!['"'],
{
    reveal_strlit("\"confirmation\"");
    reveal_strlit("confirmation");
    assert(ready_payload() =~= seq!['"'] + "confirmation"@ + seq!['"']);
}

/// Whatever happens, and however often the view announces itself, the
/// command is handed out at most once, and it is never changed; a handshake
/// that has delivered or was closed hands out nothing more.
pub proof fn lemma_released_at_most_once(handshake: HandshakeView, events: Seq<Event>)
    ensures
        handshake.deliveries(events) <= 1,
        handshake.phase == Phase::Delivered || handshake.phase == Phase::Closed
            ==> handshake.deliveries(events) == 0,
        handshake.after_all(events).command == handshake.command,
    decreases events.len(),
{
    if events.len() > 0 {
        lemma_released_at_most_once(handshake.after(events[0]), events.drop_first());
    }
}

/// Announcements of other views never make the handshake hand out its
/// command, whatever else happens in between.
pub proof fn lemma_other_views_ignored(handshake: HandshakeView, events: Seq<Event>)
    requires
        forall|i: int| 0 <= i < events.len() ==> events[i] != Event::Loaded(ready_payload()),
    ensures
        handshake.deliveries(events) == 0,
        handshake.after_all(events).phase != Phase::Delivered || handshake.phase
            == Phase::Delivered,
    decreases events.len(),
{
    if events.len() > 0 {
        let rest = events.drop_first();
        assert(events[0] != Event::Loaded(ready_payload()));
        assert forall|i: int| 0 <= i < rest.len() implies rest[i] != Event::Loaded(
            ready_payload(),
        ) by {
            assert(rest[i] == events[i + 1]);
        }
        lemma_other_views_ignored(handshake.after(events[0]), rest);
    }
}

/// A waiting handshake whose view announces itself before it closes, once
/// or many times and among any other announcements, hands out the command
/// exactly once and ends delivered.
pub proof fn lemma_released_exactly_once(handshake: HandshakeView, events: Seq<Event>, first: int)
    requires
        handshake.phase == Phase::AwaitingReady,
        0 <= first < events.len(),
        events[first] == Event::Loaded(ready_payload()),
        forall|i: int| 0 <= i < first ==> events[i] != Event::Closed,
    ensures
        handshake.deliveries(events) == 1,
        handshake.after_all(events).phase == Phase::Delivered,
    decreases events.len(),
{
    let rest = events.drop_first();
    let next = handshake.after(events[0]);
    if handshake.released_by(events[0]) {
        lemma_released_at_most_once(next, rest);
        lemma_terminal_phases_stay(next, rest);
    } else {
        assert(first > 0);
        assert(events[0] != Event::Closed);
        assert(next == handshake);
        assert(rest[first - 1] == events[first]);
        assert forall|i: int| 0 <= i < first - 1 implies rest[i] != Event::Closed by {
            assert(rest[i] == events[i + 1]);
        }
        lemma_released_exactly_once(handshake, rest, first - 1);
    }
}

/// Once delivered or closed, a handshake stays as it is, whatever happens.
pub proof fn lemma_terminal_phases_stay(handshake: HandshakeView, events: Seq<Event>)
    requires
        handshake.phase == Phase::Delivered || handshake.phase == Phase::Closed,
    ensures
        handshake.after_all(events) == handshake,
    decreases events.len(),
{
    if events.len() > 0 {
        lemma_terminal_phases_stay(handshake, events.drop_first());
    }
}

} // verus!
