//! The consumer loop, as a state machine.
//!
//! The loop is the only reader of the event channel and the only writer of the status
//! item's image after start-up. Whoever runs it asks `Consumer::next` what to do, does
//! it, and reports back: after `Action::Show` it displays the icon while holding the
//! tray's lock and hands the outcome to `Consumer::record`; after `Action::Wait` it
//! sleeps; after `Action::Stop` it releases the status item and calls
//! `Consumer::terminate`.

use crate::channel::event_view;
use crate::channel::lemma_sends_are_kept_in_order;
use crate::channel::sent_all;
use crate::channel::ChannelView;
use crate::channel::Receiver;
use crate::error::Error;
use crate::event::EventView;
use crate::event::OsxSystemTrayEvent;
use crate::handle::SafeId;
use crate::icon::icon_view;
use crate::icon::settle;
use crate::icon::settled;
use crate::icon::shown;
use crate::icon::DisplayOutcome;
use crate::icon::Icon;
use crate::icon::IconSize;
use crate::icon::IconView;
use crate::icon::TrayConfig;
use vstd::prelude::*;

verus! {

/// Where the consumer loop stands.
#[derive(Clone, Copy, Debug, PartialEq, Eq, Structural)]
pub enum LoopState {
    /// Events are received and applied.
    Running,
    /// A shutdown event was received: no further event is applied.
    ShutdownRequested,
    /// The loop has ended and the channel is closed.
    Terminated,
}

/// What the loop's runner has to do next.
#[derive(Clone, Debug, PartialEq, Eq)]
pub enum Action {
    /// Display this icon, holding the tray's lock, then call `Consumer::record`.
    Show(Icon),
    /// Nothing is pending: yield for this many milliseconds.
    Wait(u64),
    /// Leave the loop.
    Stop,
}

/// The mathematical value of an action.
pub enum ActionView {
    Show(IconView),
    Wait(u64),
    Stop,
}

impl View for Action {
    type V = ActionView;

    open spec fn view(&self) -> ActionView {
        match *self {
            Action::Show(icon) => ActionView::Show(icon@),
            Action::Wait(millis) => ActionView::Wait(millis),
            Action::Stop => ActionView::Stop,
        }
    }
}

/// The mathematical value of a consumer: the tray handle that it writes to, its end of
/// the event channel, its state, the icon that it last put on display, and its two
/// settings.
pub struct ConsumerView {
    pub tray: SafeId,
    pub inbox: Receiver,
    pub state: LoopState,
    pub displayed: Option<IconView>,
    pub update_size: IconSize,
    pub poll_interval_ms: u64,
}

/// The consumer after it was handed what the channel gave: a shutdown event takes a
/// running consumer to `ShutdownRequested`, and nothing else changes anything.
pub open spec fn next_state(c: ConsumerView, event: Option<EventView>) -> ConsumerView {
    if c.state == LoopState::Running && event == Some(EventView::Shutdown) {
        ConsumerView { state: LoopState::ShutdownRequested, ..c }
    } else {
        c
    }
}

/// What a consumer in state `c` asks for when the channel gave `event`.
pub open spec fn next_action(c: ConsumerView, event: Option<EventView>) -> ActionView {
    if c.state != LoopState::Running {
        ActionView::Stop
    } else {
        match event {
            Some(EventView::ChangeImage(data)) => ActionView::Show(
                IconView { data, size: c.update_size },
            ),
            Some(EventView::Shutdown) => ActionView::Stop,
            None => ActionView::Wait(c.poll_interval_ms),
        }
    }
}

/// The consumer after the outcome of displaying `data` was reported: a success puts
/// `data` on display at the update size, a failure leaves what was displayed before.
pub open spec fn recorded(
    c: ConsumerView,
    data: Seq<u8>,
    attempt: Result<DisplayOutcome, Error>,
) -> ConsumerView {
    if shown(attempt) {
        ConsumerView { displayed: Some(IconView { data, size: c.update_size }), ..c }
    } else {
        c
    }
}

/// The consumer after one received event was handled to the end, `attempt` being the
/// outcome of the display that the event asked for, if it asked for one.
pub open spec fn handled(
    c: ConsumerView,
    event: EventView,
    attempt: Result<DisplayOutcome, Error>,
) -> ConsumerView {
    match next_action(c, Some(event)) {
        ActionView::Show(icon) => recorded(next_state(c, Some(event)), icon.data, attempt),
        _ => next_state(c, Some(event)),
    }
}

/// The consumer after it handled `events` in order, `attempts[i]` being the outcome
/// that belongs to `events[i]`.
pub open spec fn handled_all(
    c: ConsumerView,
    events: Seq<EventView>,
    attempts: Seq<Result<DisplayOutcome, Error>>,
) -> ConsumerView
    decreases events.len(),
{
    if events.len() == 0 {
        c
    } else {
        handled(
            handled_all(c, events.drop_last(), attempts.drop_last()),
            events.last(),
            attempts.last(),
        )
    }
}

/// Whether every event of the sequence asks for an image.
pub open spec fn all_images(events: Seq<EventView>) -> bool {
    forall|i: int| 0 <= i < events.len() ==> events[i] is ChangeImage
}

/// A consumer that is not running applies nothing: whatever events it is handed, and
/// whatever is reported of them, it stays as it is.
pub proof fn lemma_stopped_consumer_applies_nothing(
    c: ConsumerView,
    events: Seq<EventView>,
    attempts: Seq<Result<DisplayOutcome, Error>>,
)
    requires
        c.state != LoopState::Running,
    ensures
        handled_all(c, events, attempts) == c,
    decreases events.len(),
{
    if events.len() > 0 {
        lemma_stopped_consumer_applies_nothing(c, events.drop_last(), attempts.drop_last());
    }
}

/// Image events change nothing but the displayed icon: the consumer keeps running,
/// with its settings, its tray handle and its end of the channel.
pub proof fn lemma_images_change_only_the_icon(
    c: ConsumerView,
    events: Seq<EventView>,
    attempts: Seq<Result<DisplayOutcome, Error>>,
)
    requires
        c.state == LoopState::Running,
        all_images(events),
    ensures
        handled_all(c, events, attempts) == (ConsumerView {
            displayed: handled_all(c, events, attempts).displayed,
            ..c
        }),
    decreases events.len(),
{
    if events.len() > 0 {
        lemma_images_change_only_the_icon(c, events.drop_last(), attempts.drop_last());
    }
}

/// Updates that fail leave the icon that was displayed before them.
pub proof fn lemma_failed_updates_keep_the_icon(
    c: ConsumerView,
    events: Seq<EventView>,
    attempts: Seq<Result<DisplayOutcome, Error>>,
)
    requires
        c.state == LoopState::Running,
        all_images(events),
        attempts.len() == events.len(),
        forall|j: int| 0 <= j < attempts.len() ==> !shown(attempts[j]),
    ensures
        handled_all(c, events, attempts) == c,
    decreases events.len(),
{
    if events.len() > 0 {
        lemma_failed_updates_keep_the_icon(c, events.drop_last(), attempts.drop_last());
    }
}

/// After a running consumer has handled a sequence of image events, the icon on
/// display is that of the last event whose display succeeded, at the update size:
/// where event `k` was shown and none after it, the bytes of event `k` are displayed.
/// Nothing else about the consumer has changed.
pub proof fn lemma_last_shown_image_is_displayed(
    c: ConsumerView,
    events: Seq<EventView>,
    attempts: Seq<Result<DisplayOutcome, Error>>,
    k: int,
)
    requires
        c.state == LoopState::Running,
        all_images(events),
        attempts.len() == events.len(),
        0 <= k < events.len(),
        shown(attempts[k]),
        forall|j: int| k < j < attempts.len() ==> !shown(attempts[j]),
    ensures
        handled_all(c, events, attempts) == (ConsumerView {
            displayed: Some(IconView { data: events[k]->ChangeImage_0, size: c.update_size }),
            ..c
        }),
    decreases events.len(),
{
    if k == events.len() - 1 {
        lemma_images_change_only_the_icon(c, events.drop_last(), attempts.drop_last());
    } else {
        lemma_last_shown_image_is_displayed(c, events.drop_last(), attempts.drop_last(), k);
    }
}

/// What a single producer sends on an open, empty channel reaches a running consumer
/// in the order of sending, so once the consumer has drained the channel, the icon on
/// display is that of the last event sent, provided that its display succeeded.
pub proof fn lemma_last_sent_image_wins(
    channel: ChannelView,
    c: ConsumerView,
    events: Seq<EventView>,
    attempts: Seq<Result<DisplayOutcome, Error>>,
)
    requires
        !channel.closed,
        channel.pending.len() == 0,
        c.state == LoopState::Running,
        all_images(events),
        events.len() > 0,
        attempts.len() == events.len(),
        shown(attempts.last()),
    ensures
        sent_all(channel, events).pending == events,
        handled_all(c, sent_all(channel, events).pending, attempts) == (ConsumerView {
            displayed: Some(
                IconView { data: events.last()->ChangeImage_0, size: c.update_size },
            ),
            ..c
        }),
{
    lemma_sends_are_kept_in_order(channel, events);
    assert(channel.pending + events =~= events);
    lemma_last_shown_image_is_displayed(c, events, attempts, events.len() - 1);
}

/// The consumer loop's state, with the tray handle that it writes to and its end of
/// the event channel.
pub struct Consumer {
    tray: SafeId,
    inbox: Receiver,
    state: LoopState,
    displayed: Option<Icon>,
    update_size: IconSize,
    poll_interval_ms: u64,
}

impl View for Consumer {
    type V = ConsumerView;

    closed spec fn view(&self) -> ConsumerView {
        ConsumerView {
            tray: self.tray,
            inbox: self.inbox,
            state: self.state,
            displayed: icon_view(self.displayed),
            update_size: self.update_size,
            poll_interval_ms: self.poll_interval_ms,
        }
    }
}

impl Consumer {
    /// A running consumer that has displayed nothing yet.
    pub fn new(tray: SafeId, inbox: Receiver, config: TrayConfig) -> (c: Consumer)
        ensures
            c@ == (ConsumerView {
                tray,
                inbox,
                state: LoopState::Running,
                displayed: None,
                update_size: config.update_size,
                poll_interval_ms: config.poll_interval_ms,
            }),
    {
        Consumer {
            tray,
            inbox,
            state: LoopState::Running,
            displayed: None,
            update_size: config.update_size,
            poll_interval_ms: config.poll_interval_ms,
        }
    }

    /// The status item whose image the loop replaces.
    pub fn tray(&self) -> (tray: &SafeId)
        ensures
            *tray == self@.tray,
    {
        &self.tray
    }

    /// Where the loop stands.
    pub fn state(&self) -> (s: LoopState)
        ensures
            s == self@.state,
    {
        self.state
    }

    /// The icon that this consumer last put on display, if any.
    pub fn displayed(&self) -> (icon: Option<&Icon>)
        ensures
            icon matches Some(i) ==> self@.displayed == Some(i@),
            icon is None ==> self@.displayed is None,
    {
        self.displayed.as_ref()
    }

    /// Decides what to do about what the channel gave, `None` standing for an empty
    /// channel.
    ///
    /// A running consumer asks for an image event's bytes to be shown at the update
    /// size, yields for the poll interval when nothing is pending, and on a shutdown
    /// event stops and moves to `ShutdownRequested`. A consumer that is not running
    /// ignores the event and asks to stop.
    pub fn decide(&mut self, event: Option<OsxSystemTrayEvent>) -> (action: Action)
        ensures
            action@ == next_action(old(self)@, event_view(event)),
            final(self)@ == next_state(old(self)@, event_view(event)),
    {
        match self.state {
            LoopState::Running => match event {
                Some(OsxSystemTrayEvent::ChangeImage(data)) => Action::Show(
                    Icon { data, size: self.update_size },
                ),
                Some(OsxSystemTrayEvent::Shutdown) => {
                    self.state = LoopState::ShutdownRequested;
                    Action::Stop
                },
                None => Action::Wait(self.poll_interval_ms),
            },
            _ => Action::Stop,
        }
    }

    /// Takes note of what became of the attempt to display `data`, and tells the
    /// result.
    ///
    /// Only `Ok(DisplayOutcome::Shown)` changes what is displayed. An image that
    /// could not be read gives `Error::IO`, one that could not be decoded
    /// `Error::Codec`, and an error that kept the native layer from being asked is
    /// handed on as it is; in each of these the icon displayed before stays.
    pub fn record(&mut self, data: Vec<u8>, attempt: Result<DisplayOutcome, Error>) -> (r: Result<
        (),
        Error,
    >)
        ensures
            r == settled(attempt),
            final(self)@ == recorded(old(self)@, data@, attempt),
            r is Ok ==> final(self)@.displayed == Some(
                IconView { data: data@, size: old(self)@.update_size },
            ),
            r is Err ==> final(self)@ == old(self)@,
    {
        let r = settle(attempt);
        if r.is_ok() {
            self.displayed = Some(Icon { data, size: self.update_size });
        }
        r
    }

    /// Receives from the channel, if the consumer is running, and decides as `decide`
    /// does. A consumer that leaves the running state closes the channel, so that no
    /// producer sends into a queue that nobody reads.
    ///
    /// Which event the channel gives depends on what the producers did; the contract
    /// says what holds whichever it was.
    pub fn next(&mut self) -> (action: Action)
        ensures
            exists|event: Option<EventView>|
                {
                    &&& action@ == #[trigger] next_action(old(self)@, event)
                    &&& final(self)@ == next_state(old(self)@, event)
                },
            old(self)@.state != LoopState::Running ==> action@ == ActionView::Stop && final(self)@
                == old(self)@,
    {
        let event = match self.state {
            LoopState::Running => self.inbox.try_recv(),
            _ => None,
        };
        let ghost given = event_view(event);
        let action = self.decide(event);
        match self.state {
            LoopState::Running => {},
            _ => self.inbox.close(),
        }
        assert(action@ == next_action(old(self)@, given));
        action
    }

    /// Ends a loop that was asked to shut down: the state becomes `Terminated` and the
    /// channel is closed. Returns whether it did so; a consumer in any other state than
    /// `ShutdownRequested` is left as it is.
    pub fn terminate(&mut self) -> (done: bool)
        ensures
            done == (old(self)@.state == LoopState::ShutdownRequested),
            done ==> final(self)@ == (ConsumerView { state: LoopState::Terminated, ..old(self)@ }),
            !done ==> final(self)@ == old(self)@,
    {
        match self.state {
            LoopState::ShutdownRequested => {
                self.inbox.close();
                self.state = LoopState::Terminated;
                true
            },
            _ => false,
        }
    }
}

} // verus!
