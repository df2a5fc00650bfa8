//! The tray controller: the handle that the host program holds.
//!
//! The controller owns the handles of the application object and of the status item,
//! and the producers' end of the event channel. It installs the first icon itself,
//! without passing through the channel, and hands the calling thread to the native run
//! loop.

use crate::channel::channel;
use crate::channel::Emitter;
use crate::consumer::Consumer;
use crate::consumer::LoopState;
use crate::error::Error;
use crate::handle::SafeId;
use crate::icon::icon_view;
use crate::icon::settle;
use crate::icon::settled;
use crate::icon::shown;
use crate::icon::DisplayOutcome;
use crate::icon::Icon;
use crate::icon::IconSize;
use crate::icon::IconView;
use crate::icon::TrayConfig;
use vstd::prelude::*;
use vstd::slice::slice_to_vec;

verus! {

/// The mathematical value of a controller.
pub struct TrayView {
    pub app: SafeId,
    pub tray: SafeId,
    pub handler: Emitter,
    pub config: TrayConfig,
    /// The icon that the controller last installed itself, if any.
    pub icon: Option<IconView>,
}

/// The controller after the outcome of installing `buffer` was reported: a success
/// puts `buffer` on display at the initial size, a failure leaves what was there.
pub open spec fn installed(
    t: TrayView,
    buffer: Seq<u8>,
    attempt: Result<DisplayOutcome, Error>,
) -> TrayView {
    if shown(attempt) {
        TrayView { icon: Some(IconView { data: buffer, size: t.config.initial_size }), ..t }
    } else {
        t
    }
}

/// The status-bar icon of the running program.
#[derive(Debug)]
pub struct OsxSystemTray {
    /// The application object, whose run loop `run` enters.
    pub app: SafeId,
    /// The status item, whose image is the icon.
    pub tray: SafeId,
    /// The producers' end of the event channel.
    pub handler: Emitter,
    config: TrayConfig,
    icon: Option<Icon>,
}

impl View for OsxSystemTray {
    type V = TrayView;

    closed spec fn view(&self) -> TrayView {
        TrayView {
            app: self.app,
            tray: self.tray,
            handler: self.handler,
            config: self.config,
            icon: icon_view(self.icon),
        }
    }
}

/// What holds of a controller and its consumer when they were just made for the
/// application object at `app` and the status item at `tray`, with `config`.
pub open spec fn freshly_started(
    t: TrayView,
    c: crate::consumer::ConsumerView,
    app: usize,
    tray: usize,
    config: TrayConfig,
) -> bool {
    &&& t.app.handle() == app
    &&& t.tray.handle() == tray
    &&& t.config == config
    &&& t.icon is None
    &&& t.handler.feeds(&c.inbox)
    &&& c.tray.handle() == tray
    &&& c.tray.shares_lock_with(&t.tray)
    &&& c.state == LoopState::Running
    &&& c.displayed is None
    &&& c.update_size == config.update_size
    &&& c.poll_interval_ms == config.poll_interval_ms
}

impl OsxSystemTray {
    /// A controller for the application object at `app` and the status item at `tray`,
    /// with the standard configuration, and the consumer that serves its channel.
    ///
    /// The consumer is to be run on a thread of its own for as long as the program
    /// lives.
    ///
    /// Both addresses are those of objects that exist. Where the system gave none, and
    /// an address is 0, start-up has failed and no controller is to be made.
    pub fn new_with_app(app: usize, tray: usize) -> (started: (OsxSystemTray, Consumer))
        requires
            app != 0,
            tray != 0,
        ensures
            freshly_started(started.0@, started.1@, app, tray, TrayConfig::standard()),
    {
        OsxSystemTray::with_config(app, tray, TrayConfig::default())
    }

    /// As `new_with_app`, with the display sizes and the poll interval of `config`.
    pub fn with_config(app: usize, tray: usize, config: TrayConfig) -> (started: (
        OsxSystemTray,
        Consumer,
    ))
        requires
            app != 0,
            tray != 0,
        ensures
            freshly_started(started.0@, started.1@, app, tray, config),
    {
        let (handler, inbox) = channel();
        let tray_id = SafeId::new(tray);
        let consumer = Consumer::new(tray_id.clone(), inbox, config);
        let controller = OsxSystemTray {
            app: SafeId::new(app),
            tray: tray_id,
            handler,
            config,
            icon: None,
        };
        (controller, consumer)
    }

    /// The size at which the controller's own icon is to be displayed.
    pub fn initial_size(&self) -> (size: IconSize)
        ensures
            size == self@.config.initial_size,
    {
        self.config.initial_size
    }

    /// The icon that the controller last installed itself, if any.
    pub fn icon(&self) -> (icon: Option<&Icon>)
        ensures
            icon matches Some(i) ==> self@.icon == Some(i@),
            icon is None ==> self@.icon is None,
    {
        self.icon.as_ref()
    }

    /// Displays the image in `buffer` as the icon, at the initial size: calls `show`
    /// once, while holding the tray's lock, with the status item's address, the buffer
    /// and the initial size, and settles what it reports as `install` does.
    ///
    /// Where an earlier holder of the tray's lock ended abnormally, `show` is not
    /// called and the call fails with `Error::PoisonError`.
    ///
    /// The call waits, without limit, for as long as another holder keeps the tray's
    /// lock. `show` runs with that lock held, so it must not lock the status item
    /// again: it would wait for itself.
    pub fn set_tray_icon_from_buffer<F: FnOnce(usize, &[u8], IconSize) -> DisplayOutcome>(
        &mut self,
        buffer: &[u8],
        show: F,
    ) -> (r: Result<(), Error>)
        requires
            show.requires((old(self)@.tray.handle(), buffer, old(self)@.config.initial_size)),
        ensures
            exists|attempt: Result<DisplayOutcome, Error>|
                {
                    &&& r == #[trigger] settled(attempt)
                    &&& final(self)@ == installed(old(self)@, buffer@, attempt)
                    &&& attempt matches Ok(outcome) ==> show.ensures(
                        (old(self)@.tray.handle(), buffer, old(self)@.config.initial_size),
                        outcome,
                    )
                    &&& attempt matches Err(e) ==> e == Error::PoisonError
                },
            r is Ok ==> final(self)@.icon == Some(
                IconView { data: buffer@, size: old(self)@.config.initial_size },
            ),
            r is Err ==> final(self)@ == old(self)@,
            final(self)@ == (TrayView { icon: final(self)@.icon, ..old(self)@ }),
    {
        let size = self.config.initial_size;
        let locked = |handle: usize| -> (outcome: DisplayOutcome)
            requires
                call_requires(show, (handle, buffer, size)),
            ensures
                call_ensures(show, (handle, buffer, size), outcome),
        {
            show(handle, buffer, size)
        };
        let attempt = self.tray.with_lock(locked);
        let r = self.install(buffer, attempt);
        assert(r == settled(attempt));
        r
    }

    /// Takes note of what became of an attempt to display the image in `buffer` at the
    /// initial size, and tells the result.
    ///
    /// The call succeeds exactly when the image is on display, and the icon that the
    /// controller then reports has the initial size. An image that could not be read
    /// gives `Error::IO`, one that could not be decoded `Error::Codec`, and an error
    /// that kept the native layer from being asked is handed on as it is; in each of
    /// these the icon installed before stays.
    pub fn install(&mut self, buffer: &[u8], attempt: Result<DisplayOutcome, Error>) -> (r: Result<
        (),
        Error,
    >)
        ensures
            r == settled(attempt),
            final(self)@ == installed(old(self)@, buffer@, attempt),
            r is Ok ==> final(self)@.icon == Some(
                IconView { data: buffer@, size: old(self)@.config.initial_size },
            ),
            r is Err ==> final(self)@ == old(self)@,
    {
        let r = settle(attempt);
        if r.is_ok() {
            self.icon = Some(Icon { data: slice_to_vec(buffer), size: self.config.initial_size });
        }
        r
    }

    /// A producer's end of the event channel, to be moved to the thread that decides
    /// what the icon shows.
    pub fn get_emitter(&self) -> (emitter: Emitter)
        ensures
            forall|receiver: crate::channel::Receiver|
                self@.handler.feeds(&receiver) ==> emitter.feeds(&receiver),
    {
        self.handler.clone()
    }

    /// Hands the calling thread to `pump`, the native run loop, while holding the
    /// lock of the application object. The pump runs at most once and gets the
    /// application object's address; the call returns when the pump does, which in
    /// normal operation is never.
    ///
    /// The run loop has one owner for the life of the process: the call uses the
    /// controller up, so that it cannot be made a second time. Producers keep their
    /// emitters, and the consumer goes on.
    ///
    /// Fails with `Error::PoisonError`, without running the pump, where an earlier
    /// holder of that lock ended abnormally. What the call does for each outcome of
    /// taking the lock is the contract of `SafeId::under`, which it calls on the
    /// application object with that outcome.
    ///
    /// The call waits, without limit, for as long as another holder keeps the lock of
    /// the application object. The pump runs with that lock held, so it must not lock
    /// the application object again: it would wait for itself.
    pub fn run<F: FnOnce(usize) -> ()>(self, pump: F) -> (r: Result<(), Error>)
        requires
            pump.requires((self@.app.handle(),)),
        ensures
            r is Ok ==> pump.ensures((self@.app.handle(),), ()),
            r matches Err(e) ==> e == Error::PoisonError,
    {
        let held = self.app.hold();
        self.app.under(held, pump)
    }
}

} // verus!
