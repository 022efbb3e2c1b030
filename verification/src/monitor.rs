//! The poll cycle as a state machine: fetch the catalog, find what has newly
//! become available, alert on the subscribed products one by one, sleep
//! until the schedule next occurs, and begin again, until a failure or a
//! request to shut down ends it.
//!
//! The machine decides; its caller acts. Each [`Action`] names the outside
//! work to do next, and the [`Event`] handed to the next step reports how
//! that work ended.

use crate::checker::{newly_available, snapshot_after, AvailabilityChecker};
use crate::discord::{Webhook, WebhookView};
use crate::shopify::{
    available_products, catalog_path, link_on, LinkError, Product, ProductResponse, ProductView,
    ShopifyClient,
};
use crate::subscription::{select_subscribed, subscribed_products};
use crate::utils::{
    delay_until, product_alert, wait_from, webhook_from_product, AlertError, AlertFailure,
    ScheduleError, Scheduler,
};
use vstd::prelude::*;

verus! {

/// Where the machine stands between two steps. Finding what has newly become
/// available takes no outside work, so it happens inside the step that takes
/// the catalog and is no phase of its own.
#[derive(Debug, Clone, Copy, PartialEq, Eq, Structural)]
pub enum Phase {
    /// Nothing has been started yet.
    Idle,
    /// The catalog has been asked for.
    Fetching,
    /// An alert has been handed out for delivery.
    Notifying,
    /// The cycle is over; the next one begins when the wait has elapsed.
    Sleeping,
    /// The machine was shut down on request. Final.
    ShutdownComplete,
    /// The machine gave up after a failure. Final.
    FailedExit,
}

/// How the outside work that the last action asked for ended, or what else
/// happened outside.
pub enum Event {
    /// The caller is ready for the first cycle.
    Start,
    /// The store answered with its catalog.
    Fetched(ProductResponse),
    /// The catalog could not be fetched or read.
    FetchFailed,
    /// The alert was delivered.
    Notified,
    /// The alert could not be delivered.
    NotifyFailed,
    /// The wait has elapsed.
    Woke,
    /// The process was asked to end.
    Shutdown,
}

/// Mathematical model of an [`Event`].
pub ghost enum EventView {
    Start,
    Fetched(Seq<ProductView>),
    FetchFailed,
    Notified,
    NotifyFailed,
    Woke,
    Shutdown,
}

impl View for Event {
    type V = EventView;

    open spec fn view(&self) -> EventView {
        match self {
            Event::Start => EventView::Start,
            Event::Fetched(response) => EventView::Fetched(response@),
            Event::FetchFailed => EventView::FetchFailed,
            Event::Notified => EventView::Notified,
            Event::NotifyFailed => EventView::NotifyFailed,
            Event::Woke => EventView::Woke,
            Event::Shutdown => EventView::Shutdown,
        }
    }
}

/// Why the machine gave up.
#[derive(Debug)]
pub enum Failure {
    /// The catalog could not be fetched or read.
    Fetch,
    /// The store address gives no address to fetch the catalog from.
    CatalogUrl(LinkError),
    /// No alert could be made for a product.
    Alert(AlertError),
    /// An alert could not be delivered.
    Notify,
    /// The wait until the next cycle could not be computed.
    Schedule(ScheduleError),
}

/// Mathematical model of a [`Failure`].
pub ghost enum FailureView {
    Fetch,
    CatalogUrl(LinkError),
    Alert(AlertFailure),
    Notify,
    Schedule(ScheduleError),
}

impl View for Failure {
    type V = FailureView;

    open spec fn view(&self) -> FailureView {
        match self {
            Failure::Fetch => FailureView::Fetch,
            Failure::CatalogUrl(error) => FailureView::CatalogUrl(*error),
            Failure::Alert(error) => FailureView::Alert(error@),
            Failure::Notify => FailureView::Notify,
            Failure::Schedule(error) => FailureView::Schedule(*error),
        }
    }
}

/// What the caller is to do next.
#[derive(Debug)]
pub enum Action {
    /// Fetch the catalog from this address, then report `Fetched` or
    /// `FetchFailed`.
    Fetch(String),
    /// Deliver this alert, then report `Notified` or `NotifyFailed`.
    Notify(Webhook),
    /// Wait this many milliseconds, then report `Woke`; report `Shutdown`
    /// instead if the request to end comes first.
    Sleep(u64),
    /// Nothing new: the work in hand goes on.
    Wait,
    /// End the process in good order.
    Stop,
    /// End the process and report the failure.
    Fail(Failure),
}

/// Mathematical model of an [`Action`].
pub ghost enum ActionView {
    Fetch(Seq<char>),
    Notify(WebhookView),
    Sleep(u64),
    Wait,
    Stop,
    Fail(FailureView),
}

impl View for Action {
    type V = ActionView;

    open spec fn view(&self) -> ActionView {
        match self {
            Action::Fetch(url) => ActionView::Fetch(url@),
            Action::Notify(webhook) => ActionView::Notify(webhook@),
            Action::Sleep(ms) => ActionView::Sleep(*ms),
            Action::Wait => ActionView::Wait,
            Action::Stop => ActionView::Stop,
            Action::Fail(failure) => ActionView::Fail(failure@),
        }
    }
}

/// Mathematical model of a [`Monitor`].
pub ghost struct MonitorView {
    /// The address of the store.
    pub address: Seq<char>,
    /// The subscribed product identifiers, in the operator's order.
    pub subscribed: Seq<i64>,
    /// The expression of the schedule.
    pub expression: Seq<char>,
    /// The snapshot: what was available at the last completed fetch.
    pub seen: Set<i64>,
    /// Where the machine stands.
    pub phase: Phase,
    /// Whether a shutdown was asked for while work was in hand.
    pub stopping: bool,
    /// The products of this cycle that are still to be alerted on, in order.
    pub pending: Seq<ProductView>,
}

impl MonitorView {
    /// The machine before its first step.
    pub open spec fn initial(
        address: Seq<char>,
        subscribed: Seq<i64>,
        expression: Seq<char>,
    ) -> MonitorView {
        MonitorView {
            address,
            subscribed,
            expression,
            seen: Set::empty(),
            phase: Phase::Idle,
            stopping: false,
            pending: Seq::empty(),
        }
    }

    /// What holds of the machine between any two steps: products wait for
    /// their alert only while alerts are being delivered, and a shutdown is
    /// only ever pending while work is in hand.
    pub open spec fn inv(self) -> bool {
        &&& self.phase != Phase::Notifying ==> self.pending.len() == 0
        &&& self.stopping ==> self.phase != Phase::Idle && self.phase != Phase::Sleeping
    }

    /// Whether the machine has come to its end.
    pub open spec fn is_final(self) -> bool {
        self.phase == Phase::ShutdownComplete || self.phase == Phase::FailedExit
    }

    /// Gives up: whatever was still to be alerted on is abandoned.
    pub open spec fn fail(self, failure: FailureView) -> (MonitorView, ActionView) {
        (
            MonitorView { phase: Phase::FailedExit, pending: Seq::empty(), ..self },
            ActionView::Fail(failure),
        )
    }

    /// Ends in good order.
    pub open spec fn stop(self) -> (MonitorView, ActionView) {
        (MonitorView { phase: Phase::ShutdownComplete, ..self }, ActionView::Stop)
    }

    /// Begins a cycle: asks for the catalog.
    pub open spec fn begin_cycle(self) -> (MonitorView, ActionView) {
        match link_on(self.address, catalog_path()) {
            Ok(url) => (MonitorView { phase: Phase::Fetching, ..self }, ActionView::Fetch(url)),
            Err(error) => self.fail(FailureView::CatalogUrl(error)),
        }
    }

    /// Ends a cycle: a shutdown that was asked for meanwhile takes effect
    /// now; otherwise the machine sleeps until `next`, the schedule's next
    /// occurrence after `now_ms`.
    pub open spec fn end_cycle(self, now_ms: i64, next: Option<i64>) -> (MonitorView, ActionView) {
        if self.stopping {
            self.stop()
        } else {
            match wait_from(now_ms, next) {
                Ok(ms) => (MonitorView { phase: Phase::Sleeping, ..self }, ActionView::Sleep(ms)),
                Err(error) => self.fail(FailureView::Schedule(error)),
            }
        }
    }

    /// Hands out the alert for the next product that waits for one, or ends
    /// the cycle when none is left.
    pub open spec fn announce(self, now_ms: i64, next: Option<i64>) -> (MonitorView, ActionView) {
        if self.pending.len() == 0 {
            self.end_cycle(now_ms, next)
        } else {
            match product_alert(self.address, self.pending[0]) {
                Ok(webhook) => (
                    MonitorView {
                        phase: Phase::Notifying,
                        pending: self.pending.skip(1),
                        ..self
                    },
                    ActionView::Notify(webhook),
                ),
                Err(failure) => self.fail(FailureView::Alert(failure)),
            }
        }
    }

    /// Takes a catalog in: the snapshot is replaced by what is available in
    /// it, and the subscribed products that were not available before wait
    /// for their alert, in the order of the subscription.
    pub open spec fn observe(self, catalog: Seq<ProductView>) -> MonitorView {
        MonitorView {
            seen: snapshot_after(self.seen, catalog),
            pending: subscribed_products(self.subscribed, newly_available(self.seen, catalog)),
            ..self
        }
    }

    /// One step of the machine: the state after `event`, and the action that
    /// the caller is to take. `now_ms` is the instant of the step and `next`
    /// the schedule's next occurrence after it; both matter only where the
    /// step ends a cycle. An event that does not answer the work in hand
    /// changes nothing.
    pub open spec fn step(self, event: EventView, now_ms: i64, next: Option<i64>) -> (
        MonitorView,
        ActionView,
    ) {
        match (self.phase, event) {
            (Phase::Idle, EventView::Start) => self.begin_cycle(),
            (Phase::Idle, EventView::Shutdown) => self.stop(),
            (Phase::Fetching, EventView::Fetched(catalog)) => self.observe(catalog).announce(
                now_ms,
                next,
            ),
            (Phase::Fetching, EventView::FetchFailed) => self.fail(FailureView::Fetch),
            (Phase::Fetching, EventView::Shutdown) => (
                MonitorView { stopping: true, ..self },
                ActionView::Wait,
            ),
            (Phase::Notifying, EventView::Notified) => self.announce(now_ms, next),
            (Phase::Notifying, EventView::NotifyFailed) => self.fail(FailureView::Notify),
            (Phase::Notifying, EventView::Shutdown) => (
                MonitorView { stopping: true, ..self },
                ActionView::Wait,
            ),
            (Phase::Sleeping, EventView::Woke) => self.begin_cycle(),
            (Phase::Sleeping, EventView::Shutdown) => self.stop(),
            _ => (self, ActionView::Wait),
        }
    }
}

/// Every step keeps what holds of the machine between steps.
pub proof fn law_step_keeps_invariant(
    state: MonitorView,
    event: EventView,
    now_ms: i64,
    next: Option<i64>,
)
    requires
        state.inv(),
    ensures
        state.step(event, now_ms, next).0.inv(),
{
}

/// A machine that has come to its end stays as it is, whatever happens.
pub proof fn law_final_phases_absorb(
    state: MonitorView,
    event: EventView,
    now_ms: i64,
    next: Option<i64>,
)
    requires
        state.is_final(),
    ensures
        state.step(event, now_ms, next) == (state, ActionView::Wait),
{
}

/// Once a shutdown has been asked for, no new fetch is ever started: neither
/// by the step that takes the request, nor by any step after it.
pub proof fn law_shutdown_starts_no_fetch(
    state: MonitorView,
    event: EventView,
    now_ms: i64,
    next: Option<i64>,
)
    requires
        state.inv(),
        event is Shutdown || state.stopping,
    ensures
        !(state.step(event, now_ms, next).1 is Fetch),
        state.stopping ==> state.step(event, now_ms, next).0.stopping,
{
}

/// A step that takes a catalog in leaves as snapshot exactly what is
/// available in that catalog, whether or not the alerts can then be made;
/// no other step touches the snapshot.
pub proof fn law_snapshot_is_last_catalog(
    state: MonitorView,
    event: EventView,
    now_ms: i64,
    next: Option<i64>,
)
    ensures
        state.step(event, now_ms, next).0.seen == if state.phase == Phase::Fetching
            && event is Fetched {
            snapshot_after(state.seen, event->Fetched_0)
        } else {
            state.seen
        },
{
}

/// The poll cycle of one store for one subscription.
pub struct Monitor {
    shop: ShopifyClient,
    subscribed: Vec<i64>,
    scheduler: Scheduler,
    checker: AvailabilityChecker,
    phase: Phase,
    stopping: bool,
    pending: Vec<Product>,
}

impl View for Monitor {
    type V = MonitorView;

    closed spec fn view(&self) -> MonitorView {
        MonitorView {
            address: self.shop.address(),
            subscribed: self.subscribed@,
            expression: self.scheduler.expression(),
            seen: self.checker.last_available(),
            phase: self.phase,
            stopping: self.stopping,
            pending: self.pending.deep_view(),
        }
    }
}

impl Monitor {
    /// A machine for the store of `shop` that alerts on the products in
    /// `subscribed` and polls as `scheduler` says.
    pub fn new(shop: ShopifyClient, subscribed: Vec<i64>, scheduler: Scheduler) -> (monitor: Self)
        ensures
            monitor@ == MonitorView::initial(
                shop.address(),
                subscribed@,
                scheduler.expression(),
            ),
            monitor@.inv(),
    {
        let monitor = Monitor {
            shop,
            subscribed,
            scheduler,
            checker: AvailabilityChecker::new(),
            phase: Phase::Idle,
            stopping: false,
            pending: Vec::new(),
        };
        assert(monitor.pending.deep_view() =~= Seq::<ProductView>::empty());
        monitor
    }

    /// Where the machine stands.
    pub fn phase(&self) -> (phase: Phase)
        ensures
            phase == self@.phase,
    {
        self.phase
    }

    /// Whether the machine has come to its end.
    pub fn is_final(&self) -> (done: bool)
        ensures
            done == self@.is_final(),
    {
        self.phase == Phase::ShutdownComplete || self.phase == Phase::FailedExit
    }

    /// Counts the products of `response` that are available, and those among
    /// them that were not at the last fetch: what the step that takes
    /// `response` in will find, before the subscription is applied.
    pub fn tally(&self, response: &ProductResponse) -> (counts: (usize, usize))
        ensures
            counts.0 == available_products(response@).len(),
            counts.1 == newly_available(self@.seen, response@).len(),
    {
        self.checker.count_newly_available(response)
    }

    fn fail(&mut self, failure: Failure) -> (action: Action)
        ensures
            (final(self)@, action@) == old(self)@.fail(failure@),
    {
        self.phase = Phase::FailedExit;
        self.pending.clear();
        assert(self.pending.deep_view() =~= Seq::<ProductView>::empty());
        Action::Fail(failure)
    }

    fn stop(&mut self) -> (action: Action)
        ensures
            (final(self)@, action@) == old(self)@.stop(),
    {
        self.phase = Phase::ShutdownComplete;
        Action::Stop
    }

    fn begin_cycle(&mut self) -> (action: Action)
        ensures
            (final(self)@, action@) == old(self)@.begin_cycle(),
    {
        match self.shop.all_products_url() {
            Ok(url) => {
                self.phase = Phase::Fetching;
                Action::Fetch(url)
            },
            Err(error) => self.fail(Failure::CatalogUrl(error)),
        }
    }

    fn end_cycle(&mut self, now_ms: i64, next: Option<i64>) -> (action: Action)
        ensures
            (final(self)@, action@) == old(self)@.end_cycle(now_ms, next),
    {
        if self.stopping {
            return self.stop();
        }
        let wait = if now_ms < crate::utils::MIN_INSTANT_MS || now_ms
            > crate::utils::MAX_INSTANT_MS {
            Err(ScheduleError::Undefined)
        } else {
            delay_until(now_ms, next)
        };
        match wait {
            Ok(ms) => {
                self.phase = Phase::Sleeping;
                Action::Sleep(ms)
            },
            Err(error) => self.fail(Failure::Schedule(error)),
        }
    }

    fn announce(&mut self, now_ms: i64, next: Option<i64>) -> (action: Action)
        ensures
            (final(self)@, action@) == old(self)@.announce(now_ms, next),
    {
        if self.pending.len() == 0 {
            return self.end_cycle(now_ms, next);
        }
        let ghost waiting = self.pending.deep_view();
        let product = self.pending.remove(0);
        assert(self.pending.deep_view() =~= waiting.skip(1));
        assert(product@ == waiting[0]);
        match webhook_from_product(&self.shop, &product) {
            Ok(webhook) => {
                self.phase = Phase::Notifying;
                Action::Notify(webhook)
            },
            Err(error) => self.fail(Failure::Alert(error)),
        }
    }

    fn observe(&mut self, response: &ProductResponse)
        ensures
            final(self)@ == old(self)@.observe(response@),
    {
        let newly = self.checker.check_newly_available(response);
        self.pending = select_subscribed(&self.subscribed, &newly);
    }

    /// One step of the machine, given the schedule's next occurrence after
    /// `now_ms`: takes `event` in and says what to do next.
    pub fn step_with(&mut self, event: Event, now_ms: i64, next: Option<i64>) -> (action: Action)
        ensures
            (final(self)@, action@) == old(self)@.step(event@, now_ms, next),
    {
        match self.phase {
            Phase::Idle => match event {
                Event::Start => self.begin_cycle(),
                Event::Shutdown => self.stop(),
                _ => Action::Wait,
            },
            Phase::Fetching => match event {
                Event::Fetched(response) => {
                    self.observe(&response);
                    self.announce(now_ms, next)
                },
                Event::FetchFailed => self.fail(Failure::Fetch),
                Event::Shutdown => {
                    self.stopping = true;
                    Action::Wait
                },
                _ => Action::Wait,
            },
            Phase::Notifying => match event {
                Event::Notified => self.announce(now_ms, next),
                Event::NotifyFailed => self.fail(Failure::Notify),
                Event::Shutdown => {
                    self.stopping = true;
                    Action::Wait
                },
                _ => Action::Wait,
            },
            Phase::Sleeping => match event {
                Event::Woke => self.begin_cycle(),
                Event::Shutdown => self.stop(),
                _ => Action::Wait,
            },
            Phase::ShutdownComplete => Action::Wait,
            Phase::FailedExit => Action::Wait,
        }
    }

    /// One step of the machine at the instant `now_ms`, in milliseconds since
    /// the Unix epoch: takes `event` in and says what to do next. Where the
    /// step ends a cycle, the wait is the one until the schedule's next
    /// occurrence after `now_ms`, which the calendar of the machine decides;
    /// the step is the one that [`MonitorView::step`] describes for whatever
    /// occurrence that was.
    pub fn step(&mut self, event: Event, now_ms: i64) -> (action: Action)
        ensures
            exists|next: Option<i64>|
                (final(self)@, action@) == #[trigger] old(self)@.step(event@, now_ms, next),
            old(self)@.inv() ==> final(self)@.inv(),
    {
        let next = match self.phase {
            Phase::Fetching | Phase::Notifying => self.scheduler.next_occurrence(now_ms),
            _ => None,
        };
        proof {
            if self@.inv() {
                law_step_keeps_invariant(self@, event@, now_ms, next);
            }
        }
        self.step_with(event, now_ms, next)
    }
}

} // verus!
