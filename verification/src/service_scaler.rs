//! A scaler that only has an address or none, and is asked to launch the service
//! when it has none.

use crate::address::IpAddr;
use vstd::prelude::*;

verus! {

/// How often the worker looks at the service when nothing happens, in seconds.
pub const IDLE_SECS: u64 = 30;

/// A request that waits for the address of the service.
#[derive(Debug, Clone, Copy, PartialEq, Eq, Structural)]
pub enum ServiceScaler {
    /// The address is looked at.
    Looking,
    /// The launch is marked as asked for, and it is found out whether it already was.
    Marking,
    /// The address has to change.
    Waiting,
    /// The request has the address.
    Done,
    /// No address will ever come.
    Never,
}

/// Something that the request was waiting for.
#[derive(Debug)]
pub enum TargetEvent {
    /// The address of the service, if it has one.
    Address(Option<IpAddr>),
    /// Whether the launch had already been asked for when it was marked.
    Marked { already_pending: bool },
    /// Whether the address changed; otherwise the worker is gone.
    Changed(bool),
}

/// What the request does next.
#[derive(Debug)]
pub enum TargetAction {
    /// Look at the address.
    ReadAddress,
    /// Mark the launch as asked for.
    MarkPending,
    /// Wake the worker where `notify` says so, then wait until the address changes.
    AwaitChange { notify: bool },
    /// Go on to the address.
    Return(IpAddr),
    /// Wait for ever.
    Pend,
}

impl ServiceScaler {
    /// The event answers what the request is waiting for.
    pub open spec fn accepts(self, event: TargetEvent) -> bool {
        match event {
            TargetEvent::Address(_) => self is Looking,
            TargetEvent::Marked { .. } => self is Marking,
            TargetEvent::Changed(_) => self is Waiting,
        }
    }

    /// The request after `event`, and what it does next.
    pub open spec fn next(self, event: TargetEvent) -> (ServiceScaler, TargetAction) {
        match event {
            TargetEvent::Address(Some(addr)) => (
                ServiceScaler::Done,
                TargetAction::Return(addr),
            ),
            TargetEvent::Address(None) => (ServiceScaler::Marking, TargetAction::MarkPending),
            TargetEvent::Marked { already_pending } => (
                ServiceScaler::Waiting,
                TargetAction::AwaitChange { notify: !already_pending },
            ),
            TargetEvent::Changed(true) => (ServiceScaler::Looking, TargetAction::ReadAddress),
            TargetEvent::Changed(false) => (ServiceScaler::Never, TargetAction::Pend),
        }
    }

    /// Starts to wait for the address of the service.
    pub fn start() -> (r: (ServiceScaler, TargetAction))
        ensures
            r == (ServiceScaler::Looking, TargetAction::ReadAddress),
    {
        (ServiceScaler::Looking, TargetAction::ReadAddress)
    }

    /// Whether `target_addr` takes the event.
    pub fn accepts_event(&self, event: &TargetEvent) -> (r: bool)
        ensures
            r == self.accepts(*event),
    {
        match event {
            TargetEvent::Address(_) => matches!(*self, ServiceScaler::Looking),
            TargetEvent::Marked { .. } => matches!(*self, ServiceScaler::Marking),
            TargetEvent::Changed(_) => matches!(*self, ServiceScaler::Waiting),
        }
    }

    /// Waits for the address of the service, one event at a time. Where there is
    /// none, the service is asked to be launched, unless it already was.
    pub fn target_addr(&mut self, event: TargetEvent) -> (r: TargetAction)
        requires
            old(self).accepts(event),
        ensures
            (*final(self), r) == old(self).next(event),
    {
        match event {
            TargetEvent::Address(Some(addr)) => {
                *self = ServiceScaler::Done;
                TargetAction::Return(addr)
            },
            TargetEvent::Address(None) => {
                *self = ServiceScaler::Marking;
                TargetAction::MarkPending
            },
            TargetEvent::Marked { already_pending } => {
                *self = ServiceScaler::Waiting;
                TargetAction::AwaitChange { notify: !already_pending }
            },
            TargetEvent::Changed(alive) => {
                if alive {
                    *self = ServiceScaler::Looking;
                    TargetAction::ReadAddress
                } else {
                    *self = ServiceScaler::Never;
                    TargetAction::Pend
                }
            },
        }
    }
}

/// Of the requests that mark the launch as asked for, one after the other, only the
/// first wakes the worker, and none where it was marked before.
pub proof fn law_worker_is_woken_once(marked_before: bool, already_pending: Seq<bool>, i: int)
    requires
        forall|k: int|
            0 <= k < already_pending.len() ==> #[trigger] already_pending[k] == (marked_before || k
                > 0),
        0 <= i < already_pending.len(),
    ensures
        ServiceScaler::Marking.next(
            TargetEvent::Marked { already_pending: already_pending[i] },
        ).1 == (TargetAction::AwaitChange { notify: !marked_before && i == 0 }),
{
}

/// A request goes on at once where there is an address, and otherwise marks the
/// launch as asked for, waits for a change, and looks again.
pub proof fn law_request_waits_for_address(addr: IpAddr, already_pending: bool)
    ensures
        ServiceScaler::Looking.next(TargetEvent::Address(Some(addr))) == (
            ServiceScaler::Done,
            TargetAction::Return(addr),
        ),
        ServiceScaler::Looking.next(TargetEvent::Address(None)) == (
            ServiceScaler::Marking,
            TargetAction::MarkPending,
        ),
        ServiceScaler::Marking.next(TargetEvent::Marked { already_pending }).0
            == ServiceScaler::Waiting,
        ServiceScaler::Waiting.next(TargetEvent::Changed(true)) == (
            ServiceScaler::Looking,
            TargetAction::ReadAddress,
        ),
{
}

/// The worker ends exactly when no one is left who could see an address, and
/// otherwise waits for thirty seconds.
pub proof fn law_launcher_waits_thirty_seconds(event: WorkerEvent)
    ensures
        event == WorkerEvent::Closed <==> after_worker_event(event) == WorkerAction::Stop,
        event == WorkerEvent::Notified || event == WorkerEvent::Idle <==> after_worker_event(event)
            == WorkerAction::Wait(30),
{
}

/// The event can follow when the request does `action`.
pub open spec fn is_answer(action: TargetAction, event: TargetEvent) -> bool {
    match action {
        TargetAction::ReadAddress => event is Address,
        TargetAction::MarkPending => event is Marked,
        TargetAction::AwaitChange { .. } => event is Changed,
        TargetAction::Return(_) | TargetAction::Pend => false,
    }
}

/// A request takes every answer to what it does.
pub proof fn law_request_takes_every_answer(
    scaler: ServiceScaler,
    event: TargetEvent,
    answer: TargetEvent,
)
    requires
        scaler.accepts(event),
    ensures
        is_answer(scaler.next(event).1, answer) ==> scaler.next(event).0.accepts(answer),
        answer is Address ==> ServiceScaler::Looking.accepts(answer),
{
}

/// A request whose worker is gone never completes: it takes no event any more.
pub proof fn law_gone_worker_is_awaited_for_ever(scaler: ServiceScaler, event: TargetEvent)
    requires
        scaler.accepts(TargetEvent::Changed(false)),
    ensures
        scaler.next(TargetEvent::Changed(false)).1 is Pend,
        !scaler.next(TargetEvent::Changed(false)).0.accepts(event),
{
}

/// A request goes on only to an address that the service has.
pub proof fn law_only_known_address_is_returned(
    scaler: ServiceScaler,
    event: TargetEvent,
    addr: IpAddr,
)
    requires
        scaler.accepts(event),
        scaler.next(event).1 == TargetAction::Return(addr),
    ensures
        event == TargetEvent::Address(Some(addr)),
{
}

/// Something that the worker was waiting for.
#[derive(Debug, Clone, Copy, PartialEq, Eq, Structural)]
pub enum WorkerEvent {
    /// A request woke the worker.
    Notified,
    /// Nothing happened for `IDLE_SECS` seconds.
    Idle,
    /// No one is left who could see the address.
    Closed,
}

/// What the worker does next.
#[derive(Debug, Clone, Copy, PartialEq, Eq, Structural)]
pub enum WorkerAction {
    /// Wait to be woken, for so many seconds, or until no one sees the address.
    Wait(u64),
    Stop,
}

/// What the worker does after `event`: it goes on waiting as long as there is
/// anyone who could see an address.
pub open spec fn after_worker_event(event: WorkerEvent) -> WorkerAction {
    if event is Closed {
        WorkerAction::Stop
    } else {
        WorkerAction::Wait(IDLE_SECS)
    }
}

/// What the worker does after `event`.
pub fn run_scaler(event: WorkerEvent) -> (r: WorkerAction)
    ensures
        r == after_worker_event(event),
{
    match event {
        WorkerEvent::Closed => WorkerAction::Stop,
        _ => WorkerAction::Wait(IDLE_SECS),
    }
}

} // verus!
