//! Asynchronous call-result bridge for a foreign platform runtime.
//!
//! Host code fires a long-running foreign operation, registers interest in
//! its outcome under an opaque call handle, and receives that outcome exactly
//! once as a typed, decoded value.  A separate single-slot warning hook lets
//! the foreign runtime deliver out-of-band diagnostic notifications to a
//! host-supplied handler; a failure inside that handler must never unwind
//! back through the foreign stack frame, so the trampoline's verdict on a
//! failed delivery is controlled process termination.
//!
//! The decision logic of the bridge lives here, verified: which pending entry
//! a completion report resolves, what the callback must be handed, when a
//! dispatch is a fatal internal-consistency fault, and how the warning slot
//! routes a notification.  The thin shell that actually polls the foreign
//! runtime, stores the host's closures and performs the decided actions is
//! ordinary unverified code around this library.

use vstd::prelude::*;

pub mod codec;
pub mod dispatch;
pub mod registry;
pub mod warning;

use crate::dispatch::{dispatch_decision, dispatch_handle, dispatch_post, dispatch_tick, tick_decisions,
    tick_post, CompletionReport, DispatchAction};
use crate::registry::{CallbackToken, PendingCall, PendingRegistry, RegisterError};
use crate::warning::{installed_after, route_notification, HandlerToken, NotifyAction, WarningSlot};

verus! {

/// The bridge's whole mutable state: the pending call registry and the
/// warning hook slot.  Collaborators register interest in foreign call
/// handles here; the host's message pump drives `dispatch_tick`; the
/// foreign runtime's notifications are routed through the slot.
pub struct Bridge {
    registry: PendingRegistry,
    warning: WarningSlot,
}

impl Bridge {
    /// A fresh bridge: nothing pending, no warning handler installed.
    pub fn new() -> (b: Self)
        ensures
            b.pending() == Map::<u64, PendingCall>::empty(),
            b.warning_handler() is None,
    {
        Bridge { registry: PendingRegistry::new(), warning: WarningSlot::new() }
    }

    /// The outstanding registrations, by call handle.
    pub closed spec fn pending(&self) -> Map<u64, PendingCall> {
        self.registry@
    }

    /// The currently installed warning handler, if any.
    pub closed spec fn warning_handler(&self) -> Option<HandlerToken> {
        self.warning@
    }

    /// Registers interest in a previously issued foreign call handle: the
    /// outcome of that call is owed to `callback`, decoded under `kind`.
    /// A handle already registered is rejected and nothing changes.
    pub fn register_call_result(&mut self, handle: u64, kind: u32, callback: CallbackToken) -> (r:
        Result<(), RegisterError>)
        ensures
            final(self).warning_handler() == old(self).warning_handler(),
            old(self).pending().contains_key(handle) ==> r == Err::<(), RegisterError>(
                RegisterError::DuplicateHandle,
            ) && final(self).pending() == old(self).pending(),
            !old(self).pending().contains_key(handle) ==> r == Ok::<(), RegisterError>(())
                && final(self).pending() == old(self).pending().insert(
                handle,
                PendingCall { kind, callback },
            ),
    {
        self.registry.register(handle, kind, callback)
    }

    /// Installs the process-wide diagnostic handler, fully replacing any
    /// prior one.
    pub fn set_warning_handler(&mut self, handler: HandlerToken)
        ensures
            final(self).pending() == old(self).pending(),
            final(self).warning_handler() == installed_after(
                old(self).warning_handler(),
                handler,
            ),
            final(self).warning_handler() == Some(handler),
    {
        self.warning.install(handler);
    }

    /// Resolves one handle's readiness report and returns the decided
    /// action for the shell to perform.
    pub fn handle_completion(&mut self, handle: u64, report: &CompletionReport) -> (action:
        DispatchAction)
        ensures
            final(self).warning_handler() == old(self).warning_handler(),
            final(self).pending() == dispatch_post(old(self).pending(), handle, *report),
            action == dispatch_decision(old(self).pending(), handle, *report),
    {
        dispatch_handle(&mut self.registry, handle, report)
    }

    /// One dispatch tick over every readiness report the shell gathered,
    /// in order; returns one decided action per report, aligned.
    pub fn dispatch_tick(&mut self, reports: &Vec<(u64, CompletionReport)>) -> (actions: Vec<
        DispatchAction,
    >)
        ensures
            final(self).warning_handler() == old(self).warning_handler(),
            final(self).pending() == tick_post(old(self).pending(), reports@),
            actions@ == tick_decisions(old(self).pending(), reports@),
    {
        dispatch_tick(&mut self.registry, reports)
    }

    /// Routes one foreign diagnostic notification: delivered verbatim to
    /// the installed handler, or ignored when none is installed.
    pub fn on_notification(&self, level: i32, message: String) -> (action: NotifyAction)
        ensures
            self.warning_handler() is None ==> action is Ignore,
            self.warning_handler() matches Some(handler) ==> action == (NotifyAction::Deliver {
                handler,
                level,
                message,
            }),
    {
        route_notification(&self.warning, level, message)
    }
}

/// How the platform overlay's store page treats the shopping cart when a
/// collaborator opens it for an item.
pub enum OverlayToStoreFlag {
    ShowOnly,
    AddToCart,
    AddToCartAndShow,
}

impl OverlayToStoreFlag {
    /// Numeric code the foreign runtime uses for this flag.
    pub fn code(&self) -> (c: u32)
        ensures
            c == match *self {
                OverlayToStoreFlag::ShowOnly => 0u32,
                OverlayToStoreFlag::AddToCart => 1u32,
                OverlayToStoreFlag::AddToCartAndShow => 2u32,
            },
    {
        match *self {
            OverlayToStoreFlag::ShowOnly => 0,
            OverlayToStoreFlag::AddToCart => 1,
            OverlayToStoreFlag::AddToCartAndShow => 2,
        }
    }
}

} // verus!
