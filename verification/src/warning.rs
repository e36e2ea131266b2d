//! Warning hook registry and panic-contained trampoline.  The slot is the
//! process-wide holder of zero or one diagnostic handler; it starts empty,
//! is replaced whole — never partially — and is read on every
//! foreign-initiated notification.  The trampoline routes a notification to
//! the installed handler, and when the unverified containment boundary
//! reports that the handler failed, the verdict is a single diagnostic line
//! followed by unconditional process termination: a host-side unwind must
//! never travel back through the foreign runtime's stack frame.

use vstd::prelude::*;
use vstd::string::StringExecFns;

verus! {

/// Names one host-supplied diagnostic handler.  The bridge decides which
/// token's handler a notification goes to; the unverified shell keeps the
/// token-to-closure table and performs the call inside its containment
/// boundary.
#[derive(Clone, Copy, PartialEq, Eq, Structural, Debug)]
pub struct HandlerToken(pub u64);

/// Slot contents after a handler is installed: exactly the new handler,
/// whatever was there before.
pub open spec fn installed_after(prev: Option<HandlerToken>, handler: HandlerToken) -> Option<
    HandlerToken,
> {
    Some(handler)
}

/// Process-wide single-slot holder of the current diagnostic handler.
pub struct WarningSlot {
    handler: Option<HandlerToken>,
}

impl View for WarningSlot {
    type V = Option<HandlerToken>;

    closed spec fn view(&self) -> Option<HandlerToken> {
        self.handler
    }
}

impl WarningSlot {
    /// A fresh slot holds no handler.
    pub fn new() -> (s: Self)
        ensures
            s@ is None,
    {
        WarningSlot { handler: None }
    }

    /// Installs `handler`, fully replacing whatever the slot held: after
    /// the call the slot holds exactly the new handler and is never empty.
    pub fn install(&mut self, handler: HandlerToken)
        ensures
            final(self)@ == installed_after(old(self)@, handler),
            final(self)@ == Some(handler),
    {
        self.handler = Some(handler);
    }

    /// The handler currently installed, if any.
    pub fn current(&self) -> (h: Option<HandlerToken>)
        ensures
            h == self@,
    {
        self.handler
    }
}

/// What a foreign-initiated notification must lead to: nothing when no
/// handler is installed, otherwise the installed handler receives exactly
/// the severity level and message the foreign runtime delivered.
#[derive(Clone, PartialEq, Eq, Debug)]
pub enum NotifyAction {
    /// No handler is installed; the trampoline returns normally.
    Ignore,
    /// The named handler must be invoked with this level and message.
    Deliver { handler: HandlerToken, level: i32, message: String },
}

/// Routes one foreign notification through the slot: delivered verbatim to
/// the installed handler, or ignored when the slot is empty.
pub fn route_notification(slot: &WarningSlot, level: i32, message: String) -> (action:
    NotifyAction)
    ensures
        slot@ is None ==> action is Ignore,
        slot@ matches Some(handler) ==> action == (NotifyAction::Deliver {
            handler,
            level,
            message,
        }),
{
    match slot.current() {
        None => NotifyAction::Ignore,
        Some(handler) => NotifyAction::Deliver { handler, level, message },
    }
}

/// What the containment boundary observed of one handler invocation:
/// normal completion, or a caught panic with the text it carried, if any.
#[derive(Clone, PartialEq, Eq, Debug)]
pub enum HandlerRun {
    Completed,
    Panicked { detail: Option<String> },
}

/// The trampoline's verdict on one delivery: resume normally, or emit the
/// one diagnostic line and terminate the process immediately.
#[derive(Clone, PartialEq, Eq, Debug)]
pub enum TrampolineVerdict {
    Resume,
    Terminate { diagnostic: String },
}

/// The single diagnostic line a failed handler invocation produces.
pub open spec fn panic_diagnostic(detail: Option<String>) -> Seq<char> {
    match detail {
        Some(msg) => "warning callback panicked: "@ + msg@,
        None => "warning callback panicked"@,
    }
}

/// Decides the trampoline's verdict on a delivery.  A completed invocation
/// resumes; a panicked one is never resumed — the verdict carries exactly
/// one diagnostic line, and the shell must terminate the process after
/// emitting it, since unwinding through the foreign frame is unsafe.
pub fn conclude_delivery(run: HandlerRun) -> (verdict: TrampolineVerdict)
    ensures
        run is Completed <==> verdict is Resume,
        run matches HandlerRun::Panicked { detail } ==> verdict matches
            TrampolineVerdict::Terminate { diagnostic } && diagnostic@ == panic_diagnostic(detail),
{
    match run {
        HandlerRun::Completed => TrampolineVerdict::Resume,
        HandlerRun::Panicked { detail } => {
            let diagnostic = match detail {
                Some(msg) => {
                    let mut line = String::from_str("warning callback panicked: ");
                    line.append(msg.as_str());
                    line
                },
                None => String::from_str("warning callback panicked"),
            };
            TrampolineVerdict::Terminate { diagnostic }
        },
    }
}

/// Installing a handler is total and atomic at the slot's granularity:
/// whichever of two installations lands last, the slot afterwards holds
/// exactly one of the two handlers whole — never a mixture — and once any
/// handler has been installed the slot is never again observed empty.
pub proof fn lemma_replacement_total(
    prev: Option<HandlerToken>,
    first: HandlerToken,
    second: HandlerToken,
)
    ensures
        installed_after(installed_after(prev, first), second) == Some(second),
        installed_after(installed_after(prev, second), first) == Some(first),
        ({
            let after_both = installed_after(installed_after(prev, first), second);
            after_both == Some(first) || after_both == Some(second)
        }),
        installed_after(prev, first) is Some,
{
}

} // verus!
