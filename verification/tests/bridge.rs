use call_bridge::codec::{
    expected_payload_len, u64_from_le, CallOutcome, DecodedValue, KIND_PERCENT_READY,
};
use call_bridge::dispatch::{BridgeFault, CompletionReport, DispatchAction};
use call_bridge::registry::{CallbackToken, PendingRegistry, RegisterError};
use call_bridge::warning::{
    conclude_delivery, route_notification, HandlerRun, HandlerToken, NotifyAction,
    TrampolineVerdict, WarningSlot,
};
use call_bridge::{Bridge, OverlayToStoreFlag};

fn le_bytes(value: u64) -> Vec<u8> {
    let mut bytes = Vec::new();
    let mut rest = value;
    for _ in 0..8 {
        bytes.push((rest & 0xFF) as u8);
        rest >>= 8;
    }
    bytes
}

#[test]
fn percent_ready_success_delivers_decoded_game_id() {
    let mut bridge = Bridge::new();
    let callback = CallbackToken(7);
    assert_eq!(bridge.register_call_result(42, 10, callback), Ok(()));

    let report = CompletionReport::Ready {
        io_error: false,
        payload: le_bytes(123456),
    };
    let action = bridge.handle_completion(42, &report);
    assert_eq!(
        action,
        DispatchAction::Invoke {
            callback,
            outcome: CallOutcome::Success {
                value: DecodedValue::GameId(123456),
            },
        }
    );

    // The handle is no longer present afterward: a repeated report is
    // dropped silently and no second invocation is decided.
    let again = bridge.handle_completion(42, &report);
    assert_eq!(again, DispatchAction::Dropped);
}

#[test]
fn io_failure_reaches_callback_without_decoding() {
    let mut bridge = Bridge::new();
    let callback = CallbackToken(9);
    assert_eq!(bridge.register_call_result(42, 10, callback), Ok(()));

    // A payload of the wrong length would be a fatal fault if it were ever
    // decoded; with the I/O failure flag set it must never be looked at.
    let report = CompletionReport::Ready {
        io_error: true,
        payload: vec![1, 2, 3],
    };
    let action = bridge.handle_completion(42, &report);
    assert_eq!(
        action,
        DispatchAction::Invoke {
            callback,
            outcome: CallOutcome::IoFailure,
        }
    );
    let again = bridge.handle_completion(42, &report);
    assert_eq!(again, DispatchAction::Dropped);
}

#[test]
fn not_ready_retains_entry_until_it_fires() {
    let mut bridge = Bridge::new();
    let callback = CallbackToken(1);
    assert_eq!(bridge.register_call_result(5, 10, callback), Ok(()));

    assert_eq!(
        bridge.handle_completion(5, &CompletionReport::NotReady),
        DispatchAction::Retain
    );

    let ready = CompletionReport::Ready {
        io_error: false,
        payload: le_bytes(99),
    };
    assert_eq!(
        bridge.handle_completion(5, &ready),
        DispatchAction::Invoke {
            callback,
            outcome: CallOutcome::Success {
                value: DecodedValue::GameId(99),
            },
        }
    );
}

#[test]
fn unregistered_handle_report_is_dropped_silently() {
    let mut bridge = Bridge::new();
    let report = CompletionReport::Ready {
        io_error: false,
        payload: le_bytes(0),
    };
    assert_eq!(bridge.handle_completion(77, &report), DispatchAction::Dropped);
}

#[test]
fn duplicate_registration_is_rejected_and_first_entry_kept() {
    let mut bridge = Bridge::new();
    let first = CallbackToken(1);
    let second = CallbackToken(2);
    assert_eq!(bridge.register_call_result(42, 10, first), Ok(()));
    assert_eq!(
        bridge.register_call_result(42, 10, second),
        Err(RegisterError::DuplicateHandle)
    );

    // The first registration still owns the outcome.
    let report = CompletionReport::Ready {
        io_error: true,
        payload: Vec::new(),
    };
    assert_eq!(
        bridge.handle_completion(42, &report),
        DispatchAction::Invoke {
            callback: first,
            outcome: CallOutcome::IoFailure,
        }
    );
}

#[test]
fn completion_of_one_handle_never_touches_another() {
    let mut bridge = Bridge::new();
    let cb1 = CallbackToken(1);
    let cb2 = CallbackToken(2);
    assert_eq!(bridge.register_call_result(1, 10, cb1), Ok(()));
    assert_eq!(bridge.register_call_result(2, 10, cb2), Ok(()));

    let report = CompletionReport::Ready {
        io_error: false,
        payload: le_bytes(10),
    };
    let action = bridge.handle_completion(1, &report);
    assert_eq!(
        action,
        DispatchAction::Invoke {
            callback: cb1,
            outcome: CallOutcome::Success {
                value: DecodedValue::GameId(10),
            },
        }
    );

    // The other handle is still pending and fires with its own callback.
    let action2 = bridge.handle_completion(2, &report);
    assert_eq!(
        action2,
        DispatchAction::Invoke {
            callback: cb2,
            outcome: CallOutcome::Success {
                value: DecodedValue::GameId(10),
            },
        }
    );
}

#[test]
fn payload_size_mismatch_is_a_fatal_fault() {
    let mut bridge = Bridge::new();
    assert_eq!(bridge.register_call_result(8, 10, CallbackToken(3)), Ok(()));
    let report = CompletionReport::Ready {
        io_error: false,
        payload: vec![1, 2, 3, 4, 5, 6, 7],
    };
    assert_eq!(
        bridge.handle_completion(8, &report),
        DispatchAction::Fatal {
            fault: BridgeFault::PayloadSizeMismatch {
                kind: 10,
                expected: 8,
                actual: 7,
            },
        }
    );
}

#[test]
fn unknown_kind_is_a_fatal_fault() {
    let mut bridge = Bridge::new();
    assert_eq!(bridge.register_call_result(8, 99, CallbackToken(3)), Ok(()));
    let report = CompletionReport::Ready {
        io_error: false,
        payload: le_bytes(0),
    };
    assert_eq!(
        bridge.handle_completion(8, &report),
        DispatchAction::Fatal {
            fault: BridgeFault::UnknownKind { kind: 99 },
        }
    );
}

#[test]
fn tick_resolves_reports_in_order() {
    let mut bridge = Bridge::new();
    let cb1 = CallbackToken(1);
    let cb2 = CallbackToken(2);
    assert_eq!(bridge.register_call_result(1, 10, cb1), Ok(()));
    assert_eq!(bridge.register_call_result(2, 10, cb2), Ok(()));

    let reports = vec![
        (1u64, CompletionReport::NotReady),
        (
            2u64,
            CompletionReport::Ready {
                io_error: false,
                payload: le_bytes(123456),
            },
        ),
        // Handle 2 again in the same tick: the entry was already taken, so
        // the second report must be dropped without a second invocation.
        (
            2u64,
            CompletionReport::Ready {
                io_error: false,
                payload: le_bytes(123456),
            },
        ),
        (9u64, CompletionReport::NotReady),
    ];
    let actions = bridge.dispatch_tick(&reports);
    assert_eq!(
        actions,
        vec![
            DispatchAction::Retain,
            DispatchAction::Invoke {
                callback: cb2,
                outcome: CallOutcome::Success {
                    value: DecodedValue::GameId(123456),
                },
            },
            DispatchAction::Dropped,
            DispatchAction::Retain,
        ]
    );
}

#[test]
fn decoder_reads_little_endian_bytes_exactly() {
    let payload = vec![0x01, 0x02, 0x03, 0x04, 0x05, 0x06, 0x07, 0x08];
    assert_eq!(u64_from_le(&payload), 0x0807060504030201);
    assert_eq!(u64_from_le(&le_bytes(123456)), 123456);
    assert_eq!(expected_payload_len(KIND_PERCENT_READY), Some(8));
    assert_eq!(expected_payload_len(99), None);
}

#[test]
fn registry_take_is_exclusive() {
    let mut registry = PendingRegistry::new();
    assert_eq!(registry.len(), 0);
    assert_eq!(registry.register(3, 10, CallbackToken(4)), Ok(()));
    assert!(registry.contains(3));
    assert_eq!(registry.len(), 1);

    let entry = registry.take(3).expect("entry must be present");
    assert_eq!(entry.kind, 10);
    assert_eq!(entry.callback, CallbackToken(4));

    // A second take on the same handle finds nothing.
    assert!(registry.take(3).is_none());
    assert!(!registry.contains(3));
    assert_eq!(registry.len(), 0);
}

#[test]
fn warning_handler_receives_level_and_message_verbatim() {
    let mut slot = WarningSlot::new();
    let w1 = HandlerToken(1);
    slot.install(w1);

    let mut recorded: Vec<(i32, String)> = Vec::new();
    match route_notification(&slot, 1, String::from("low disk space")) {
        NotifyAction::Deliver {
            handler,
            level,
            message,
        } => {
            assert_eq!(handler, w1);
            recorded.push((level, message));
        }
        NotifyAction::Ignore => panic!("an installed handler must receive the notification"),
    }
    assert_eq!(recorded, vec![(1, String::from("low disk space"))]);
}

#[test]
fn empty_slot_ignores_notifications() {
    let slot = WarningSlot::new();
    assert_eq!(
        route_notification(&slot, 0, String::from("hello")),
        NotifyAction::Ignore
    );
}

#[test]
fn panicking_handler_yields_one_diagnostic_and_termination() {
    let mut slot = WarningSlot::new();
    let w2 = HandlerToken(2);
    slot.install(w2);

    // The handler would raise an internal failure on level 1; the shell's
    // containment boundary reports the caught panic back to the bridge.
    let action = route_notification(&slot, 1, String::from("low disk space"));
    assert!(matches!(action, NotifyAction::Deliver { level: 1, .. }));

    let verdict = conclude_delivery(HandlerRun::Panicked {
        detail: Some(String::from("level 1 is not tolerated")),
    });
    match verdict {
        TrampolineVerdict::Terminate { diagnostic } => {
            assert_eq!(diagnostic, "warning callback panicked: level 1 is not tolerated");
            // Exactly one line.
            assert!(!diagnostic.contains('\n'));
        }
        TrampolineVerdict::Resume => panic!("a panicked handler must never resume"),
    }

    let bare = conclude_delivery(HandlerRun::Panicked { detail: None });
    assert_eq!(
        bare,
        TrampolineVerdict::Terminate {
            diagnostic: String::from("warning callback panicked"),
        }
    );
}

#[test]
fn overlay_store_flag_codes() {
    assert_eq!(OverlayToStoreFlag::ShowOnly.code(), 0);
    assert_eq!(OverlayToStoreFlag::AddToCart.code(), 1);
    assert_eq!(OverlayToStoreFlag::AddToCartAndShow.code(), 2);
}

#[test]
fn completed_handler_resumes() {
    assert_eq!(
        conclude_delivery(HandlerRun::Completed),
        TrampolineVerdict::Resume
    );
}

#[test]
fn replacing_the_handler_leaves_exactly_the_later_one() {
    let mut bridge = Bridge::new();
    let a = HandlerToken(1);
    let b = HandlerToken(2);
    bridge.set_warning_handler(a);
    bridge.set_warning_handler(b);

    // Exactly one of the two handlers is installed — the later one, whole —
    // and the slot is never observed empty once any handler was installed.
    match bridge.on_notification(0, String::from("ping")) {
        NotifyAction::Deliver { handler, .. } => assert_eq!(handler, b),
        NotifyAction::Ignore => panic!("slot must not be empty after installs"),
    }
}
