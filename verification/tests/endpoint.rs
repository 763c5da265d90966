//! Handle admission, command routing, published state, delivery and diagnostics
//! on real queues, semaphores and latest-value cells.

use hsms::api::{
    ControlIntent, InboundPrimary, InboundProtocolError, InboundToken, MessageContext,
    PrimaryMessage, ReplyIntent, ReplyToken, SecondaryMessage, SendReceipt,
};
use hsms::config::{ConnectionMode, EndpointConfig, EndpointLimits, RuntimePolicy};
use hsms::endpoint::command::{
    receipt, stopped_receipt, Acknowledgement, Envelope, LifecycleCommand, LifecycleIntent,
    LifecycleReceipt, ListenAddress, StartReceipt,
};
use hsms::endpoint::data::{
    primary_route, settle_primary, settle_request, settle_send, MessageError,
};
use hsms::endpoint::diagnostics::{
    close_reason, DiagnosticCounters, DiagnosticEvent, DiagnosticPublisher,
};
use hsms::endpoint::error::EndpointError;
use hsms::endpoint::handle::{
    control_route, disconnect_route, refuse_handover, refuse_plain, settle, settle_start,
    EndpointParts, Handover, HsmsEndpoint, Observed, Ticket,
};
use hsms::endpoint::receiver::{queue_charge, usable};
use hsms::endpoint::reply::{
    settle_reply, settle_written, ReplyAdmissionReason, ReplyError,
};
use hsms::endpoint::runtime::{
    map_error, AttemptEnd, GenerationFacts, HsmsRuntime, Route, RuntimeStep, SupervisorError,
    SupervisorFacts,
};
use hsms::error::{ConfigError, NonZeroStatus, OperationError, TimeoutKind};
use hsms::generation::driver::command::DriverCommandResult;
use hsms::generation::driver::ports::ProtocolNotice;
use hsms::generation::event_port::{ApplicationEventPort, EventPublishError};
use hsms::generation::runtime::SessionExit;
use hsms::generation::transport::tasks::{CleanupPoison, CleanupResult};
use hsms::lifecycle::state::{
    ConnectionCloseReason, EndpointPhase, GenerationSlotSnapshot, RunningIntent, SessionState,
};
use hsms::model::ids::{ConnectionGeneration, Function, Stream};
use hsms::model::runtime::{CommunicationsTimeoutKind, GenerationCloseReason};
use hsms::protocol::violation::{HeaderViolationKind, InboundViolationKind};
use hsms::secs2::{SecsItem, SecsItemError};
use hsms::sync::semaphore::MAX_PERMITS;
use tokio::sync::oneshot;

fn limits() -> EndpointLimits {
    EndpointLimits {
        max_message_length: 100,
        command_capacity: 2,
        reply_capacity: 1,
        application_event_capacity: 2,
        protocol_error_capacity: 1,
        diagnostic_capacity: 2,
        command_bytes: 40,
        reply_bytes: 20,
        primary_queue_bytes: 40,
        data_lane_capacity: 2,
        critical_lane_capacity: 1,
    }
}

fn config(limits: EndpointLimits) -> EndpointConfig {
    EndpointConfig {
        mode: ConnectionMode::Passive,
        limits,
        t8: 5_000_000_000,
        runtime: RuntimePolicy {
            auto_select: true,
            write_bytes: 200,
            inbound_bytes: 200,
            residence: 30_000_000_000,
            write: 1_000_000_000,
            drain: 1_000_000_000,
            cleanup: 1_000_000_000,
            shutdown: 2_000_000_000,
        },
    }
}

fn build() -> EndpointParts {
    HsmsEndpoint::build(config(limits())).ok().unwrap()
}

fn generation(value: u64) -> ConnectionGeneration {
    ConnectionGeneration::new(value)
}

fn connected(value: u64) -> SupervisorFacts {
    SupervisorFacts {
        faulted: false,
        running: true,
        current: Some(GenerationFacts {
            generation: generation(value),
            draining: false,
            transport_closed: false,
            session: Some(SessionState::Selected),
        }),
    }
}

fn draining(value: u64) -> SupervisorFacts {
    SupervisorFacts {
        current: Some(GenerationFacts {
            draining: true,
            ..connected(value).current.unwrap()
        }),
        ..connected(value)
    }
}

const STOPPED: SupervisorFacts = SupervisorFacts {
    faulted: false,
    running: false,
    current: None,
};

fn faulted() -> SupervisorFacts {
    SupervisorFacts {
        faulted: true,
        ..connected(4)
    }
}

fn primary(body: Option<SecsItem>) -> PrimaryMessage {
    PrimaryMessage::new(Stream::new(1).unwrap(), Function::new(1), body)
}

fn body(length: usize) -> Option<SecsItem> {
    Some(SecsItem::new(vec![0; length]))
}

fn token(normal_secondary: bool) -> ReplyToken {
    ReplyToken::from_core(1, 9, generation(4), normal_secondary)
}

fn taken(ticket: &mut Ticket) -> Acknowledgement {
    ticket.answer.try_recv().unwrap()
}

fn exit(cleanup: CleanupResult) -> SessionExit {
    SessionExit {
        generation: generation(4),
        reason: GenerationCloseReason::LocalDisconnect,
        cleanup,
    }
}

fn inbound(body: Option<SecsItem>) -> InboundPrimary {
    InboundPrimary::new(
        primary(body),
        InboundToken::Data,
        MessageContext::from_header(generation(4), [0; 10]),
    )
}

fn protocol_error() -> InboundProtocolError {
    InboundProtocolError::new(
        MessageContext::from_header(generation(4), [0; 10]),
        InboundViolationKind::Header(HeaderViolationKind::InvalidField { index: 2 }),
        None,
    )
}

fn command(parts: &mut EndpointParts) -> LifecycleCommand {
    parts.commands.try_recv().ok().unwrap()
}

/// Hands a command over and takes it out of the queue again.
fn routed_command(
    parts: &mut EndpointParts,
    intent: LifecycleIntent,
) -> (Ticket, LifecycleCommand) {
    let ticket = match intent {
        LifecycleIntent::Data {
            message,
            reply_expected,
            ..
        } => parts
            .handle
            .submit_primary(message, reply_expected)
            .ok()
            .unwrap(),
        LifecycleIntent::Reply {
            intent,
            token,
            body,
            ..
        } => parts.handle.submit_reply(intent, token, body).ok().unwrap(),
        intent => parts.handle.submit(intent).ok().unwrap(),
    };
    let command = command(parts);
    (ticket, command)
}

struct Fixture {
    parts: EndpointParts,
    runtime: HsmsRuntime,
}

/// An endpoint whose runtime published these facts.
fn fixture(facts: SupervisorFacts) -> Fixture {
    let mut parts = build();
    let (state, _) = tokio::sync::watch::channel(parts.handle.snapshot());
    let state = std::mem::replace(&mut parts.state, state);
    let mut runtime = HsmsRuntime::new(false, state);
    runtime.publish_state(facts).unwrap();
    Fixture { parts, runtime }
}

/// Without a connection nothing with content is admitted, and it comes back.
#[test]
fn content_needs_a_connection() {
    let parts = build();
    let error = parts
        .handle
        .submit_primary(primary(body(3)), true)
        .err()
        .unwrap();
    assert_eq!(error.error(), &EndpointError::NotConnected);
    assert_eq!(error.message(), Some(&primary(body(3))));
    assert_eq!(
        error.into_parts(),
        (EndpointError::NotConnected, Some(primary(body(3))))
    );
    let error = parts
        .handle
        .submit_reply(ReplyIntent::Secondary, token(true), body(3))
        .err()
        .unwrap();
    assert_eq!(error.error(), &EndpointError::NotConnected);
    assert_eq!(
        error.admission().unwrap().reason(),
        ReplyAdmissionReason::NotConnected
    );
    let (_, admission) = error.into_parts();
    assert_eq!(admission.unwrap().into_parts(), (token(true), body(3)));
    assert_eq!(
        parts.handle.submit_control(ControlIntent::Select).err(),
        Some(EndpointError::NotConnected)
    );
}

/// A primary is sent to the generation that was visible, within count and bytes.
#[test]
fn primaries_are_bounded_by_count_and_bytes() {
    let mut fixture = fixture(connected(4));
    let handle = &fixture.parts.handle;
    assert_eq!(
        handle.snapshot().generation(),
        GenerationSlotSnapshot::Open(generation(4))
    );
    assert_eq!(handle.primary_charge(&primary(body(3))), Ok(17));
    let first = handle.submit_primary(primary(body(3)), true);
    assert!(first.is_ok());
    let error = handle
        .submit_primary(primary(body(20)), false)
        .err()
        .unwrap();
    assert_eq!(error.error(), &EndpointError::Backpressure);
    let second = handle.submit_primary(primary(None), false);
    assert!(second.is_ok());
    let error = handle.submit_primary(primary(None), false).err().unwrap();
    assert_eq!(error.error(), &EndpointError::Backpressure);
    let LifecycleCommand { intent, envelope } = command(&mut fixture.parts);
    assert_eq!(
        intent,
        LifecycleIntent::Data {
            generation: generation(4),
            message: primary(body(3)),
            reply_expected: true,
        }
    );
    assert_eq!(envelope.permit.num_permits(), 1);
    assert_eq!(envelope.bytes.as_ref().unwrap().num_permits(), 17);
    drop(envelope);
    assert!(fixture
        .parts
        .handle
        .submit_primary(primary(body(3)), true)
        .is_ok());
    let error = fixture
        .parts
        .handle
        .submit_primary(primary(body(91)), true)
        .err()
        .unwrap();
    assert_eq!(error.error(), &EndpointError::Backpressure);
}

/// A body that no frame can hold is refused with its size.
#[test]
fn oversize_content_is_refused() {
    let fixture = fixture(connected(4));
    let handle = &fixture.parts.handle;
    let too_large = EndpointError::Operation(OperationError::OutboundFrameTooLarge {
        text_length: 91,
        maximum_message_length: 100,
    });
    let error = handle
        .submit_primary(primary(body(91)), true)
        .err()
        .unwrap();
    assert_eq!(error.error(), &too_large);
    assert_eq!(error.message(), Some(&primary(body(91))));
    assert_eq!(handle.message_charge(&body(90)), Ok(104));
    assert_eq!(handle.message_charge(&body(91)), Err(too_large.clone()));
    let error = handle
        .submit_reply(ReplyIntent::Secondary, token(true), body(91))
        .err()
        .unwrap();
    assert_eq!(error.error(), &too_large);
    assert_eq!(
        error.admission().unwrap().reason(),
        ReplyAdmissionReason::InvalidMessage
    );
    assert_eq!(
        handle.reply_bytes(ReplyIntent::Secondary, &body(90)),
        Ok(Some(104))
    );
    assert_eq!(
        handle.reply_bytes(ReplyIntent::Abandon, &body(90)),
        Ok(None)
    );
    assert_eq!(
        handle.reply_bytes(ReplyIntent::Abandon, &body(91)),
        Err(too_large)
    );
}

/// A draining connection takes replies and control, but no primaries.
#[test]
fn draining_connection_takes_replies_only() {
    let mut fixture = fixture(draining(4));
    let handle = &fixture.parts.handle;
    let error = handle.submit_primary(primary(None), true).err().unwrap();
    assert_eq!(error.error(), &EndpointError::Draining);
    assert!(handle
        .submit_reply(ReplyIntent::Secondary, token(true), body(3))
        .is_ok());
    let error = handle
        .submit_reply(ReplyIntent::Secondary, token(true), body(3))
        .err()
        .unwrap();
    assert_eq!(error.error(), &EndpointError::Backpressure);
    assert!(handle.submit_control(ControlIntent::Separate).is_ok());
    let LifecycleCommand { intent, envelope } = command(&mut fixture.parts);
    assert_eq!(
        intent,
        LifecycleIntent::Reply {
            generation: generation(4),
            intent: ReplyIntent::Secondary,
            token: token(true),
            body: body(3),
        }
    );
    assert_eq!(envelope.bytes.unwrap().num_permits(), 17);
    assert_eq!(
        command(&mut fixture.parts).intent,
        LifecycleIntent::Control(generation(4), ControlIntent::Separate)
    );
}

/// A primary without a Secondary of its own can only be aborted or abandoned.
#[test]
fn exhausted_function_needs_an_abort() {
    let mut fixture = fixture(connected(4));
    let handle = &fixture.parts.handle;
    let error = handle
        .submit_reply(ReplyIntent::Secondary, token(false), body(3))
        .err()
        .unwrap();
    assert_eq!(
        error.error(),
        &EndpointError::Operation(OperationError::ReplyRequiresAbort)
    );
    assert_eq!(
        error.admission().unwrap().reason(),
        ReplyAdmissionReason::ReplyRequiresAbort
    );
    let ticket = handle.submit_reply(ReplyIntent::Abandon, token(false), None);
    assert!(ticket.is_ok());
    let LifecycleCommand { envelope, .. } = command(&mut fixture.parts);
    assert!(envelope.bytes.is_none());
    drop(envelope);
    let big = handle_budget(&fixture);
    assert_eq!(big, EndpointError::Backpressure);
}

fn handle_budget(fixture: &Fixture) -> EndpointError {
    fixture
        .parts
        .handle
        .submit_reply(ReplyIntent::Secondary, token(true), body(7))
        .err()
        .unwrap()
        .into_parts()
        .0
}

/// A stop has a slot of its own, so ordinary commands never keep it out.
#[test]
fn stop_has_its_own_slot() {
    let parts = build();
    assert!(parts.handle.submit(LifecycleIntent::Start).is_ok());
    assert!(parts.handle.submit(LifecycleIntent::Start).is_ok());
    assert_eq!(
        parts.handle.submit(LifecycleIntent::Start).err(),
        Some(EndpointError::Backpressure)
    );
    assert!(parts.handle.submit(LifecycleIntent::Stop).is_ok());
    assert_eq!(
        parts.handle.submit(LifecycleIntent::Stop).err(),
        Some(EndpointError::Backpressure)
    );
    assert_eq!(
        parts.handle.submit_disconnect().err(),
        Some(EndpointError::Backpressure)
    );
}

/// Every command of a handle whose runtime is gone is refused.
#[test]
fn stopped_runtime_refuses_everything() {
    let mut fixture = fixture(connected(4));
    fixture.parts.commands.close();
    let handle = &fixture.parts.handle;
    assert_eq!(
        handle.submit(LifecycleIntent::Start).err(),
        Some(EndpointError::RuntimeStopped)
    );
    assert_eq!(
        handle.submit_disconnect().err(),
        Some(EndpointError::RuntimeStopped)
    );
    let error = handle.submit_primary(primary(None), true).err().unwrap();
    assert_eq!(error.error(), &EndpointError::RuntimeStopped);
    let error = handle
        .submit_reply(ReplyIntent::Abort, token(true), body(3))
        .err()
        .unwrap();
    assert_eq!(error.error(), &EndpointError::RuntimeStopped);
    assert_eq!(error.admission().unwrap().body, None);
    assert_eq!(error.admission().unwrap().intent, ReplyIntent::Abort);
    assert_eq!(
        control_route(GenerationSlotSnapshot::Vacant, true),
        Err(EndpointError::RuntimeStopped)
    );
}

/// A disconnect names the connection that was visible.
#[test]
fn disconnect_names_the_visible_connection() {
    let mut fixture = fixture(draining(4));
    assert!(fixture.parts.handle.submit_disconnect().is_ok());
    assert_eq!(
        command(&mut fixture.parts).intent,
        LifecycleIntent::Disconnect(Some(generation(4)))
    );
    assert_eq!(disconnect_route(GenerationSlotSnapshot::Vacant), None);
    assert_eq!(
        primary_route(GenerationSlotSnapshot::Vacant),
        Err(EndpointError::NotConnected)
    );
}

/// Each observation has its refusal, in a fixed order.
#[test]
fn observations_decide_refusals() {
    let parts = build();
    let open = Observed {
        closed: false,
        slot: GenerationSlotSnapshot::Open(generation(4)),
        counted: true,
        charged: true,
        handover: Handover::Taken,
    };
    let stopped = Some(EndpointError::RuntimeStopped);
    let busy = Some(EndpointError::Backpressure);
    assert_eq!(refuse_plain(open), None);
    assert_eq!(
        refuse_plain(Observed {
            closed: true,
            counted: false,
            ..open
        }),
        stopped
    );
    assert_eq!(
        refuse_plain(Observed {
            counted: false,
            ..open
        }),
        busy
    );
    assert_eq!(refuse_handover(Handover::Taken), None);
    assert_eq!(refuse_handover(Handover::Full), busy);
    assert_eq!(refuse_handover(Handover::Closed), stopped);
    let message = primary(body(3));
    let refuse = |observed| parts.handle.refuse_primary(&message, observed);
    assert_eq!(refuse(open), None);
    assert_eq!(
        refuse(Observed {
            closed: true,
            slot: GenerationSlotSnapshot::Vacant,
            ..open
        }),
        stopped
    );
    assert_eq!(
        refuse(Observed {
            slot: GenerationSlotSnapshot::Draining(generation(4)),
            counted: false,
            ..open
        }),
        Some(EndpointError::Draining)
    );
    assert_eq!(
        refuse(Observed {
            charged: false,
            ..open
        }),
        busy
    );
    assert_eq!(
        refuse(Observed {
            handover: Handover::Closed,
            ..open
        }),
        stopped
    );
    let answer = |intent, observed| {
        parts
            .handle
            .refuse_reply(intent, &token(true), &None, observed)
    };
    let unpaid = Observed {
        charged: false,
        ..open
    };
    assert_eq!(answer(ReplyIntent::Secondary, open), None);
    assert_eq!(answer(ReplyIntent::Abort, unpaid), busy);
    assert_eq!(answer(ReplyIntent::Abandon, unpaid), None);
    assert_eq!(
        answer(
            ReplyIntent::Secondary,
            Observed {
                slot: GenerationSlotSnapshot::Vacant,
                ..open
            }
        ),
        Some(EndpointError::NotConnected)
    );
}

/// Every refusal of a reply has its admission reason.
#[test]
fn reply_refusals_are_classified() {
    let cases = [
        (
            EndpointError::RuntimeStopped,
            ReplyAdmissionReason::RuntimeStopped,
        ),
        (
            EndpointError::NotConnected,
            ReplyAdmissionReason::NotConnected,
        ),
        (EndpointError::Draining, ReplyAdmissionReason::Draining),
        (
            EndpointError::Operation(OperationError::Draining),
            ReplyAdmissionReason::Draining,
        ),
        (
            EndpointError::Backpressure,
            ReplyAdmissionReason::Backpressure,
        ),
        (
            EndpointError::Operation(OperationError::Backpressure),
            ReplyAdmissionReason::Backpressure,
        ),
        (
            EndpointError::StaleConnectionGeneration,
            ReplyAdmissionReason::StaleConnectionGeneration,
        ),
        (EndpointError::Faulted, ReplyAdmissionReason::Faulted),
        (
            EndpointError::Operation(OperationError::ReplyRequiresAbort),
            ReplyAdmissionReason::ReplyRequiresAbort,
        ),
        (
            EndpointError::Operation(OperationError::Encode(SecsItemError {
                description: "text".to_string(),
            })),
            ReplyAdmissionReason::InvalidMessage,
        ),
        (
            EndpointError::Operation(OperationError::OutboundFrameTooLarge {
                text_length: 1,
                maximum_message_length: 1,
            }),
            ReplyAdmissionReason::InvalidMessage,
        ),
        (
            EndpointError::Operation(OperationError::ConnectionLost),
            ReplyAdmissionReason::CapabilityUnavailable,
        ),
        (
            EndpointError::CleanupUnproven,
            ReplyAdmissionReason::CapabilityUnavailable,
        ),
    ];
    for (error, reason) in cases {
        let text = error.message();
        let rejected = ReplyError::rejected(error, ReplyIntent::Secondary, token(true), body(1));
        assert_eq!(rejected.admission().unwrap().reason(), reason);
        assert_eq!(rejected.text(), text);
    }
}

/// Answers are settled by what they carry.
#[test]
fn answers_are_settled() {
    let context = MessageContext::from_header(generation(4), [0; 10]);
    let secondary = SecondaryMessage::new(
        Stream::new(1).unwrap(),
        Function::new(2),
        body(1),
        context,
    );
    let sent = SendReceipt::new(generation(4));
    let start = StartReceipt {
        local_address: Some(ListenAddress::V4 {
            octets: [127, 0, 0, 1],
            port: 5000,
        }),
    };
    assert_eq!(
        settle_start(Some(Ok(LifecycleReceipt::Started(start)))),
        Ok(start)
    );
    assert_eq!(
        start.local_address(),
        Some(ListenAddress::V4 {
            octets: [127, 0, 0, 1],
            port: 5000,
        })
    );
    assert_eq!(
        settle_start(Some(Err(EndpointError::Faulted))),
        Err(EndpointError::Faulted)
    );
    assert_eq!(settle_start(None), Err(EndpointError::RuntimeStopped));
    assert_eq!(settle(Some(Ok(LifecycleReceipt::Closed))), Ok(()));
    assert_eq!(
        settle(Some(Err(EndpointError::CleanupUnproven))),
        Err(EndpointError::CleanupUnproven)
    );
    assert_eq!(settle(None), Err(EndpointError::RuntimeStopped));
    assert_eq!(
        settle_send(Some(Ok(LifecycleReceipt::Sent(sent)))),
        Ok(sent)
    );
    assert_eq!(
        settle_request(Some(Ok(LifecycleReceipt::Secondary(secondary.clone())))),
        Ok(secondary)
    );
    assert_eq!(
        settle_primary(Some(Ok(LifecycleReceipt::RejectedPrimary {
            message: primary(body(1)),
            error: EndpointError::Draining,
        }))),
        Err(MessageError::rejected(
            EndpointError::Draining,
            primary(body(1))
        ))
    );
    let lost = settle_send(Some(Err(EndpointError::Faulted))).unwrap_err();
    assert_eq!(lost.message(), None);
    assert_eq!(lost.text(), "HSMS endpoint is faulted");
    assert_eq!(
        settle_request(None).unwrap_err().error(),
        &EndpointError::RuntimeStopped
    );
    assert_eq!(
        settle_written(Some(Ok(LifecycleReceipt::Sent(sent)))),
        Ok(sent)
    );
    assert_eq!(
        settle_reply(Some(Ok(LifecycleReceipt::RejectedReply {
            intent: ReplyIntent::Secondary,
            token: token(true),
            body: body(2),
            error: EndpointError::Faulted,
        }))),
        Err(ReplyError::rejected(
            EndpointError::Faulted,
            ReplyIntent::Secondary,
            token(true),
            body(2)
        ))
    );
    assert_eq!(
        settle_reply(Some(Err(EndpointError::Faulted))).unwrap_err(),
        ReplyError {
            error: EndpointError::Faulted,
            admission: None,
        }
    );
    assert_eq!(
        settle_written(None).unwrap_err().error(),
        &EndpointError::RuntimeStopped
    );
}

/// Driver results become receipts one for one.
#[test]
fn driver_results_become_receipts() {
    let lost = OperationError::ConnectionLost;
    let failed: Acknowledgement = Err(EndpointError::Operation(lost.clone()));
    assert_eq!(
        receipt(DriverCommandResult::Control(Ok(()))),
        Ok(LifecycleReceipt::Closed)
    );
    assert_eq!(
        receipt(DriverCommandResult::Control(Err(lost.clone()))),
        failed
    );
    assert_eq!(
        receipt(DriverCommandResult::Send(Ok(SendReceipt::new(generation(4))))),
        Ok(LifecycleReceipt::Sent(SendReceipt::new(generation(4))))
    );
    assert_eq!(
        receipt(DriverCommandResult::Send(Err(lost.clone()))),
        failed
    );
    assert_eq!(
        receipt(DriverCommandResult::Request(Err(lost.clone()))),
        failed
    );
    assert_eq!(
        receipt(DriverCommandResult::PrimaryRejected {
            message: primary(body(1)),
            reply_expected: true,
            error: lost.clone(),
        }),
        Ok(LifecycleReceipt::RejectedPrimary {
            message: primary(body(1)),
            error: EndpointError::Operation(lost.clone()),
        })
    );
    assert_eq!(
        receipt(DriverCommandResult::ReplyRejected {
            intent: ReplyIntent::Abort,
            token: token(true),
            body: body(1),
            error: lost.clone(),
        }),
        Ok(LifecycleReceipt::RejectedReply {
            intent: ReplyIntent::Abort,
            token: token(true),
            body: body(1),
            error: EndpointError::Operation(lost),
        })
    );
    assert_eq!(
        stopped_receipt(LifecycleIntent::Stop),
        Err(EndpointError::RuntimeStopped)
    );
    assert_eq!(
        stopped_receipt(LifecycleIntent::Data {
            generation: generation(4),
            message: primary(None),
            reply_expected: false,
        }),
        Ok(LifecycleReceipt::RejectedPrimary {
            message: primary(None),
            error: EndpointError::RuntimeStopped,
        })
    );
}

/// A message reaches only the generation that it was meant for.
#[test]
fn messages_never_change_connection() {
    for (facts, error) in [
        (connected(5), EndpointError::StaleConnectionGeneration),
        (STOPPED, EndpointError::StaleConnectionGeneration),
        (faulted(), EndpointError::Faulted),
    ] {
        let Fixture {
            mut parts,
            mut runtime,
        } = fixture(connected(4));
        let (mut ticket, command) = routed_command(
            &mut parts,
            LifecycleIntent::Data {
                generation: generation(4),
                message: primary(body(1)),
                reply_expected: true,
            },
        );
        assert!(matches!(
            runtime.receive(facts, Some(command)),
            Route::Answered
        ));
        assert_eq!(
            taken(&mut ticket),
            Ok(LifecycleReceipt::RejectedPrimary {
                message: primary(body(1)),
                error: error.clone(),
            })
        );
        let (mut ticket, command) = routed_command(
            &mut parts,
            LifecycleIntent::Reply {
                generation: generation(4),
                intent: ReplyIntent::Secondary,
                token: token(true),
                body: body(1),
            },
        );
        assert!(matches!(
            runtime.receive(facts, Some(command)),
            Route::Answered
        ));
        assert_eq!(
            taken(&mut ticket),
            Ok(LifecycleReceipt::RejectedReply {
                intent: ReplyIntent::Secondary,
                token: token(true),
                body: body(1),
                error: error.clone(),
            })
        );
        let (mut ticket, command) = routed_command(
            &mut parts,
            LifecycleIntent::Control(generation(4), ControlIntent::Linktest),
        );
        assert!(matches!(
            runtime.receive(facts, Some(command)),
            Route::Answered
        ));
        assert_eq!(taken(&mut ticket), Err(error));
    }
}

/// A message for the current generation goes on with everything it carries.
#[test]
fn current_messages_are_routed() {
    let Fixture {
        mut parts,
        mut runtime,
    } = fixture(connected(4));
    let (mut ticket, command) = routed_command(
        &mut parts,
        LifecycleIntent::Data {
            generation: generation(4),
            message: primary(body(1)),
            reply_expected: false,
        },
    );
    let Route::Data {
        envelope,
        message,
        reply_expected,
    } = runtime.receive(connected(4), Some(command))
    else {
        panic!("the generation is current");
    };
    assert_eq!(message, primary(body(1)));
    assert!(!reply_expected);
    assert!(ticket.answer.try_recv().is_err());
    let sent: Acknowledgement = Ok(LifecycleReceipt::Sent(SendReceipt::new(generation(4))));
    runtime.answer(envelope, sent);
    assert_eq!(
        taken(&mut ticket),
        Ok(LifecycleReceipt::Sent(SendReceipt::new(generation(4))))
    );
    let (_ticket, command) = routed_command(
        &mut parts,
        LifecycleIntent::Control(generation(4), ControlIntent::Deselect),
    );
    assert!(matches!(
        runtime.receive(connected(4), Some(command)),
        Route::Control {
            intent: ControlIntent::Deselect,
            ..
        }
    ));
    let (_ticket, command) = routed_command(
        &mut parts,
        LifecycleIntent::Reply {
            generation: generation(4),
            intent: ReplyIntent::Abort,
            token: token(false),
            body: None,
        },
    );
    assert!(matches!(
        runtime.receive(connected(4), Some(command)),
        Route::Reply {
            intent: ReplyIntent::Abort,
            ..
        }
    ));
}

/// Close commands wait for the end of their generation, then are answered in
/// order; a start in between is refused.
#[test]
fn close_commands_wait_for_the_generation() {
    let Fixture {
        mut parts,
        mut runtime,
    } = fixture(connected(4));
    let (mut stop, command) = routed_command(&mut parts, LifecycleIntent::Stop);
    assert!(matches!(
        runtime.receive(connected(4), Some(command)),
        Route::StopPending
    ));
    let (_start, command) = routed_command(&mut parts, LifecycleIntent::Start);
    let Route::Settle { result, .. } = runtime.receive(connected(4), Some(command)) else {
        panic!("a close is pending");
    };
    assert_eq!(result, Err(EndpointError::Draining));
    assert!(stop.answer.try_recv().is_err());
    runtime.record_exit(exit(CleanupResult::Clean));
    runtime.answer_pending(true);
    assert_eq!(taken(&mut stop), Ok(LifecycleReceipt::Closed));
    let (mut disconnect, command) = routed_command(
        &mut parts,
        LifecycleIntent::Disconnect(Some(generation(4))),
    );
    assert!(matches!(
        runtime.receive(connected(4), Some(command)),
        Route::DisconnectPending
    ));
    runtime.answer_pending(false);
    assert_eq!(
        taken(&mut disconnect),
        Err(EndpointError::CleanupUnproven)
    );
}

/// A disconnect of another or of no connection is answered at once.
#[test]
fn disconnect_is_answered_by_what_is_current() {
    for (target, facts, expected) in [
        (None, connected(4), Ok(LifecycleReceipt::Closed)),
        (
            Some(generation(3)),
            connected(4),
            Err(EndpointError::StaleConnectionGeneration),
        ),
        (
            Some(generation(3)),
            STOPPED,
            Err(EndpointError::StaleConnectionGeneration),
        ),
        (
            Some(generation(4)),
            faulted(),
            Err(EndpointError::Faulted),
        ),
    ] {
        let Fixture {
            mut parts,
            mut runtime,
        } = fixture(STOPPED);
        let (mut ticket, command) =
            routed_command(&mut parts, LifecycleIntent::Disconnect(target));
        assert!(matches!(
            runtime.receive(facts, Some(command)),
            Route::Answered
        ));
        assert_eq!(taken(&mut ticket), expected);
    }
}

/// Starts, stops and the last handle are routed by the supervisor's state.
#[test]
fn lifecycle_commands_are_routed() {
    let Fixture {
        mut parts,
        mut runtime,
    } = fixture(STOPPED);
    let (_ticket, command) = routed_command(&mut parts, LifecycleIntent::Start);
    assert!(matches!(
        runtime.receive(STOPPED, Some(command)),
        Route::Start(_)
    ));
    let (_ticket, command) = routed_command(&mut parts, LifecycleIntent::Stop);
    assert!(matches!(
        runtime.receive(STOPPED, Some(command)),
        Route::Stop(_)
    ));
    let (_ticket, command) = routed_command(&mut parts, LifecycleIntent::Stop);
    assert!(matches!(
        runtime.receive(faulted(), Some(command)),
        Route::Recover(_)
    ));
    assert_eq!(runtime.next_step(connected(4)), RuntimeStep::Execute { commands: true });
    assert!(matches!(runtime.receive(connected(4), None), Route::Quit));
    assert_eq!(runtime.next_step(connected(4)), RuntimeStep::Execute { commands: false });
    assert_eq!(runtime.next_step(STOPPED), RuntimeStep::Return(Ok(())));
    assert_eq!(
        runtime.next_step(faulted()),
        RuntimeStep::Return(Err(EndpointError::CleanupUnproven))
    );
}

/// What the runtime does next follows from the supervisor's state.
#[test]
fn next_step_follows_the_facts() {
    let Fixture { runtime, .. } = fixture(STOPPED);
    assert_eq!(runtime.next_step(STOPPED), RuntimeStep::AwaitCommand);
    assert_eq!(runtime.next_step(faulted()), RuntimeStep::AwaitCommand);
    assert_eq!(
        runtime.next_step(SupervisorFacts {
            running: true,
            ..STOPPED
        }),
        RuntimeStep::Connect
    );
    let mut closed = connected(4);
    closed.current = Some(GenerationFacts {
        transport_closed: true,
        ..closed.current.unwrap()
    });
    assert_eq!(runtime.next_step(closed), RuntimeStep::FinishGeneration);
    closed.faulted = true;
    assert_eq!(runtime.next_step(closed), RuntimeStep::AwaitCommand);
    let active = HsmsRuntime::new(true, tokio::sync::watch::channel(Default::default()).0);
    for (end, passive_faults, active_faults) in [
        (AttemptEnd::Connected, false, false),
        (AttemptEnd::Transport, true, false),
        (AttemptEnd::Timeout, true, false),
        (AttemptEnd::Other, true, true),
    ] {
        assert_eq!(runtime.attempt_faults(end), passive_faults);
        assert_eq!(active.attempt_faults(end), active_faults);
    }
}

/// The revision grows exactly when the state changes.
#[test]
fn revisions_grow_with_the_state() {
    let Fixture { parts, mut runtime } = fixture(connected(4));
    let first = parts.handle.snapshot();
    assert_eq!(first.sequence(), 1);
    assert_eq!(first.desired(), RunningIntent::Running);
    assert_eq!(first.phase(), EndpointPhase::Running);
    assert_eq!(first.session(), Some(SessionState::Selected));
    runtime.publish_state(connected(4)).unwrap();
    assert_eq!(parts.handle.snapshot(), first);
    runtime.publish_state(draining(4)).unwrap();
    let second = parts.handle.snapshot();
    assert_eq!(second.sequence(), 2);
    assert_eq!(second.phase(), EndpointPhase::Draining);
    assert_eq!(
        second.generation(),
        GenerationSlotSnapshot::Draining(generation(4))
    );
    runtime.publish_state(faulted()).unwrap();
    assert_eq!(parts.handle.snapshot().phase(), EndpointPhase::Faulted);
    assert_eq!(
        *parts.handle.subscription().borrow(),
        parts.handle.snapshot()
    );
}

/// A poisoned exit stays visible until a recovery replaces it.
#[test]
fn last_exit_retains_poison_and_updates_after_explicit_recovery() {
    let Fixture { parts, mut runtime } = fixture(connected(4));
    let poisoned = exit(CleanupResult::Poisoned(CleanupPoison::TaskDidNotStop));
    runtime.record_exit(poisoned);
    runtime
        .publish_state(SupervisorFacts {
            running: false,
            ..faulted()
        })
        .unwrap();
    assert_eq!(parts.handle.snapshot().phase(), EndpointPhase::Faulted);
    let report = parts.handle.snapshot().last_exit().unwrap();
    assert_eq!(report.generation(), poisoned.generation);
    assert!(!report.clean());
    assert_eq!(
        runtime.finish_recovery(Ok(Some(exit(CleanupResult::Clean)))),
        Ok(LifecycleReceipt::Closed)
    );
    runtime.publish_state(STOPPED).unwrap();
    let recovered = parts.handle.snapshot().last_exit().unwrap();
    assert_eq!(recovered.generation(), report.generation());
    assert_eq!(recovered.reason(), report.reason());
    assert!(recovered.clean());
    assert_eq!(parts.handle.snapshot().phase(), EndpointPhase::StoppedClean);
    assert_eq!(
        runtime.finish_recovery(Ok(None)),
        Ok(LifecycleReceipt::Closed)
    );
    assert_eq!(
        runtime.finish_recovery(Ok(Some(poisoned))),
        Err(EndpointError::CleanupUnproven)
    );
    assert_eq!(
        runtime.finish_recovery(Err(EndpointError::Faulted)),
        Err(EndpointError::Faulted)
    );
}

/// A passive endpoint that cannot bind again is faulted until it is stopped.
#[test]
fn passive_rebind_failure_faults_after_old_generation_is_clean() {
    let Fixture {
        mut parts,
        mut runtime,
    } = fixture(connected(4));
    runtime.record_exit(exit(CleanupResult::Clean));
    let failure = SupervisorError::Transport {
        kind: "AddrInUse".to_string(),
        message: "address in use".to_string(),
    };
    parts
        .diagnostics
        .publish(DiagnosticEvent::ConnectionAttemptFailed {
            message: "address in use".to_string(),
        });
    assert!(matches!(
        parts.records.try_recv().unwrap().event(),
        DiagnosticEvent::ConnectionAttemptFailed { message } if !message.is_empty()
    ));
    assert!(runtime.attempt_faults(AttemptEnd::Transport));
    let facts = SupervisorFacts {
        faulted: true,
        running: true,
        current: None,
    };
    runtime.publish_state(facts).unwrap();
    assert_eq!(parts.handle.snapshot().phase(), EndpointPhase::Faulted);
    assert_eq!(
        parts.handle.snapshot().generation(),
        GenerationSlotSnapshot::Vacant
    );
    assert_eq!(
        HsmsRuntime::start_answer(Err(map_error(SupervisorError::Faulted))),
        Err(EndpointError::Faulted)
    );
    assert_eq!(
        map_error(failure),
        EndpointError::Io {
            kind: "AddrInUse".to_string(),
            message: "address in use".to_string(),
        }
    );
    let (_ticket, command) = routed_command(&mut parts, LifecycleIntent::Stop);
    assert!(matches!(
        runtime.receive(facts, Some(command)),
        Route::Recover(_)
    ));
    runtime.publish_state(STOPPED).unwrap();
    assert_eq!(parts.handle.snapshot().phase(), EndpointPhase::StoppedClean);
}

/// Completed commands are answered after the state that they belong to.
#[test]
fn answers_follow_the_published_state() {
    let Fixture {
        mut parts,
        mut runtime,
    } = fixture(connected(4));
    let (mut ticket, command) = routed_command(
        &mut parts,
        LifecycleIntent::Control(generation(4), ControlIntent::Select),
    );
    let answered = vec![(command.envelope, Ok(LifecycleReceipt::Closed))];
    assert!(runtime.publish(draining(4), answered).is_ok());
    assert_eq!(parts.handle.snapshot().sequence(), 2);
    assert_eq!(taken(&mut ticket), Ok(LifecycleReceipt::Closed));
}

/// A runtime that is dropped refuses what is queued and answers what completed.
#[test]
fn retired_runtime_leaves_nobody_waiting() {
    let Fixture {
        mut parts,
        mut runtime,
    } = fixture(connected(4));
    let (mut queued, first) = routed_command(
        &mut parts,
        LifecycleIntent::Data {
            generation: generation(4),
            message: primary(None),
            reply_expected: true,
        },
    );
    let (mut completed, second) = routed_command(&mut parts, LifecycleIntent::Stop);
    assert!(runtime.final_state(STOPPED).is_none());
    runtime.retire(
        connected(4),
        vec![first],
        vec![(second.envelope, Ok(LifecycleReceipt::Closed))],
    );
    assert_eq!(
        taken(&mut queued),
        Ok(LifecycleReceipt::RejectedPrimary {
            message: primary(None),
            error: EndpointError::RuntimeStopped,
        })
    );
    assert_eq!(taken(&mut completed), Ok(LifecycleReceipt::Closed));
    let last = parts.handle.snapshot();
    assert_eq!(last.phase(), EndpointPhase::Faulted);
    assert_eq!(last.desired(), RunningIntent::Stopped);
    assert_eq!(last.session(), Some(SessionState::Closed));
    assert_eq!(last.sequence(), 2);
}

/// Supervisor failures have public counterparts.
#[test]
fn supervisor_failures_are_mapped() {
    assert_eq!(
        map_error(SupervisorError::Bind {
            kind: "k".to_string(),
            message: "m".to_string(),
        }),
        EndpointError::Io {
            kind: "k".to_string(),
            message: "m".to_string(),
        }
    );
    assert_eq!(
        map_error(SupervisorError::Occupied),
        EndpointError::Draining
    );
    assert_eq!(
        map_error(SupervisorError::GenerationExhausted),
        EndpointError::IdentifierExhausted
    );
    assert_eq!(map_error(SupervisorError::Timeout), EndpointError::Faulted);
    let receipt = StartReceipt {
        local_address: None,
    };
    assert_eq!(
        HsmsRuntime::start_answer(Ok(receipt)),
        Ok(LifecycleReceipt::Started(receipt))
    );
}

/// Delivery is bounded by count and bytes, and a queue that nobody reads takes
/// nothing.
#[test]
fn deliveries_are_bounded() {
    let mut parts = build();
    assert_eq!(parts.delivery.capacity(), (2, 1));
    assert_eq!(parts.delivery.primary(inbound(body(3))), Ok(()));
    assert_eq!(parts.delivery.capacity(), (1, 1));
    assert_eq!(parts.delivery.primary(inbound(body(10))), Err(()));
    assert_eq!(parts.delivery.primary(inbound(None)), Ok(()));
    assert_eq!(parts.delivery.error(protocol_error()), Ok(()));
    assert_eq!(parts.delivery.error(protocol_error()), Err(()));
    assert_eq!(parts.delivery.capacity(), (0, 0));
    let (mut primaries, errors) = parts.receiver.split();
    let first = primaries.inner.try_recv().ok().unwrap();
    assert_eq!(first.bytes.num_permits(), 17);
    assert_eq!(first.into_primary(), inbound(body(3)));
    assert_eq!(parts.delivery.primary(inbound(body(10))), Ok(()));
    drop(primaries);
    drop(errors);
    assert_eq!(parts.delivery.capacity(), (0, 0));
    assert_eq!(parts.delivery.error(protocol_error()), Err(()));
    assert_eq!(queue_charge(&body(3)), Some(17));
    assert_eq!(usable(true, 5), 0);
    assert_eq!(usable(false, 5), 5);
}

/// Every diagnostic that is not taken is counted, and order is kept.
#[test]
fn omitted_diagnostics_are_counted() {
    let (mut publisher, mut records) = DiagnosticPublisher::new(2);
    for index in 0..4 {
        publisher.publish(DiagnosticEvent::Protocol {
            generation: generation(index),
            notice: ProtocolNotice::UnexpectedResponse,
        });
    }
    assert_eq!(publisher.dropped_count(), 2);
    let first = records.try_recv().unwrap();
    assert_eq!(first.sequence(), 0);
    assert_eq!(records.try_recv().unwrap().sequence(), 1);
    publisher.publish(HsmsRuntime::closed_event(exit(CleanupResult::Clean)));
    let last = records.try_recv().unwrap();
    assert_eq!(last.sequence(), 4);
    assert_eq!(
        last.into_event(),
        DiagnosticEvent::ConnectionClosed {
            generation: generation(4),
            reason: ConnectionCloseReason::LocalDisconnect,
            clean: true,
        }
    );
    let mut counters = DiagnosticCounters {
        next: Some(u64::MAX),
        dropped: u64::MAX,
    };
    assert_eq!(counters.take_sequence(), Some(u64::MAX));
    assert_eq!(counters.take_sequence(), None);
    counters.count_loss();
    assert_eq!(counters.dropped, u64::MAX);
    assert_eq!(DiagnosticCounters::new().next, Some(0));
}

/// Close reasons have distinct public classes.
#[test]
fn close_reasons_are_public() {
    let pairs = [
        (
            GenerationCloseReason::LocalStop,
            ConnectionCloseReason::LocalStop,
        ),
        (
            GenerationCloseReason::LocalDisconnect,
            ConnectionCloseReason::LocalDisconnect,
        ),
        (
            GenerationCloseReason::LocalSeparate,
            ConnectionCloseReason::LocalSeparate,
        ),
        (
            GenerationCloseReason::SeparateReceived,
            ConnectionCloseReason::SeparateReceived,
        ),
        (
            GenerationCloseReason::TransportLost,
            ConnectionCloseReason::TransportLost,
        ),
        (
            GenerationCloseReason::ProtocolViolation,
            ConnectionCloseReason::ProtocolViolation,
        ),
        (
            GenerationCloseReason::ControlBackpressure,
            ConnectionCloseReason::ControlBackpressure,
        ),
        (
            GenerationCloseReason::ApplicationBackpressure,
            ConnectionCloseReason::ApplicationBackpressure,
        ),
        (
            GenerationCloseReason::SystemBytesExhausted,
            ConnectionCloseReason::SystemBytesExhausted,
        ),
        (
            GenerationCloseReason::RuntimeInvariant,
            ConnectionCloseReason::RuntimeInvariant,
        ),
        (
            GenerationCloseReason::CommunicationsTimeout(CommunicationsTimeoutKind::T6),
            ConnectionCloseReason::CommunicationsTimeout(TimeoutKind::T6),
        ),
        (
            GenerationCloseReason::CommunicationsTimeout(CommunicationsTimeoutKind::T7),
            ConnectionCloseReason::CommunicationsTimeout(TimeoutKind::T7),
        ),
        (
            GenerationCloseReason::CommunicationsTimeout(CommunicationsTimeoutKind::T8),
            ConnectionCloseReason::CommunicationsTimeout(TimeoutKind::T8),
        ),
    ];
    for (reason, public) in pairs {
        assert_eq!(close_reason(reason), public);
    }
}

/// Capacities of zero and capacities that nothing can hold are refused by name.
#[test]
fn capacities_are_validated() {
    let refused = |limits: EndpointLimits| HsmsEndpoint::build(config(limits)).err().unwrap();
    let base = limits();
    let zero = |field| ConfigError::ZeroCapacity { field };
    assert_eq!(
        refused(EndpointLimits {
            command_capacity: 0,
            reply_capacity: 0,
            ..base
        }),
        zero("command_capacity")
    );
    assert_eq!(
        refused(EndpointLimits {
            reply_capacity: 0,
            ..base
        }),
        zero("reply_capacity")
    );
    assert_eq!(
        refused(EndpointLimits {
            application_event_capacity: 0,
            ..base
        }),
        zero("application_event_capacity")
    );
    assert_eq!(
        refused(EndpointLimits {
            protocol_error_capacity: 0,
            ..base
        }),
        zero("protocol_error_capacity")
    );
    assert_eq!(
        refused(EndpointLimits {
            diagnostic_capacity: 0,
            ..base
        }),
        zero("diagnostic_capacity")
    );
    assert_eq!(
        refused(EndpointLimits {
            command_capacity: MAX_PERMITS,
            ..base
        }),
        ConfigError::RuntimePolicy {
            description: "endpoint capacity is not representable"
        }
    );
}

/// Endpoint failures have stable texts.
#[test]
fn endpoint_failures_have_texts() {
    let pairs = [
        (
            EndpointError::NotConnected,
            "HSMS endpoint has no current connection",
        ),
        (
            EndpointError::Operation(OperationError::SelectRejected {
                status: NonZeroStatus::new(105).unwrap(),
            }),
            "peer rejected Select.req with E37 status 105",
        ),
        (
            EndpointError::Backpressure,
            "HSMS endpoint command capacity exhausted",
        ),
        (
            EndpointError::RuntimeStopped,
            "HSMS endpoint runtime has stopped",
        ),
        (EndpointError::Draining, "HSMS endpoint is draining"),
        (EndpointError::Faulted, "HSMS endpoint is faulted"),
        (
            EndpointError::StaleConnectionGeneration,
            "HSMS request belongs to a stale connection generation",
        ),
        (
            EndpointError::CleanupUnproven,
            "HSMS cleanup could not prove resource release",
        ),
        (
            EndpointError::Io {
                kind: "AddrInUse".to_string(),
                message: "taken".to_string(),
            },
            "HSMS endpoint I/O error (AddrInUse): taken",
        ),
        (
            EndpointError::IdentifierExhausted,
            "HSMS endpoint identity space exhausted",
        ),
    ];
    for (error, text) in pairs {
        assert_eq!(error.message(), text);
    }
}

/// An envelope whose waiter left is completed without effect.
#[test]
fn abandoned_answers_are_dropped() {
    let permits = std::sync::Arc::new(tokio::sync::Semaphore::new(1));
    let (completion, waiter) = oneshot::channel();
    drop(waiter);
    Envelope {
        completion,
        permit: permits.clone().try_acquire_owned().unwrap(),
        bytes: None,
    }
    .complete(Ok(LifecycleReceipt::Closed));
    assert_eq!(permits.available_permits(), 1);
}

struct Full;

impl ApplicationEventPort<u8> for Full {
    fn try_publish(&self, event: u8) -> Result<(), EventPublishError<u8>> {
        Err(EventPublishError::Full(event))
    }
}

/// A refused event comes back from its failure.
#[test]
fn refused_event_comes_back() {
    assert_eq!(Full.try_publish(7).unwrap_err().into_event(), 7);
    assert_eq!(EventPublishError::Closed(8).into_event(), 8);
}

/// A gap between two received records is the number of omitted ones, and each
/// record carries what was published under its sequence.
#[test]
fn diagnostic_gaps_are_omissions() {
    let mut parts = build();
    let event = |value: u64| DiagnosticEvent::ConnectionAttemptFailed {
        message: format!("attempt {value}"),
    };
    for value in 0..4 {
        parts.diagnostics.publish(event(value));
    }
    let mut records = vec![parts.records.try_recv().unwrap()];
    records.push(parts.records.try_recv().unwrap());
    parts.diagnostics.publish(event(4));
    records.push(parts.records.try_recv().unwrap());
    assert_eq!(records[0].sequence(), 0);
    assert_eq!(records[1].sequence() - records[0].sequence() - 1, 0);
    assert_eq!(
        records[2].sequence() - records[1].sequence() - 1,
        parts.diagnostics.dropped_count()
    );
    for record in records {
        let sequence = record.sequence();
        assert_eq!(record.into_event(), event(sequence));
    }
}

/// A settled command is answered after the state and after what completed before.
#[test]
fn settled_command_follows_the_state() {
    let mut fixture = fixture(connected(4));
    let (mut first, early) = routed_command(&mut fixture.parts, LifecycleIntent::Start);
    let (mut second, late) = routed_command(&mut fixture.parts, LifecycleIntent::Start);
    let before = fixture.parts.handle.snapshot().sequence();
    let settled = fixture.runtime.settle(
        draining(4),
        vec![(early.envelope, Ok(LifecycleReceipt::Closed))],
        late.envelope,
        Err(EndpointError::Draining),
    );
    assert!(settled.is_ok());
    assert_eq!(fixture.parts.handle.snapshot().sequence(), before + 1);
    assert_eq!(
        fixture.parts.handle.snapshot().phase(),
        EndpointPhase::Draining
    );
    assert_eq!(taken(&mut first), Ok(LifecycleReceipt::Closed));
    assert_eq!(taken(&mut second), Err(EndpointError::Draining));
}
