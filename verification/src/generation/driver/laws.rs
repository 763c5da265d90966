//! What every Driver operation keeps.

use crate::generation::driver::command::{AcceptedCommand, PendingCompletion};
use crate::generation::driver::model;
use crate::generation::driver::model::{
    ActionApplicationFailure, Answer, CoreInput, DriverView, PortEvent,
};
use crate::generation::driver::ports::CoreAction;
use crate::generation::transport::writer::DataPermitError;
use crate::model::ids::WriteId;
use crate::model::runtime::{CloseBarrier, GenerationCloseReason, MonoTime};
use vstd::prelude::*;

verus! {

/// `advances` is transitive.
pub proof fn lemma_advances_trans<C>(a: DriverView<C>, b: DriverView<C>, c: DriverView<C>)
    requires
        model::advances(a, b),
        model::advances(b, c),
    ensures
        model::advances(a, c),
{
}

proof fn lemma_served_push<C>(history: Seq<PortEvent<C>>, event: PortEvent<C>)
    ensures
        model::served(history.push(event)) == match event {
            PortEvent::Completed { completion, .. } => model::served(history).push(completion),
            _ => model::served(history),
        },
        model::closes(history.push(event)) == match event {
            PortEvent::TransportClosed => model::closes(history) + 1,
            _ => model::closes(history),
        },
{
    assert(history.push(event).drop_last() =~= history);
}

/// Logging an event other than a completion or a close keeps every promise.
pub proof fn lemma_logged<C>(view: DriverView<C>, event: PortEvent<C>)
    requires
        model::well_formed(view),
        !(event is Completed),
        !(event is TransportClosed),
    ensures
        model::well_formed(view.logged(event)),
        model::advances(view, view.logged(event)),
{
    lemma_served_push(view.history, event);
}

/// A close request keeps every promise.
pub proof fn lemma_closing_with<C>(
    view: DriverView<C>,
    reason: GenerationCloseReason,
    barrier: CloseBarrier,
)
    requires
        model::well_formed(view),
    ensures
        model::well_formed(view.closing_with(reason, barrier)),
        model::advances(view, view.closing_with(reason, barrier)),
{
}

proof fn lemma_position<C>(pending: Seq<PendingCompletion<C>>, id: u64)
    ensures
        0 <= model::position(pending, id) <= pending.len(),
        model::position(pending, id) < pending.len() ==> pending[model::position(
            pending,
            id,
        )].command_id.value == id,
    decreases pending.len(),
{
    if pending.len() != 0 && pending[0].command_id.value != id {
        lemma_position(pending.drop_first(), id);
    }
}

/// One core action keeps every promise.
pub proof fn lemma_act<C>(view: DriverView<C>, permit: bool, action: CoreAction, answer: Answer)
    requires
        model::well_formed(view),
    ensures
        model::well_formed(model::act(view, permit, action, answer).view),
        model::advances(view, model::act(view, permit, action, answer).view),
{
    let after = model::act(view, permit, action, answer).view;
    match action {
        CoreAction::DeliverPrimary { .. } => {},
        CoreAction::SendFrame { write_id, message } => {
            lemma_served_push(
                view.history,
                PortEvent::ControlHanded { write_id, message, answer: answer.control },
            );
            lemma_served_push(
                view.history,
                PortEvent::DataHanded { write_id, message, answer: answer.data },
            );
        },
        CoreAction::SessionStateChanged(state) => {
            lemma_served_push(view.history, PortEvent::Observed(state));
        },
        CoreAction::CompleteCommand { command_id, result } => {
            lemma_position(view.pending, command_id.value);
            let i = model::position(view.pending, command_id.value);
            if i < view.pending.len() {
                match model::materialized(
                    view.pending[i].kind,
                    result,
                    view.generation,
                    view.admitted,
                ) {
                    None => {},
                    Some(delivered) => {
                        let completion = view.pending[i].completion;
                        lemma_served_push(
                            view.history,
                            PortEvent::Completed { completion, result: delivered },
                        );
                        let endpoint = |pending: PendingCompletion<C>| pending.completion;
                        let endpoints = view.pending.map_values(endpoint);
                        assert(after.pending.map_values(endpoint) =~= endpoints.remove(i));
                        vstd::seq_lib::to_multiset_remove(endpoints, i);
                        vstd::seq_lib::to_multiset_build(
                            model::served(view.history),
                            completion,
                        );
                        endpoints.to_multiset_ensures();
                        assert(endpoints.contains(endpoints[i]));
                        assert(model::custody(after) =~= model::custody(view));
                    },
                }
            }
        },
        CoreAction::CloseGeneration { reason, barrier } => {},
    }
}

/// The applied part of a batch keeps every promise.
pub proof fn lemma_run<C>(
    view: DriverView<C>,
    permit: bool,
    actions: Seq<CoreAction>,
    answers: Seq<Answer>,
)
    requires
        model::well_formed(view),
    ensures
        model::well_formed(model::run(view, permit, actions, answers).view),
        model::advances(view, model::run(view, permit, actions, answers).view),
    decreases answers.len(),
{
    if answers.len() != 0 {
        lemma_run(view, permit, actions, answers.drop_last());
        let before = model::run(view, permit, actions, answers.drop_last());
        if before.failure is None {
            lemma_act(before.view, before.permit, actions[answers.len() - 1], answers.last());
        }
    }
}

/// A batch keeps every promise.
pub proof fn lemma_batch<C>(
    view: DriverView<C>,
    permit: bool,
    actions: Seq<CoreAction>,
    after: DriverView<C>,
    failure: Option<ActionApplicationFailure>,
)
    requires
        model::well_formed(view),
        model::batch(view, permit, actions, after, failure),
    ensures
        model::well_formed(after),
        model::advances(view, after),
{
    let (answers, release) = choose|answers: Seq<Answer>, release: Result<(), DataPermitError>|
        model::batch_by(view, permit, actions, answers, release, after, failure);
    lemma_run(view, permit, actions, answers);
    let progress = model::run(view, permit, actions, answers);
    lemma_served_push(progress.view.history, PortEvent::Released { answer: release });
}

/// A Driver failure keeps every promise and leaves the generation ready to close.
pub proof fn lemma_failed_over<C>(
    view: DriverView<C>,
    reason: GenerationCloseReason,
    failed_write_id: Option<WriteId>,
    now: MonoTime,
    after: DriverView<C>,
)
    requires
        model::well_formed(view),
        model::failed_over(view, reason, failed_write_id, now, after),
    ensures
        model::well_formed(after),
        model::advances(view, after),
        model::ready_to_close(after.closing),
{
    let (actions, middle, failure) = choose|
        actions: Seq<CoreAction>,
        middle: DriverView<C>,
        failure: Option<ActionApplicationFailure>,
    |
        {
            &&& #[trigger] model::batch(
                view.asked(CoreInput::Shutdown { reason, failed_write_id, now }, actions),
                false,
                actions,
                middle,
                failure,
            )
            &&& after == if failure is Some {
                middle.closing_with(
                    GenerationCloseReason::RuntimeInvariant,
                    CloseBarrier::Immediate,
                ).closing_with(reason, CloseBarrier::Immediate)
            } else {
                middle.closing_with(reason, CloseBarrier::Immediate)
            }
        };
    let input = CoreInput::Shutdown { reason, failed_write_id, now };
    lemma_logged(view, PortEvent::CoreCalled { input, actions });
    lemma_batch(view.asked(input, actions), false, actions, middle, failure);
}

/// An applied batch with its failure handling keeps every promise.
pub proof fn lemma_absorbed<C>(
    view: DriverView<C>,
    permit: bool,
    actions: Seq<CoreAction>,
    first_reason: Option<GenerationCloseReason>,
    now: MonoTime,
    after: DriverView<C>,
)
    requires
        model::well_formed(view),
        model::absorbed(view, permit, actions, first_reason, now, after),
    ensures
        model::well_formed(after),
        model::advances(view, after),
{
    let (middle, failure) = choose|
        middle: DriverView<C>,
        failure: Option<ActionApplicationFailure>,
    |
        {
            &&& #[trigger] model::batch(view, permit, actions, middle, failure)
            &&& match failure {
                None => after == middle,
                Some(failure) => model::failed_over(
                    middle,
                    match first_reason {
                        Some(reason) => reason,
                        None => model::failure_report(failure).0,
                    },
                    model::failure_report(failure).1,
                    now,
                    after,
                ),
            }
        };
    lemma_batch(view, permit, actions, middle, failure);
    if let Some(failure) = failure {
        lemma_failed_over(
            middle,
            match first_reason {
                Some(reason) => reason,
                None => model::failure_report(failure).0,
            },
            model::failure_report(failure).1,
            now,
            after,
        );
    }
}

proof fn lemma_served_concat<C>(history: Seq<PortEvent<C>>, events: Seq<PortEvent<C>>)
    ensures
        model::served(history + events) == model::served(history) + model::served(events),
        model::closes(history + events) == model::closes(history) + model::closes(events),
    decreases events.len(),
{
    if events.len() == 0 {
        assert(history + events =~= history);
        assert(model::served(history) + model::served(events) =~= model::served(history));
    } else {
        lemma_served_concat(history, events.drop_last());
        assert((history + events).drop_last() =~= history + events.drop_last());
        assert(model::served(history + events) =~= model::served(history) + model::served(events));
    }
}

proof fn lemma_orphans<C>(pending: Seq<PendingCompletion<C>>, owned: Seq<bool>)
    requires
        owned.len() >= pending.len(),
    ensures
        ({
            let endpoint = |entry: PendingCompletion<C>| entry.completion;
            &&& model::still_owned(pending, owned).map_values(endpoint).to_multiset().add(
                model::served(model::orphan_events(pending, owned)).to_multiset(),
            ) == pending.map_values(endpoint).to_multiset()
            &&& model::closes(model::orphan_events(pending, owned)) == 0
        }),
    decreases pending.len(),
{
    let endpoint = |entry: PendingCompletion<C>| entry.completion;
    if pending.len() == 0 {
        assert(model::still_owned(pending, owned).map_values(endpoint) =~= Seq::<C>::empty());
        assert(pending.map_values(endpoint) =~= Seq::<C>::empty());
        Seq::<C>::empty().to_multiset_ensures();
        assert(Seq::<C>::empty().to_multiset() =~= vstd::multiset::Multiset::<C>::empty());
    } else {
        let front = pending.drop_last();
        lemma_orphans(front, owned);
        let last = pending.last();
        assert(pending.map_values(endpoint) =~= front.map_values(endpoint).push(last.completion));
        vstd::seq_lib::to_multiset_build(front.map_values(endpoint), last.completion);
        if owned[pending.len() - 1] {
            let kept = model::still_owned(front, owned);
            assert(kept.push(last).map_values(endpoint) =~= kept.map_values(endpoint).push(
                last.completion,
            ));
            vstd::seq_lib::to_multiset_build(kept.map_values(endpoint), last.completion);
        } else {
            let events = model::orphan_events(front, owned);
            let event = PortEvent::Completed {
                completion: last.completion,
                result: last.kind.lost(),
            };
            lemma_served_push(events, event);
            vstd::seq_lib::to_multiset_build(model::served(events), last.completion);
        }
        assert(model::still_owned(pending, owned).map_values(endpoint).to_multiset().add(
            model::served(model::orphan_events(pending, owned)).to_multiset(),
        ) =~= pending.map_values(endpoint).to_multiset());
    }
}

proof fn lemma_queue_events<C>(queue: Seq<AcceptedCommand<C>>)
    ensures
        model::served(model::queue_events(queue)) == queue.map_values(
            |command: AcceptedCommand<C>| command.completion,
        ),
        model::closes(model::queue_events(queue)) == 0,
    decreases queue.len(),
{
    let endpoint = |command: AcceptedCommand<C>| command.completion;
    if queue.len() == 0 {
        assert(model::queue_events(queue) =~= Seq::empty());
        assert(queue.map_values(endpoint) =~= Seq::empty());
    } else {
        lemma_queue_events(queue.drop_last());
        assert(model::queue_events(queue).drop_last() =~= model::queue_events(queue.drop_last()));
        assert(queue.map_values(endpoint) =~= queue.drop_last().map_values(endpoint).push(
            queue.last().completion,
        ));
    }
}

proof fn lemma_still_owned_ascending<C>(pending: Seq<PendingCompletion<C>>, owned: Seq<bool>)
    requires
        forall|i: int, j: int|
            0 <= i < j < pending.len() ==> (#[trigger] pending[i]).command_id.value < (
            #[trigger] pending[j]).command_id.value,
    ensures
        ({
            let kept = model::still_owned(pending, owned);
            &&& forall|i: int, j: int|
                0 <= i < j < kept.len() ==> (#[trigger] kept[i]).command_id.value < (
                #[trigger] kept[j]).command_id.value
            &&& forall|i: int| 0 <= i < kept.len() ==> pending.contains(#[trigger] kept[i])
        }),
    decreases pending.len(),
{
    if pending.len() != 0 {
        let front = pending.drop_last();
        assert forall|i: int, j: int| 0 <= i < j < front.len() implies (
        #[trigger] front[i]).command_id.value < (#[trigger] front[j]).command_id.value by {
            assert(front[i] == pending[i] && front[j] == pending[j]);
        }
        lemma_still_owned_ascending(front, owned);
        let before = model::still_owned(front, owned);
        let kept = model::still_owned(pending, owned);
        assert forall|i: int| 0 <= i < kept.len() implies pending.contains(#[trigger] kept[i]) by {
            if i < before.len() {
                assert(kept[i] == before[i]);
                assert(front.contains(before[i]));
                let k = choose|k: int| 0 <= k < front.len() && front[k] == before[i];
                assert(pending[k] == kept[i]);
            } else {
                assert(pending[pending.len() - 1] == kept[i]);
            }
        }
        assert forall|i: int, j: int| 0 <= i < j < kept.len() implies (
        #[trigger] kept[i]).command_id.value < (#[trigger] kept[j]).command_id.value by {
            assert(kept[i] == before[i]);
            if j == before.len() {
                assert(front.contains(before[i]));
                let k = choose|k: int| 0 <= k < front.len() && front[k] == before[i];
                assert(pending[k] == kept[i]);
                assert(kept[j] == pending[pending.len() - 1]);
            } else {
                assert(kept[j] == before[j]);
            }
        }
    }
}

/// A drain keeps every promise and leaves no accepted command behind.
pub proof fn lemma_drained<C>(view: DriverView<C>, owned: Seq<bool>)
    requires
        model::well_formed(view),
        owned.len() == view.pending.len(),
    ensures
        model::well_formed(model::drained(view, owned)),
        model::advances(view, model::drained(view, owned)),
{
    let after = model::drained(view, owned);
    let orphans = model::orphan_events(view.pending, owned);
    let lost = model::queue_events(view.queue);
    let of_pending = |entry: PendingCompletion<C>| entry.completion;
    let of_queue = |command: AcceptedCommand<C>| command.completion;
    lemma_served_concat(view.history, orphans);
    lemma_served_concat(view.history + orphans, lost);
    lemma_orphans(view.pending, owned);
    lemma_queue_events(view.queue);
    lemma_still_owned_ascending(view.pending, owned);
    let history = model::served(view.history);
    vstd::seq_lib::lemma_multiset_commutative(history, model::served(orphans));
    vstd::seq_lib::lemma_multiset_commutative(
        history + model::served(orphans),
        model::served(lost),
    );
    assert(after.queue.map_values(of_queue) =~= Seq::<C>::empty());
    Seq::<C>::empty().to_multiset_ensures();
    assert(Seq::<C>::empty().to_multiset() =~= vstd::multiset::Multiset::<C>::empty());
    assert(model::custody(after) =~= model::custody(view));
    assert(after.history =~= view.history + (orphans + lost));
    assert(model::charges(after.queue) == 0);
    assert forall|i: int| 0 <= i < after.pending.len() && after.next_command_id is Some implies (
    #[trigger] after.pending[i]).command_id.value < after.next_command_id->0 by {
        assert(view.pending.contains(after.pending[i]));
    }
}

/// Closing the transport when it is due keeps every promise and leaves nothing
/// outstanding.
pub proof fn lemma_finished<C>(view: DriverView<C>, after: DriverView<C>)
    requires
        model::well_formed(view),
        model::finished(view, after),
    ensures
        model::well_formed(after),
        model::advances(view, after),
        model::calm(after),
{
    if model::ready_to_close(view.closing) && !view.transport_closed {
        let closed = DriverView {
            transport_closed: true,
            ..view.logged(PortEvent::TransportClosed)
        };
        let owned = choose|owned: Seq<bool>|
            owned.len() == closed.pending.len() && after == #[trigger] model::drained(
                model::surveyed(closed, owned),
                owned,
            );
        lemma_served_push(view.history, PortEvent::TransportClosed);
        lemma_closed_drained(view, owned);
    }
}

/// The close and its drain, taken together.
proof fn lemma_closed_drained<C>(view: DriverView<C>, owned: Seq<bool>)
    requires
        model::well_formed(view),
        !view.transport_closed,
        model::ready_to_close(view.closing),
        owned.len() == view.pending.len(),
    ensures
        ({
            let closed = DriverView {
                transport_closed: true,
                ..view.logged(PortEvent::TransportClosed)
            };
            let after = model::drained(model::surveyed(closed, owned), owned);
            &&& model::well_formed(after)
            &&& model::advances(view, after)
        }),
{
    let closed = DriverView { transport_closed: true, ..view.logged(PortEvent::TransportClosed) };
    let asked = model::surveyed(closed, owned);
    let after = model::drained(asked, owned);
    lemma_drained(view, owned);
    let orphans = model::orphan_events(view.pending, owned);
    let lost = model::queue_events(view.queue);
    lemma_served_push(view.history, PortEvent::TransportClosed);
    lemma_served_push(closed.history, asked.history.last());
    lemma_served_concat(asked.history, orphans);
    lemma_served_concat(asked.history + orphans, lost);
    lemma_served_concat(view.history, orphans);
    lemma_served_concat(view.history + orphans, lost);
    lemma_orphans(view.pending, owned);
    lemma_queue_events(view.queue);
    let straight = model::drained(view, owned);
    assert(model::served(after.history) =~= model::served(straight.history));
    assert(model::custody(after) == model::custody(straight));
    assert(after.history =~= view.history + (seq![
        PortEvent::TransportClosed,
        asked.history.last(),
    ] + orphans + lost));
}

/// An applied batch keeps every promise and leaves nothing outstanding.
pub proof fn lemma_applied<C>(
    view: DriverView<C>,
    permit: bool,
    actions: Seq<CoreAction>,
    now: MonoTime,
    after: DriverView<C>,
)
    requires
        model::well_formed(view),
        model::applied(view, permit, actions, now, after),
    ensures
        model::well_formed(after),
        model::advances(view, after),
        model::calm(after),
{
    let middle = choose|middle: DriverView<C>| #[trigger]
        model::absorbed(view, permit, actions, None, now, middle) && model::finished(middle, after);
    lemma_absorbed(view, permit, actions, None, now, middle);
    lemma_finished(middle, after);
}

/// A core call with its batch keeps every promise and leaves nothing outstanding.
pub proof fn lemma_answered<C>(
    view: DriverView<C>,
    input: CoreInput,
    permit: bool,
    now: MonoTime,
    after: DriverView<C>,
)
    requires
        model::well_formed(view),
        model::answered(view, input, permit, now, after),
    ensures
        model::well_formed(after),
        model::advances(view, after),
        model::calm(after),
{
    let actions = choose|actions: Seq<CoreAction>| #[trigger]
        model::applied(view.asked(input, actions), permit, actions, now, after);
    lemma_logged(view, PortEvent::CoreCalled { input, actions });
    lemma_applied(view.asked(input, actions), permit, actions, now, after);
}

/// A shutdown keeps every promise and ends with a closed transport.
pub proof fn lemma_shut_down<C>(
    view: DriverView<C>,
    reason: GenerationCloseReason,
    failed_write_id: Option<WriteId>,
    now: MonoTime,
    after: DriverView<C>,
)
    requires
        model::well_formed(view),
        model::shut_down(view, reason, failed_write_id, now, after),
    ensures
        model::well_formed(after),
        model::advances(view, after),
        model::calm(after),
        after.transport_closed,
{
    let input = CoreInput::Shutdown { reason, failed_write_id, now };
    let (actions, middle) = choose|actions: Seq<CoreAction>, middle: DriverView<C>|
        {
            &&& #[trigger] model::absorbed(
                view.asked(input, actions),
                false,
                actions,
                None,
                now,
                middle,
            )
            &&& model::finished(middle.closing_with(reason, CloseBarrier::Immediate), after)
        };
    lemma_logged(view, PortEvent::CoreCalled { input, actions });
    lemma_absorbed(view.asked(input, actions), false, actions, None, now, middle);
    lemma_closing_with(middle, reason, CloseBarrier::Immediate);
    lemma_finished(middle.closing_with(reason, CloseBarrier::Immediate), after);
}

/// Giving the oldest accepted command back serves its endpoint once.
pub proof fn lemma_given_back<C>(view: DriverView<C>, error: crate::error::OperationError)
    requires
        model::well_formed(view),
        view.queue.len() > 0,
    ensures
        ({
            let after = model::given_back(model::dequeued(view), view.queue[0], error);
            &&& model::well_formed(after)
            &&& model::advances(view, after)
            &&& model::calm(view) ==> model::calm(after)
        }),
{
    let command = view.queue[0];
    let after = model::given_back(model::dequeued(view), command, error);
    lemma_dequeue(view);
    lemma_served_push(
        view.history,
        PortEvent::Completed {
            completion: command.completion,
            result: command.kind.spec_rejected(error),
        },
    );
    vstd::seq_lib::to_multiset_build(model::served(view.history), command.completion);
    assert(model::custody(after) =~= model::custody(view));
}

/// Dequeuing removes one endpoint from the FIFO and its charge from the budget.
proof fn lemma_dequeue<C>(view: DriverView<C>)
    requires
        model::well_formed(view),
        view.queue.len() > 0,
    ensures
        ({
            let endpoint = |command: AcceptedCommand<C>| command.completion;
            let endpoints = view.queue.map_values(endpoint);
            &&& model::dequeued(view).queue.map_values(endpoint).to_multiset()
                == endpoints.to_multiset().remove(view.queue[0].completion)
            &&& endpoints.to_multiset().count(view.queue[0].completion) > 0
            &&& model::dequeued(view).command_bytes == model::charges(
                model::dequeued(view).queue,
            )
        }),
{
    let endpoint = |command: AcceptedCommand<C>| command.completion;
    let endpoints = view.queue.map_values(endpoint);
    assert(model::dequeued(view).queue.map_values(endpoint) =~= endpoints.remove(0));
    vstd::seq_lib::to_multiset_remove(endpoints, 0);
    endpoints.to_multiset_ensures();
    assert(endpoints.contains(endpoints[0]));
    lemma_charges_bound(view.queue.drop_first());
}

proof fn lemma_charges_bound<C>(queue: Seq<AcceptedCommand<C>>)
    ensures
        model::charges(queue) >= 0,
    decreases queue.len(),
{
    if queue.len() != 0 {
        lemma_charges_bound(queue.drop_first());
    }
}

/// Entering the core moves one endpoint from the FIFO to the pending table.
pub proof fn lemma_entering<C>(view: DriverView<C>, value: u64)
    requires
        model::well_formed(view),
        view.queue.len() > 0,
        view.next_command_id == Some(value),
    ensures
        model::well_formed(model::entering(model::dequeued(view), view.queue[0], value)),
        model::advances(view, model::entering(model::dequeued(view), view.queue[0], value)),
{
    let command = view.queue[0];
    let after = model::entering(model::dequeued(view), command, value);
    lemma_dequeue(view);
    let endpoint = |entry: PendingCompletion<C>| entry.completion;
    let endpoints = view.pending.map_values(endpoint);
    assert(after.pending.map_values(endpoint) =~= endpoints.push(command.completion));
    vstd::seq_lib::to_multiset_build(endpoints, command.completion);
    assert(model::custody(after) =~= model::custody(view));
}

/// A dequeued command that enters the core keeps every promise.
proof fn lemma_entered<C>(
    view: DriverView<C>,
    permit: bool,
    now: MonoTime,
    after: DriverView<C>,
)
    requires
        model::well_formed(view),
        view.queue.len() > 0,
        model::entered(model::dequeued(view), view.queue[0], permit, now, after),
    ensures
        model::well_formed(after),
        model::advances(view, after),
        model::calm(after),
{
    let command = view.queue[0];
    match view.next_command_id {
        Some(value) => {
            lemma_entering(view, value);
            lemma_answered(
                model::entering(model::dequeued(view), command, value),
                model::command_input(
                    crate::model::ids::CommandId { value },
                    command.kind,
                    now,
                ),
                permit,
                now,
                after,
            );
        },
        None => {
            let release = choose|release: Result<(), DataPermitError>| #[trigger]
                model::shut_down(
                    model::given_back(
                        model::released(model::dequeued(view), permit, release),
                        command,
                        crate::error::OperationError::ConnectionLost,
                    ),
                    GenerationCloseReason::RuntimeInvariant,
                    None,
                    now,
                    after,
                );
            let base = model::released(view, permit, release);
            if permit {
                lemma_logged(view, PortEvent::Released { answer: release });
            }
            assert(model::released(model::dequeued(view), permit, release) == model::dequeued(
                base,
            ));
            lemma_given_back(base, crate::error::OperationError::ConnectionLost);
            lemma_shut_down(
                model::given_back(
                    model::dequeued(base),
                    command,
                    crate::error::OperationError::ConnectionLost,
                ),
                GenerationCloseReason::RuntimeInvariant,
                None,
                now,
                after,
            );
        },
    }
}

/// Executing the oldest accepted command keeps every promise.
pub proof fn lemma_executed<C>(
    view: DriverView<C>,
    replies_blocked: bool,
    now: MonoTime,
    after: DriverView<C>,
)
    requires
        model::well_formed(view),
        model::calm(view),
        view.queue.len() > 0,
        model::executed(model::dequeued(view), view.queue[0], replies_blocked, now, after),
    ensures
        model::well_formed(after),
        model::advances(view, after),
        model::calm(after),
{
    let command = view.queue[0];
    let dequeued = model::dequeued(view);
    if command.kind.answers_peer() && replies_blocked {
        lemma_given_back(view, crate::error::OperationError::Draining);
    } else if !command.kind.writes_data() {
        lemma_entered(view, false, now, after);
    } else {
        let failure = choose|failure: Option<crate::error::OperationError>| #[trigger]
            model::reserved(dequeued, command, failure, now, after);
        let event = PortEvent::Reserved { body: command.kind.frame_body(), failure };
        let base = view.logged(event);
        lemma_logged(view, event);
        assert(model::dequeued(base) == dequeued.logged(event));
        match failure {
            None => {
                lemma_entered(base, true, now, after);
            },
            Some(error) => {
                lemma_given_back(base, error);
                let refused = model::given_back(model::dequeued(base), command, error);
                if error == crate::error::OperationError::ConnectionLost {
                    let middle = choose|middle: DriverView<C>| #[trigger]
                        model::failed_over(
                            refused,
                            GenerationCloseReason::TransportLost,
                            None,
                            now,
                            middle,
                        ) && model::finished(middle, after);
                    lemma_failed_over(
                        refused,
                        GenerationCloseReason::TransportLost,
                        None,
                        now,
                        middle,
                    );
                    lemma_finished(middle, after);
                }
            },
        }
    }
}

/// Accepting a command puts exactly its endpoint into custody.
pub proof fn law_acceptance_takes_custody<C>(
    view: DriverView<C>,
    kind: crate::generation::driver::command::AcceptedCommandKind,
    completion: C,
    charge: usize,
)
    ensures
        model::custody(model::accepted(view, kind, completion, charge)) == model::custody(
            view,
        ).insert(completion),
{
    let endpoint = |command: AcceptedCommand<C>| command.completion;
    let endpoints = view.queue.map_values(endpoint);
    let after = model::accepted(view, kind, completion, charge);
    assert(after.queue.map_values(endpoint) =~= endpoints.push(completion));
    vstd::seq_lib::to_multiset_build(endpoints, completion);
    assert(model::custody(after) =~= model::custody(view).insert(completion));
}

/// A settled write keeps every promise.
pub proof fn lemma_write_settled<C>(view: DriverView<C>, write_id: WriteId)
    requires
        model::well_formed(view),
    ensures
        model::well_formed(model::write_settled(view, write_id)),
        model::advances(view, model::write_settled(view, write_id)),
{
}

/// The end of the Writer keeps every promise.
pub proof fn lemma_writer_gone<C>(view: DriverView<C>)
    requires
        model::well_formed(view),
    ensures
        model::well_formed(model::writer_gone(view)),
        model::advances(view, model::writer_gone(view)),
{
}

/// Closing the transport touches no outstanding write.
pub proof fn lemma_finished_keeps_admitted<C>(view: DriverView<C>, after: DriverView<C>)
    requires
        model::finished(view, after),
    ensures
        after.admitted == view.admitted,
{
}

/// Every accepted endpoint is served exactly once: when the transport is closed
/// and the core owns no command any more, the endpoints served are, one for one,
/// those that the Driver had in custody at any earlier time or had served by then.
pub proof fn law_every_endpoint_is_served_once<C>(before: DriverView<C>, after: DriverView<C>)
    requires
        model::advances(before, after),
        model::well_formed(after),
        after.transport_closed,
        after.pending.len() == 0,
    ensures
        model::served(after.history).to_multiset() == model::custody(before),
{
    let of_pending = |entry: PendingCompletion<C>| entry.completion;
    let of_queue = |command: AcceptedCommand<C>| command.completion;
    assert(after.queue.map_values(of_queue) =~= Seq::<C>::empty());
    assert(after.pending.map_values(of_pending) =~= Seq::<C>::empty());
    Seq::<C>::empty().to_multiset_ensures();
    assert(Seq::<C>::empty().to_multiset() =~= vstd::multiset::Multiset::<C>::empty());
    assert(model::custody(after) =~= model::served(after.history).to_multiset());
}

/// The transport is closed at most once in the life of a Driver, and only after
/// the generation began to close.
pub proof fn law_transport_closes_once<C>(view: DriverView<C>)
    requires
        model::well_formed(view),
    ensures
        model::closes(view.history) <= 1,
        model::closes(view.history) == 1 <==> view.transport_closed,
        view.transport_closed ==> view.closing is Some,
{
}

/// The first close reason is the one reported: a later shutdown changes neither
/// it nor the fact that the transport is closed.
pub proof fn law_first_close_reason_wins<C>(
    view: DriverView<C>,
    reason: GenerationCloseReason,
    failed_write_id: Option<WriteId>,
    now: MonoTime,
    after: DriverView<C>,
)
    requires
        model::well_formed(view),
        view.closing is Some,
        model::shut_down(view, reason, failed_write_id, now, after),
    ensures
        after.closing is Some,
        after.closing->0.reason == view.closing->0.reason,
        after.transport_closed,
        model::closes(after.history) == 1,
{
    lemma_shut_down(view, reason, failed_write_id, now, after);
}

/// Command identities are never reused: a command that enters the core takes one
/// that no pending command has, and every later one is larger.
pub proof fn law_command_identities_are_fresh<C>(
    view: DriverView<C>,
    command: AcceptedCommand<C>,
    value: u64,
)
    requires
        model::well_formed(view),
        view.next_command_id == Some(value),
    ensures
        forall|i: int|
            0 <= i < view.pending.len() ==> (#[trigger] view.pending[i]).command_id.value != value,
        model::entering(view, command, value).next_command_id matches Some(next) ==> next > value,
        model::entering(view, command, value).next_command_id is None <==> value == u64::MAX,
{
}

/// A close that waits for a write leaves the transport open until that write
/// settles or an immediate close is asked for.
pub proof fn law_barrier_holds_the_transport<C>(
    view: DriverView<C>,
    reason: GenerationCloseReason,
    write_id: WriteId,
    other: WriteId,
    later: GenerationCloseReason,
    after: DriverView<C>,
)
    requires
        view.closing is None,
        other != write_id,
        model::finished(view.closing_with(reason, CloseBarrier::AfterWrite(write_id)), after),
    ensures
        after.transport_closed == view.transport_closed,
        after.history == view.history,
        !model::ready_to_close(after.closing),
        !model::ready_to_close(model::barrier_after(after.closing, other)),
        model::ready_to_close(model::barrier_after(after.closing, write_id)),
        model::ready_to_close(after.closing_with(later, CloseBarrier::Immediate).closing),
        after.closing_with(later, CloseBarrier::Immediate).closing->0.reason == reason,
{
}

} // verus!
