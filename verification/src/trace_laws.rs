//! What holds of a run over many steps, whatever comes of its actions.

use vstd::prelude::*;

use crate::envelope::{Channel, RequestV};
use crate::handlers::{
    active_provider, listing, refreshed, refreshing, starting, switching, EffectV,
};
use crate::notice::{law_request_id_unique, request_id, NoticeV};
use crate::provider::{empty_state, StateView};
use crate::registry::{
    advanced, after_discovery, after_load, arrived, begun_from, current, first_task, found, loaded,
    next_tasks, performing, round, serving, stamping, task_action, time, ActionV, EventV, IntentV,
    PurposeV, RunView, TaskV,
};
use crate::run_laws::advanced_by;

verus! {

/// The state of a run after the first `count` of a row of events.
pub open spec fn after(run: RunView, events: Seq<EventV>, count: int) -> RunView {
    advanced_by(run, events.take(count))
}

proof fn lemma_after(run: RunView, events: Seq<EventV>, count: int)
    requires
        0 <= count < events.len(),
    ensures
        after(run, events, count + 1) == advanced(after(run, events, count), events[count]),
{
    assert(events.take(count + 1).drop_last() =~= events.take(count));
    assert(events.take(count + 1).last() == events[count]);
}

proof fn lemma_after_none(run: RunView, events: Seq<EventV>)
    ensures
        after(run, events, 0) == run,
        events.take(0) == Seq::<EventV>::empty(),
{
    assert(events.take(0) =~= Seq::<EventV>::empty());
}

/// Whether no task is to stop with a failure.
spec fn unfailing(tasks: Seq<TaskV>) -> bool {
    forall|i: int| 0 <= i < tasks.len() ==> !((#[trigger] tasks[i]) matches TaskV::Stop(Some(_)))
}

/// Whether the subscription that a run was making at some step failed with a message.
pub open spec fn subscription_failed(
    run: RunView,
    events: Seq<EventV>,
    step: int,
    message: Seq<char>,
) -> bool {
    &&& 0 <= step < events.len()
    &&& current(after(run, events, step)) is Subscribe
    &&& events[step] == EventV::Failed(message)
}

proof fn lemma_unfailing_step(run: RunView, event: EventV)
    requires
        unfailing(run.tasks),
    ensures
        unfailing(advanced(run, event).tasks) || (current(run) is Subscribe && event is Failed
            && advanced(run, event).tasks == seq![TaskV::Stop(Some(event->Failed_0))]),
{
    let task = current(run);
    let rest = run.tasks.skip(1);
    if run.tasks.len() > 0 {
        assert forall|i: int| 0 <= i < rest.len() implies !((
        #[trigger] rest[i]) matches TaskV::Stop(Some(_))) by {
            assert(rest[i] == run.tasks[i + 1]);
        }
        assert(run.tasks[0] == task);
    }
}

proof fn lemma_unfailing(serial: u64, events: Seq<EventV>, count: int)
    requires
        0 <= count <= events.len(),
    ensures
        unfailing(after(begun_from(serial), events, count).tasks) || exists|
            step: int,
            message: Seq<char>,
        | #[trigger]
            subscription_failed(begun_from(serial), events, step, message) && after(
                begun_from(serial),
                events,
                count,
            ).tasks == seq![TaskV::Stop(Some(message))],
    decreases count,
{
    let run = begun_from(serial);
    if count == 0 {
        lemma_after_none(run, events);
    } else {
        lemma_unfailing(serial, events, count - 1);
        lemma_after(run, events, count - 1);
        let before = after(run, events, count - 1);
        let event = events[count - 1];
        if unfailing(before.tasks) {
            lemma_unfailing_step(before, event);
            if !unfailing(advanced(before, event).tasks) {
                assert(subscription_failed(run, events, count - 1, event->Failed_0));
            }
        } else {
            let (step, message) = choose|step: int, message: Seq<char>| #[trigger]
                subscription_failed(run, events, step, message) && before.tasks == seq![
                    TaskV::Stop(Some(message)),
                ];
            assert(advanced(before, event).tasks =~= before.tasks);
            assert(subscription_failed(run, events, step, message));
        }
    }
}

/// A run stops with a failure only if a subscription failed, and with its message.
pub proof fn law_failure_is_a_failed_subscription(
    serial: u64,
    events: Seq<EventV>,
    message: Seq<char>,
)
    requires
        task_action(current(advanced_by(begun_from(serial), events))) == ActionV::Stop(
            Some(message),
        ),
    ensures
        exists|step: int| #[trigger]
            subscription_failed(begun_from(serial), events, step, message),
{
    let run = begun_from(serial);
    let last = advanced_by(run, events);
    assert(events.take(events.len() as int) =~= events);
    lemma_unfailing(serial, events, events.len() as int);
    assert(current(last) == TaskV::Stop(Some(message)));
    assert(last.tasks[0] == current(last));
    let (step, told) = choose|step: int, told: Seq<char>| #[trigger]
        subscription_failed(run, events, step, told) && last.tasks == seq![
            TaskV::Stop(Some(told)),
        ];
    assert(subscription_failed(run, events, step, message));
}

/// How many selection requests a run makes over a row of events.
pub open spec fn stamps(run: RunView, events: Seq<EventV>) -> nat
    decreases events.len(),
{
    if events.len() == 0 {
        0
    } else {
        let earlier = events.drop_last();
        stamps(run, earlier) + if current(advanced_by(run, earlier)) is Stamp {
            1nat
        } else {
            0nat
        }
    }
}

/// Selection requests are numbered one by one, from the number that the run began
/// with, and in a circle of 2^64 numbers.
pub proof fn law_selections_counted(run: RunView, events: Seq<EventV>)
    ensures
        advanced_by(run, events).serial == (run.serial + stamps(run, events))
            % 0x1_0000_0000_0000_0000,
    decreases events.len(),
{
    if events.len() > 0 {
        law_selections_counted(run, events.drop_last());
    }
}

proof fn lemma_stamps_grow(run: RunView, events: Seq<EventV>, few: int, many: int)
    requires
        0 <= few <= many <= events.len(),
    ensures
        stamps(run, events.take(few)) <= stamps(run, events.take(many)),
    decreases many,
{
    if few < many {
        lemma_stamps_grow(run, events, few, many - 1);
        assert(events.take(many).drop_last() =~= events.take(many - 1));
    }
}

/// The identifier of the selection request that a run is publishing, if it is
/// publishing one.
pub open spec fn offered_under(run: RunView) -> Option<Seq<char>> {
    match current(run) {
        TaskV::Perform(EffectV::Publish(NoticeV::Selection { request_id, .. })) => Some(
            request_id,
        ),
        _ => None,
    }
}

/// Whether no task is to publish a selection request.
spec fn unoffered(tasks: Seq<TaskV>) -> bool {
    forall|i: int|
        0 <= i < tasks.len() ==> !((#[trigger] tasks[i]) matches TaskV::Perform(
            EffectV::Publish(NoticeV::Selection { .. }),
        ))
}

proof fn lemma_unoffered_all(first: Seq<TaskV>, second: Seq<TaskV>)
    requires
        unoffered(first),
        unoffered(second),
    ensures
        unoffered(first + second),
{
    let all = first + second;
    assert forall|i: int| 0 <= i < all.len() implies !((#[trigger] all[i]) matches TaskV::Perform(
        EffectV::Publish(NoticeV::Selection { .. }),
    )) by {
        if i < first.len() {
            assert(all[i] == first[i]);
        } else {
            assert(all[i] == second[i - first.len()]);
        }
    }
}

proof fn lemma_unoffered_effects(effects: Seq<EffectV>)
    requires
        forall|i: int|
            0 <= i < effects.len() ==> !((#[trigger] effects[i]) matches EffectV::Publish(
                NoticeV::Selection { .. },
            )),
    ensures
        unoffered(performing(effects)),
{
    assert forall|i: int| 0 <= i < performing(effects).len() implies !((
    #[trigger] performing(effects)[i]) matches TaskV::Perform(
        EffectV::Publish(NoticeV::Selection { .. }),
    )) by {
        assert(performing(effects)[i] == TaskV::Perform(effects[i]));
    }
}

proof fn lemma_unoffered_load(intent: IntentV, state: StateView)
    ensures
        unoffered(after_load(intent, state)),
{
    match intent {
        IntentV::List(found) => lemma_unoffered_effects(listing(state, found)),
        IntentV::Pick(found) => {
            lemma_unoffered_effects(refreshing(state, found));
            lemma_unoffered_all(
                performing(refreshing(state, found)),
                stamping(refreshed(state, found).providers),
            );
        },
        IntentV::Start(found) => lemma_unoffered_effects(starting(state, found)),
        IntentV::Reload(found) => lemma_unoffered_effects(starting(state, found)),
        IntentV::Lookup => lemma_unoffered_effects(
            seq![EffectV::Publish(NoticeV::ActiveModel(active_provider(state)))],
        ),
        IntentV::Switch(id) => lemma_unoffered_effects(switching(state, Seq::empty(), id)),
    }
}

proof fn lemma_unoffered_serving(requests: Seq<RequestV>)
    ensures
        unoffered(serving(requests)),
{
    assert forall|i: int| 0 <= i < serving(requests).len() implies !((
    #[trigger] serving(requests)[i]) matches TaskV::Perform(
        EffectV::Publish(NoticeV::Selection { .. }),
    )) by {
        assert(serving(requests)[i] == first_task(requests[i]));
    }
}

/// A task that takes no time for a selection request leads to none.
proof fn lemma_unoffered_next(task: TaskV, event: EventV, serial: u64, rest: Seq<TaskV>)
    requires
        !(task is Stamp),
        !(task is Stop),
        unoffered(rest),
    ensures
        unoffered(next_tasks(task, event, serial, rest)),
{
    match task {
        TaskV::Receive => {
            lemma_unoffered_serving(arrived(Channel::Requests, event));
            lemma_unoffered_all(serving(arrived(Channel::Requests, event)), round());
            lemma_unoffered_all(serving(arrived(Channel::Requests, event)) + round(), rest);
        },
        TaskV::Poll(channel) => {
            lemma_unoffered_serving(arrived(channel, event));
            lemma_unoffered_all(serving(arrived(channel, event)), rest);
            lemma_unoffered_all(seq![TaskV::Discover(PurposeV::Reload)], rest);
        },
        TaskV::Discover(purpose) => {
            match purpose {
                PurposeV::Switch(id) => lemma_unoffered_effects(
                    switching(empty_state(), found(event), id),
                ),
                _ => {},
            }
            lemma_unoffered_all(after_discovery(purpose, found(event)), rest);
        },
        TaskV::Load(intent) => {
            lemma_unoffered_load(intent, loaded(event));
            lemma_unoffered_all(after_load(intent, loaded(event)), rest);
        },
        _ => {},
    }
}

/// Whether no task but the first is to publish a selection request.
spec fn unoffered_later(run: RunView) -> bool {
    forall|i: int|
        0 < i < run.tasks.len() ==> !((#[trigger] run.tasks[i]) matches TaskV::Perform(
            EffectV::Publish(NoticeV::Selection { .. }),
        ))
}

/// The only task that leads to a selection request is the one that takes its time
/// and number, and the request is what the run does next.
proof fn lemma_offered_step(run: RunView, event: EventV)
    requires
        unoffered_later(run),
    ensures
        unoffered_later(advanced(run, event)),
        offered_under(advanced(run, event)) is Some ==> current(run) is Stamp && offered_under(
            advanced(run, event),
        ) == Some(request_id(time(event) as nat, run.serial as nat)),
{
    let task = current(run);
    let rest = run.tasks.skip(1);
    let next = advanced(run, event).tasks;
    if task is Stop {
        assert(next =~= seq![task]);
    } else {
        assert forall|i: int| 0 <= i < rest.len() implies !((
        #[trigger] rest[i]) matches TaskV::Perform(
            EffectV::Publish(NoticeV::Selection { .. }),
        )) by {
            assert(rest[i] == run.tasks[i + 1]);
        }
        if task is Stamp {
            assert(next.len() == rest.len() + 1);
            assert forall|i: int| 0 < i < next.len() implies !((
            #[trigger] next[i]) matches TaskV::Perform(
                EffectV::Publish(NoticeV::Selection { .. }),
            )) by {
                assert(next[i] == rest[i - 1]);
            }
        } else {
            lemma_unoffered_next(task, event, run.serial, rest);
        }
    }
}

proof fn lemma_offered(serial: u64, events: Seq<EventV>, count: int) -> (millis: nat)
    requires
        0 <= count <= events.len(),
    ensures
        unoffered_later(after(begun_from(serial), events, count)),
        offered_under(after(begun_from(serial), events, count)) is Some ==> {
            &&& count > 0
            &&& stamps(begun_from(serial), events.take(count)) == stamps(
                begun_from(serial),
                events.take(count - 1),
            ) + 1
            &&& offered_under(after(begun_from(serial), events, count)) == Some(
                request_id(
                    millis,
                    ((serial + stamps(begun_from(serial), events.take(count - 1)))
                        % 0x1_0000_0000_0000_0000) as nat,
                ),
            )
        },
    decreases count,
{
    let run = begun_from(serial);
    if count == 0 {
        lemma_after_none(run, events);
        0
    } else {
        let _earlier = lemma_offered(serial, events, count - 1);
        lemma_after(run, events, count - 1);
        assert(events.take(count).drop_last() =~= events.take(count - 1));
        lemma_offered_step(after(run, events, count - 1), events[count - 1]);
        law_selections_counted(run, events.take(count - 1));
        time(events[count - 1]) as nat
    }
}

/// No two selection requests of a run have the same identifier while no more than
/// 2^64 are made, even where they are made in the same millisecond or the clock goes
/// back.
pub proof fn law_selections_differ(serial: u64, events: Seq<EventV>, early: int, late: int)
    requires
        0 <= early < late <= events.len(),
        offered_under(after(begun_from(serial), events, early)) is Some,
        offered_under(after(begun_from(serial), events, late)) is Some,
        stamps(begun_from(serial), events.take(late)) <= 0x1_0000_0000_0000_0000,
    ensures
        offered_under(after(begun_from(serial), events, early)) != offered_under(
            after(begun_from(serial), events, late),
        ),
{
    let run = begun_from(serial);
    let first_millis = lemma_offered(serial, events, early);
    let second_millis = lemma_offered(serial, events, late);
    lemma_stamps_grow(run, events, early, late - 1);
    lemma_numbers_differ(
        serial,
        stamps(run, events.take(early - 1)),
        stamps(run, events.take(late - 1)),
        first_millis,
        second_millis,
    );
}

proof fn lemma_numbers_differ(
    serial: u64,
    few: nat,
    many: nat,
    millis: nat,
    other_millis: nat,
)
    requires
        few < many < 0x1_0000_0000_0000_0000,
    ensures
        request_id(millis, ((serial + few) % 0x1_0000_0000_0000_0000) as nat) != request_id(
            other_millis,
            ((serial + many) % 0x1_0000_0000_0000_0000) as nat,
        ),
{
    let number = ((serial + few) % 0x1_0000_0000_0000_0000) as nat;
    let other = ((serial + many) % 0x1_0000_0000_0000_0000) as nat;
    assert(number != other);
    if request_id(millis, number) == request_id(other_millis, other) {
        law_request_id_unique(millis, number, other_millis, other);
    }
}

/// To count on from a number in a circle is to count on from the start.
proof fn lemma_circle(serial: u64, first: nat, second: nat)
    ensures
        ((serial + first) % 0x1_0000_0000_0000_0000 + second) % 0x1_0000_0000_0000_0000 == (serial
            + (first + second)) % 0x1_0000_0000_0000_0000,
{
    let turns = (serial + first) / 0x1_0000_0000_0000_0000;
    let rest = (serial + first) % 0x1_0000_0000_0000_0000;
    assert(serial + (first + second) == 0x1_0000_0000_0000_0000 * turns + (rest + second));
}

/// No two selection requests of two runs, the second of which goes on with the
/// numbers of the first, have the same identifier while no more than 2^64 are made.
pub proof fn law_selections_differ_between_runs(
    serial: u64,
    events: Seq<EventV>,
    early: int,
    later_events: Seq<EventV>,
    late: int,
)
    requires
        0 <= early <= events.len(),
        0 <= late <= later_events.len(),
        offered_under(after(begun_from(serial), events, early)) is Some,
        offered_under(
            after(
                begun_from(advanced_by(begun_from(serial), events).serial),
                later_events,
                late,
            ),
        ) is Some,
        stamps(begun_from(serial), events) + stamps(
            begun_from(advanced_by(begun_from(serial), events).serial),
            later_events.take(late),
        ) <= 0x1_0000_0000_0000_0000,
    ensures
        offered_under(after(begun_from(serial), events, early)) != offered_under(
            after(
                begun_from(advanced_by(begun_from(serial), events).serial),
                later_events,
                late,
            ),
        ),
{
    let run = begun_from(serial);
    let next = advanced_by(run, events).serial;
    let first_millis = lemma_offered(serial, events, early);
    let second_millis = lemma_offered(next, later_events, late);
    law_selections_counted(run, events);
    assert(events.take(events.len() as int) =~= events);
    lemma_stamps_grow(run, events, early, events.len() as int);
    let before = stamps(begun_from(next), later_events.take(late - 1));
    lemma_circle(serial, stamps(run, events), before);
    lemma_numbers_differ(
        serial,
        stamps(run, events.take(early - 1)),
        stamps(run, events) + before,
        first_millis,
        second_millis,
    );
}

} // verus!
