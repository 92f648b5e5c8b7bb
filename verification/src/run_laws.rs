//! What holds of every run of the registry.

use vstd::prelude::*;

use crate::envelope::{Channel, RequestV};
use crate::handlers::{
    active_provider, listing, refreshed, refreshing, reloading, starting, switching, EffectV,
};
use crate::notice::{request_id, NoticeV};
use crate::provider::{empty_state, ProviderView};
use crate::registry::{
    advanced, arrived, begun, closing, current, first_task, found, loaded, next_tasks, opening,
    performing, round, serving, signalled, stamping, task_action, time, ActionV, EventV, IntentV,
    PurposeV, RunView, TaskV,
};

verus! {

/// Whether a run has a task, and its last task is to wait for requests or to stop.
pub open spec fn alive(run: RunView) -> bool {
    run.tasks.len() > 0 && (run.tasks.last() is Receive || run.tasks.last() is Stop)
}

/// A run always has something to do, and what it has to do ends with waiting for
/// requests or with stopping.
pub proof fn law_run_stays_alive(run: RunView, event: EventV)
    ensures
        alive(begun()),
        alive(run) ==> alive(advanced(run, event)),
{
    if alive(run) {
        let task = current(run);
        let rest = run.tasks.skip(1);
        let next = advanced(run, event).tasks;
        if rest.len() > 0 {
            assert(rest.last() == run.tasks.last());
            assert(next == rest || next.last() == rest.last() || next.last() is Stop);
        }
    }
}

/// The run with tasks to do before others.
pub open spec fn run_with(first: Seq<TaskV>, rest: Seq<TaskV>, serial: u64) -> RunView {
    RunView { tasks: first + rest, serial }
}

proof fn lemma_one_step(task: TaskV, rest: Seq<TaskV>, serial: u64, event: EventV)
    ensures
        current(run_with(seq![task], rest, serial)) == task,
        advanced(run_with(seq![task], rest, serial), event).tasks == next_tasks(
            task,
            event,
            serial,
            rest,
        ),
        !(task is Stamp) ==> advanced(run_with(seq![task], rest, serial), event).serial == serial,
{
    assert((seq![task] + rest).skip(1) =~= rest);
}

/// Effects are done one after the other, whether or not one of them fails, and then
/// the run goes on.
pub proof fn law_effects_performed(
    effects: Seq<EffectV>,
    rest: Seq<TaskV>,
    serial: u64,
    event: EventV,
)
    requires
        effects.len() > 0,
    ensures
        task_action(current(run_with(performing(effects), rest, serial))) == task_action(
            TaskV::Perform(effects[0]),
        ),
        advanced(run_with(performing(effects), rest, serial), event) == run_with(
            performing(effects.skip(1)),
            rest,
            serial,
        ),
{
    let tasks = performing(effects) + rest;
    assert(tasks[0] == TaskV::Perform(effects[0]));
    assert(tasks.skip(1) =~= performing(effects.skip(1)) + rest);
}

/// The query for the providers is served by a discovery, the reading of the stored
/// state, and the effects that these two decide.
pub proof fn law_list_served(rest: Seq<TaskV>, serial: u64, hook: EventV, store: EventV)
    ensures
        advanced(
            advanced(run_with(serving(seq![RequestV::ListProviders]), rest, serial), hook),
            store,
        ) == run_with(performing(listing(loaded(store), found(hook))), rest, serial),
{
    let task = first_task(RequestV::ListProviders);
    assert(serving(seq![RequestV::ListProviders]) =~= seq![task]);
    lemma_one_step(task, rest, serial, hook);
    lemma_one_step(TaskV::Load(IntentV::List(found(hook))), rest, serial, store);
}

/// The query for the active model is served by the reading of the stored state and
/// answered with the provider that its active model ID names.
pub proof fn law_lookup_served(rest: Seq<TaskV>, serial: u64, store: EventV)
    ensures
        advanced(run_with(serving(seq![RequestV::ActiveModel]), rest, serial), store) == run_with(
            performing(
                seq![EffectV::Publish(NoticeV::ActiveModel(active_provider(loaded(store))))],
            ),
            rest,
            serial,
        ),
{
    let task = first_task(RequestV::ActiveModel);
    assert(serving(seq![RequestV::ActiveModel]) =~= seq![task]);
    lemma_one_step(task, rest, serial, store);
}

/// A switch is served by the reading of the stored state, by a discovery only where
/// that has no providers, and by the effects that these decide.
pub proof fn law_switch_served(
    id: Seq<char>,
    rest: Seq<TaskV>,
    serial: u64,
    store: EventV,
    hook: EventV,
)
    ensures
        ({
            let asked = run_with(serving(seq![RequestV::SwitchModel(id)]), rest, serial);
            let state = loaded(store);
            if state.providers.len() > 0 {
                forall|found: Seq<ProviderView>| #[trigger]
                    run_with(performing(switching(state, found, id)), rest, serial) == advanced(
                        asked,
                        store,
                    )
            } else {
                &&& task_action(current(advanced(asked, store))) is Trigger
                &&& advanced(advanced(asked, store), hook) == run_with(
                    performing(switching(state, found(hook), id)),
                    rest,
                    serial,
                )
            }
        }),
{
    let task = first_task(RequestV::SwitchModel(id));
    let state = loaded(store);
    assert(serving(seq![RequestV::SwitchModel(id)]) =~= seq![task]);
    lemma_one_step(task, rest, serial, store);
    if state.providers.len() > 0 {
        assert forall|found: Seq<ProviderView>| #[trigger] switching(state, found, id)
            == switching(state, Seq::empty(), id) by {}
    } else {
        lemma_one_step(TaskV::Discover(PurposeV::Switch(id)), rest, serial, hook);
        assert(switching(state, found(hook), id) == switching(empty_state(), found(hook), id));
    }
}

/// A switch that names no model is refused at once: nothing is read and nothing is
/// stored.
pub proof fn law_unnamed_switch_refused(rest: Seq<TaskV>, serial: u64)
    ensures
        run_with(serving(seq![RequestV::UnnamedSwitch]), rest, serial) == run_with(
            performing(seq![EffectV::Publish(NoticeV::MissingModelId)]),
            rest,
            serial,
        ),
{
    assert(serving(seq![RequestV::UnnamedSwitch]) =~= performing(
        seq![EffectV::Publish(NoticeV::MissingModelId)],
    ));
}

/// The request to pick a model is served by a discovery and the reading of the
/// stored state. If that leaves providers, they are offered under an identifier
/// made of the time and the serial number; otherwise nothing is published.
pub proof fn law_pick_served(
    rest: Seq<TaskV>,
    serial: u64,
    hook: EventV,
    store: EventV,
    clock: EventV,
)
    ensures
        ({
            let asked = run_with(serving(seq![RequestV::PickModel]), rest, serial);
            let state = loaded(store);
            let providers = refreshed(state, found(hook)).providers;
            &&& advanced(advanced(asked, hook), store) == run_with(
                performing(refreshing(state, found(hook))) + stamping(providers),
                rest,
                serial,
            )
            &&& advanced(run_with(seq![TaskV::Stamp(providers)], rest, serial), clock).tasks
                == performing(
                seq![
                    EffectV::Publish(
                        NoticeV::Selection {
                            request_id: request_id(time(clock) as nat, serial as nat),
                            providers,
                        },
                    ),
                ],
            ) + rest
        }),
{
    let task = first_task(RequestV::PickModel);
    assert(serving(seq![RequestV::PickModel]) =~= seq![task]);
    lemma_one_step(task, rest, serial, hook);
    lemma_one_step(TaskV::Load(IntentV::Pick(found(hook))), rest, serial, store);
    lemma_one_step(
        TaskV::Stamp(refreshed(loaded(store), found(hook)).providers),
        rest,
        serial,
        clock,
    );
}

/// Every selection request takes a serial number of its own: the number changes
/// with each of them, and with nothing else.
pub proof fn law_serial_numbers_selections(run: RunView, event: EventV)
    ensures
        (advanced(run, event).serial != run.serial) == (current(run) is Stamp),
{
}

/// A signal that the kernel did not send is discarded.
pub proof fn law_untrusted_signal_discarded(rest: Seq<TaskV>, serial: u64, event: EventV)
    requires
        !signalled(event),
    ensures
        advanced(run_with(seq![TaskV::Poll(Channel::Reloads)], rest, serial), event) == run_with(
            Seq::empty(),
            rest,
            serial,
        ),
{
    lemma_one_step(TaskV::Poll(Channel::Reloads), rest, serial, event);
    assert(Seq::<TaskV>::empty() + rest =~= rest);
}

/// The kernel's signal is followed by a discovery, the reading of the stored state,
/// and the effects that bring the state up to date.
pub proof fn law_reload_served(
    rest: Seq<TaskV>,
    serial: u64,
    event: EventV,
    hook: EventV,
    store: EventV,
)
    requires
        signalled(event),
    ensures
        advanced(
            advanced(
                advanced(run_with(seq![TaskV::Poll(Channel::Reloads)], rest, serial), event),
                hook,
            ),
            store,
        ) == run_with(performing(reloading(loaded(store), found(hook))), rest, serial),
{
    lemma_one_step(TaskV::Poll(Channel::Reloads), rest, serial, event);
    lemma_one_step(TaskV::Discover(PurposeV::Reload), rest, serial, hook);
    lemma_one_step(TaskV::Load(IntentV::Reload(found(hook))), rest, serial, store);
}

/// The state of a run after a row of events.
pub open spec fn advanced_by(run: RunView, events: Seq<EventV>) -> RunView
    decreases events.len(),
{
    if events.len() == 0 {
        run
    } else {
        advanced(advanced_by(run, events.drop_last()), events.last())
    }
}

/// A run whose subscriptions succeed goes through its opening in order, whatever
/// comes of the signal of readiness and of the wait for the kernel, brings the state
/// up to date, and then waits for requests.
pub proof fn law_opening(events: Seq<EventV>)
    requires
        events.len() == 8,
        forall|i: int| 0 <= i < 8 ==> !((#[trigger] events[i]) is Failed) || i == 3 || i >= 5,
    ensures
        forall|i: int| 0 <= i < 7 ==> current(#[trigger] advanced_by(begun(), events.take(i)))
            == opening()[i],
        advanced_by(begun(), events) == run_with(
            performing(starting(loaded(events[7]), found(events[6]))),
            seq![TaskV::Receive],
            0,
        ),
{
    assert forall|i: int| 0 <= i < 7 implies #[trigger] advanced_by(begun(), events.take(i)) == (
    RunView { tasks: opening().skip(i), serial: 0 }) by {
        lemma_opening_prefix(events, i);
    }
    let rest = seq![TaskV::Receive];
    let discovering = run_with(seq![TaskV::Discover(PurposeV::Start)], rest, 0);
    assert(opening().skip(6) =~= seq![TaskV::Discover(PurposeV::Start)] + rest);
    assert(advanced_by(begun(), events.take(6)) == discovering);
    assert(events.take(7).drop_last() =~= events.take(6));
    assert(advanced_by(begun(), events.take(7)) == advanced(discovering, events[6]));
    assert(events.drop_last() =~= events.take(7));
    lemma_one_step(TaskV::Discover(PurposeV::Start), rest, 0, events[6]);
    lemma_one_step(TaskV::Load(IntentV::Start(found(events[6]))), rest, 0, events[7]);
}

proof fn lemma_opening_prefix(events: Seq<EventV>, count: int)
    requires
        events.len() == 8,
        forall|i: int| 0 <= i < 8 ==> !((#[trigger] events[i]) is Failed) || i == 3 || i >= 5,
        0 <= count <= 6,
    ensures
        advanced_by(begun(), events.take(count)) == (RunView {
            tasks: opening().skip(count),
            serial: 0,
        }),
    decreases count,
{
    if count == 0 {
        assert(opening().skip(0) =~= opening());
    } else {
        lemma_opening_prefix(events, count - 1);
        assert(events.take(count).drop_last() =~= events.take(count - 1));
        assert(events.take(count).last() == events[count - 1]);
        assert(opening().skip(count - 1).skip(1) =~= opening().skip(count));
        assert(opening().skip(count - 1)[0] == opening()[count - 1]);
    }
}

/// A subscription that fails ends the run with its message.
pub proof fn law_failed_subscription_stops(
    channel: Channel,
    rest: Seq<TaskV>,
    serial: u64,
    message: Seq<char>,
)
    ensures
        task_action(
            current(
                advanced(
                    run_with(seq![TaskV::Subscribe(channel)], rest, serial),
                    EventV::Failed(message),
                ),
            ),
        ) == ActionV::Stop(Some(message)),
{
    lemma_one_step(TaskV::Subscribe(channel), rest, serial, EventV::Failed(message));
}

/// After requests were waited for, those that arrived are served, then the other
/// channels are looked at, and then requests are waited for again.
pub proof fn law_round(serial: u64, event: EventV)
    requires
        !(event is Failed),
    ensures
        advanced(run_with(seq![TaskV::Receive], Seq::empty(), serial), event) == run_with(
            serving(arrived(Channel::Requests, event)),
            round(),
            serial,
        ),
{
    lemma_one_step(TaskV::Receive, Seq::empty(), serial, event);
    let tasks = serving(arrived(Channel::Requests, event)) + round();
    assert(tasks + Seq::<TaskV>::empty() =~= tasks);
}

/// When the wait for requests fails, the four subscriptions are cancelled and the
/// run ends without a failure, whatever comes of the cancelling.
pub proof fn law_failed_wait_ends_run(
    rest: Seq<TaskV>,
    serial: u64,
    message: Seq<char>,
    events: Seq<EventV>,
)
    requires
        events.len() == 4,
    ensures
        advanced(run_with(seq![TaskV::Receive], rest, serial), EventV::Failed(message)) == (
        RunView { tasks: closing(), serial }),
        task_action(current(advanced_by(RunView { tasks: closing(), serial }, events)))
            == ActionV::Stop(None),
{
    lemma_one_step(TaskV::Receive, rest, serial, EventV::Failed(message));
    reveal_with_fuel(advanced_by, 5);
    assert(closing().skip(1).skip(1).skip(1).skip(1) =~= seq![TaskV::Stop(None)]);
}

/// A run that has stopped stays stopped.
pub proof fn law_stopped_stays_stopped(run: RunView, event: EventV)
    requires
        current(run) is Stop,
    ensures
        current(advanced(run, event)) == current(run),
{
}

} // verus!
