//! What holds of the responses to the queries of an envelope, whatever comes of the
//! actions that serve them.

use vstd::prelude::*;

use crate::envelope::{
    member_text, messages, protocol_request, requests_of, Channel, RequestV,
};
use crate::handlers::{active_provider, listing, switching, EffectV};
use crate::json::{json_text, JsonV};
use crate::notice::{notice_topic, NoticeV};
use crate::provider::{empty_state, ProviderView, StateView};
use crate::registry::{
    advanced, after_discovery, after_load, arrived, current, first_task, found, loaded, next_tasks,
    performing, round, serving, task_action, ActionV, EventV, IntentV, PurposeV, RunView, TaskV,
};
use crate::run_laws::{advanced_by, law_round, run_with};

verus! {

/// The response topic, if any, on which a run is publishing.
pub open spec fn responding(run: RunView) -> Seq<Seq<char>> {
    match task_action(current(run)) {
        ActionV::Publish(topic, _) => if "registry.v1.response."@.is_prefix_of(topic) {
            seq![topic]
        } else {
            Seq::empty()
        },
        _ => Seq::empty(),
    }
}

/// The response topics on which a run publishes over a row of events, in order.
pub open spec fn responses(run: RunView, events: Seq<EventV>) -> Seq<Seq<char>>
    decreases events.len(),
{
    if events.len() == 0 {
        Seq::empty()
    } else {
        responses(run, events.drop_last()) + responding(advanced_by(run, events.drop_last()))
    }
}

/// The topic of the response to a request. One to pick a model has a response only
/// where there are models.
pub open spec fn response_topic(request: RequestV) -> Seq<char> {
    match request {
        RequestV::ListProviders => "registry.v1.response.get_providers"@,
        RequestV::ActiveModel => "registry.v1.response.get_active_model"@,
        RequestV::SwitchModel(_) => "registry.v1.response.set_active_model"@,
        RequestV::UnnamedSwitch => "registry.v1.response.set_active_model"@,
        RequestV::PickModel => "registry.v1.response.models"@,
    }
}

/// Whether a task serves a query or a switch.
spec fn serves(task: TaskV) -> bool {
    match task {
        TaskV::Discover(purpose) => purpose is List || purpose is Switch,
        TaskV::Load(intent) => intent is List || intent is Lookup || intent is Switch,
        TaskV::Perform(_) => true,
        _ => false,
    }
}

/// The topics of the responses that a task leads to.
spec fn owed_by(task: TaskV) -> Seq<Seq<char>> {
    match task {
        TaskV::Discover(PurposeV::List) => seq![response_topic(RequestV::ListProviders)],
        TaskV::Discover(PurposeV::Switch(_)) => seq![response_topic(RequestV::UnnamedSwitch)],
        TaskV::Load(IntentV::List(_)) => seq![response_topic(RequestV::ListProviders)],
        TaskV::Load(IntentV::Lookup) => seq![response_topic(RequestV::ActiveModel)],
        TaskV::Load(IntentV::Switch(_)) => seq![response_topic(RequestV::UnnamedSwitch)],
        TaskV::Perform(EffectV::Publish(notice)) => if notice is ModelChanged {
            Seq::empty()
        } else {
            seq![notice_topic(notice)]
        },
        _ => Seq::empty(),
    }
}

/// The topics of the responses that tasks lead to, in order.
spec fn owed(tasks: Seq<TaskV>) -> Seq<Seq<char>>
    decreases tasks.len(),
{
    if tasks.len() == 0 {
        Seq::empty()
    } else {
        owed(tasks.drop_last()) + owed_by(tasks.last())
    }
}

/// The number of steps that a task may take.
spec fn effort_of(task: TaskV) -> nat {
    match task {
        TaskV::Discover(_) => 4,
        TaskV::Load(IntentV::List(_)) => 3,
        TaskV::Load(IntentV::Lookup) => 2,
        TaskV::Load(_) => 5,
        _ => 1,
    }
}

/// The number of steps that tasks may take.
spec fn effort(tasks: Seq<TaskV>) -> nat
    decreases tasks.len(),
{
    if tasks.len() == 0 {
        0
    } else {
        effort(tasks.drop_last()) + effort_of(tasks.last())
    }
}

spec fn all_serve(tasks: Seq<TaskV>) -> bool {
    forall|i: int| 0 <= i < tasks.len() ==> serves(#[trigger] tasks[i])
}

proof fn lemma_sums(first: Seq<TaskV>, second: Seq<TaskV>)
    ensures
        owed(first + second) == owed(first) + owed(second),
        effort(first + second) == effort(first) + effort(second),
    decreases second.len(),
{
    let all = first + second;
    if second.len() == 0 {
        assert(all =~= first);
        assert(owed(first) + owed(second) =~= owed(first));
    } else {
        lemma_sums(first, second.drop_last());
        assert(all.drop_last() =~= first + second.drop_last());
        assert(all.last() == second.last());
        assert(owed(all) =~= owed(first) + owed(second));
    }
}

proof fn lemma_single(task: TaskV)
    ensures
        owed(seq![task]) == owed_by(task),
        effort(seq![task]) == effort_of(task),
{
    assert(seq![task].drop_last() =~= Seq::<TaskV>::empty());
    assert(owed(seq![task].drop_last()) =~= Seq::<Seq<char>>::empty());
    assert(effort(seq![task].drop_last()) == 0);
    assert(owed(seq![task]) =~= owed_by(task));
}

proof fn lemma_listing(state: StateView, found: Seq<ProviderView>)
    ensures
        all_serve(performing(listing(state, found))),
        owed(performing(listing(state, found))) == seq![response_topic(RequestV::ListProviders)],
        effort(performing(listing(state, found))) <= 2,
{
    let effects = listing(state, found);
    let tasks = performing(effects);
    let answer = TaskV::Perform(effects.last());
    lemma_single(answer);
    if found.len() > 0 {
        let store = TaskV::Perform(effects[0]);
        lemma_single(store);
        lemma_sums(seq![store], seq![answer]);
        assert(tasks =~= seq![store] + seq![answer]);
        assert(owed(tasks) =~= owed_by(answer));
    } else {
        assert(tasks =~= seq![answer]);
    }
}

proof fn lemma_switching(state: StateView, found: Seq<ProviderView>, id: Seq<char>)
    ensures
        all_serve(performing(switching(state, found, id))),
        owed(performing(switching(state, found, id))) == seq![
            response_topic(RequestV::UnnamedSwitch),
        ],
        effort(performing(switching(state, found, id))) <= 3,
{
    let effects = switching(state, found, id);
    let tasks = performing(effects);
    let answer = TaskV::Perform(effects.last());
    lemma_single(answer);
    if effects.len() == 3 {
        let store = TaskV::Perform(effects[0]);
        let announce = TaskV::Perform(effects[1]);
        lemma_single(store);
        lemma_single(announce);
        lemma_sums(seq![store], seq![announce]);
        lemma_sums(seq![store] + seq![announce], seq![answer]);
        assert(tasks =~= seq![store] + seq![announce] + seq![answer]);
        assert(owed(tasks) =~= owed_by(answer));
    } else {
        assert(tasks =~= seq![answer]);
    }
}

/// A task that serves a query leads to tasks that do, and to the same responses with
/// what it publishes itself.
proof fn lemma_task(task: TaskV, event: EventV, serial: u64, rest: Seq<TaskV>)
    requires
        serves(task),
    ensures
        ({
            let more = next_tasks(task, event, serial, Seq::empty());
            &&& next_tasks(task, event, serial, rest) == more + rest
            &&& all_serve(more)
            &&& owed_by(task) == responding(run_with(seq![task], rest, serial)) + owed(more)
            &&& effort(more) < effort_of(task)
        }),
{
    let more = next_tasks(task, event, serial, Seq::empty());
    let run = run_with(seq![task], rest, serial);
    assert(current(run) == task);
    match task {
        TaskV::Discover(purpose) => {
            let tasks = after_discovery(purpose, found(event));
            assert(tasks + Seq::<TaskV>::empty() =~= tasks);
            match purpose {
                PurposeV::Switch(id) => lemma_switching(empty_state(), found(event), id),
                _ => lemma_single(TaskV::Load(IntentV::List(found(event)))),
            }
            assert(responding(run) + owed(more) =~= owed(more));
        },
        TaskV::Load(intent) => {
            let state = loaded(event);
            let tasks = after_load(intent, state);
            assert(tasks + Seq::<TaskV>::empty() =~= tasks);
            match intent {
                IntentV::List(found) => lemma_listing(state, found),
                IntentV::Switch(id) => {
                    lemma_switching(state, Seq::empty(), id);
                    lemma_single(TaskV::Discover(PurposeV::Switch(id)));
                },
                _ => {
                    let answer = EffectV::Publish(NoticeV::ActiveModel(active_provider(state)));
                    lemma_single(TaskV::Perform(answer));
                    assert(performing(seq![answer]) =~= seq![TaskV::Perform(answer)]);
                },
            }
            assert(responding(run) + owed(more) =~= owed(more));
        },
        _ => {
            assert(more + rest =~= rest);
            lemma_topics();
            assert(responding(run) =~= owed_by(task));
            assert(responding(run) + owed(more) =~= responding(run));
        },
    }
}

/// All that the registry publishes but the change event is published on a response
/// topic.
proof fn lemma_topics()
    ensures
        forall|notice: NoticeV|
            "registry.v1.response."@.is_prefix_of(#[trigger] notice_topic(notice)) <==> !(
            notice is ModelChanged),
{
    let prefix = "registry.v1.response."@;
    reveal_strlit("registry.v1.response.");
    reveal_strlit("registry.v1.active_model_changed");
    reveal_strlit("registry.v1.response.get_providers");
    reveal_strlit("registry.v1.response.get_active_model");
    reveal_strlit("registry.v1.response.set_active_model");
    reveal_strlit("registry.v1.response.models");
    assert forall|notice: NoticeV|
        prefix.is_prefix_of(#[trigger] notice_topic(notice)) <==> !(notice is ModelChanged) by {
        let topic = notice_topic(notice);
        if notice is ModelChanged {
            assert(topic[12] != prefix[12]);
        } else {
            assert(prefix =~= topic.subrange(0, prefix.len() as int));
        }
    }
}

/// How far tasks that serve queries have come after some steps: `left` is what is
/// still to be done of them.
spec fn progress(
    front: Seq<TaskV>,
    rest: Seq<TaskV>,
    serial: u64,
    events: Seq<EventV>,
    left: Seq<TaskV>,
) -> bool {
    let run = run_with(front, rest, serial);
    &&& advanced_by(run, events) == run_with(left, rest, serial)
    &&& all_serve(left)
    &&& responses(run, events) + owed(left) == owed(front)
    &&& effort(left) + events.len() <= effort(front)
}

proof fn lemma_progress(
    front: Seq<TaskV>,
    rest: Seq<TaskV>,
    serial: u64,
    events: Seq<EventV>,
    limit: int,
) -> (outcome: (int, Seq<TaskV>))
    requires
        all_serve(front),
        0 <= limit <= events.len(),
    ensures
        0 <= outcome.0 <= limit,
        progress(front, rest, serial, events.take(outcome.0), outcome.1),
        outcome.1.len() == 0 || outcome.0 == limit,
    decreases limit,
{
    let run = run_with(front, rest, serial);
    if limit == 0 {
        assert(events.take(0) =~= Seq::<EventV>::empty());
        assert(responses(run, events.take(0)) + owed(front) =~= owed(front));
        (0, front)
    } else {
        let (count, left) = lemma_progress(front, rest, serial, events, limit - 1);
        if left.len() == 0 {
            (count, left)
        } else {
            let event = events[count];
            let task = left[0];
            let later = left.skip(1);
            let more = next_tasks(task, event, serial, Seq::empty());
            let before = run_with(left, rest, serial);
            lemma_task(task, event, serial, later + rest);
            assert(left =~= seq![task] + later);
            assert(left + rest =~= seq![task] + (later + rest));
            assert((left + rest).skip(1) =~= later + rest);
            assert(more + (later + rest) =~= more + later + rest);
            assert(before == run_with(seq![task], later + rest, serial));
            assert(advanced(before, event) == run_with(more + later, rest, serial));
            let read = events.take(limit);
            assert(read.drop_last() =~= events.take(count));
            assert(read.last() == event);
            lemma_sums(seq![task], later);
            lemma_sums(more, later);
            lemma_single(task);
            assert forall|i: int| 0 <= i < (more + later).len() implies serves(
                #[trigger] (more + later)[i],
            ) by {
                if i < more.len() {
                    assert((more + later)[i] == more[i]);
                } else {
                    assert((more + later)[i] == left[i - more.len() + 1]);
                }
            }
            assert(responses(run, read) + owed(more + later) =~= responses(
                run,
                events.take(count),
            ) + owed(left));
            (limit, more + later)
        }
    }
}

/// Whether a row of requests asks to let the user pick a model.
pub open spec fn picks(requests: Seq<RequestV>) -> bool {
    exists|i: int| 0 <= i < requests.len() && (#[trigger] requests[i]) is PickModel
}

/// The topics of the responses to requests, in order.
pub open spec fn response_topics(requests: Seq<RequestV>) -> Seq<Seq<char>> {
    requests.map_values(|request: RequestV| response_topic(request))
}

proof fn lemma_serving(requests: Seq<RequestV>)
    requires
        !picks(requests),
    ensures
        all_serve(serving(requests)),
        owed(serving(requests)) == response_topics(requests),
        effort(serving(requests)) <= 5 * requests.len(),
    decreases requests.len(),
{
    assert forall|i: int| 0 <= i < serving(requests).len() implies serves(
        #[trigger] serving(requests)[i],
    ) by {
        assert(!(requests[i] is PickModel));
    }
    if requests.len() == 0 {
        assert(owed(serving(requests)) =~= response_topics(requests));
    } else {
        let before = requests.drop_last();
        assert forall|i: int| 0 <= i < before.len() implies !((
        #[trigger] before[i]) is PickModel) by {
            assert(before[i] == requests[i]);
        }
        lemma_serving(before);
        let last = requests.last();
        assert(!(requests[requests.len() - 1] is PickModel));
        assert(serving(requests).drop_last() =~= serving(before));
        assert(serving(requests).last() == first_task(last));
        assert(owed_by(first_task(last)) =~= seq![response_topic(last)]);
        assert(owed(serving(requests)) =~= response_topics(requests));
    }
}

/// Queries and switches get one response each, in their order and on the topic of
/// their kind, within five steps for each of them. Whatever comes of the actions, the
/// run then goes on as if it had not been asked.
pub proof fn law_requests_answered(
    requests: Seq<RequestV>,
    rest: Seq<TaskV>,
    serial: u64,
    events: Seq<EventV>,
)
    requires
        !picks(requests),
        events.len() >= 5 * requests.len(),
    ensures
        exists|count: int|
            0 <= count <= 5 * requests.len() && (#[trigger] advanced_by(
                run_with(serving(requests), rest, serial),
                events.take(count),
            )) == (RunView { tasks: rest, serial }) && responses(
                run_with(serving(requests), rest, serial),
                events.take(count),
            ) == response_topics(requests),
{
    let front = serving(requests);
    lemma_serving(requests);
    let (count, left) = lemma_progress(front, rest, serial, events, effort(front) as int);
    if left.len() > 0 {
        assert(effort(left) == effort(left.drop_last()) + effort_of(left.last()));
    }
    assert(left.len() == 0);
    assert(left + rest =~= rest);
    let run = run_with(front, rest, serial);
    assert(responses(run, events.take(count)) + owed(left) =~= responses(run, events.take(count)));
    assert(advanced_by(run, events.take(count)) == (RunView { tasks: rest, serial }));
}

/// The messages of an envelope that are queries or switches of the registry's
/// protocol, in order.
pub open spec fn queries(messages: Seq<JsonV>) -> Seq<JsonV>
    decreases messages.len(),
{
    if messages.len() == 0 {
        Seq::empty()
    } else if protocol_request(messages.last()) is Some {
        queries(messages.drop_last()).push(messages.last())
    } else {
        queries(messages.drop_last())
    }
}

/// The topic of a response to a message: `registry.v1.response.<query>` for
/// `registry.v1.<query>`.
pub open spec fn response_to(message: JsonV) -> Seq<char> {
    let topic = member_text(Some(message), "topic"@)->0;
    "registry.v1.response."@ + topic.skip("registry.v1."@.len() as int)
}

proof fn lemma_response_to(message: JsonV)
    requires
        protocol_request(message) is Some,
    ensures
        response_topic(protocol_request(message)->0) == response_to(message),
        !(protocol_request(message)->0 is PickModel),
{
    reveal_strlit("registry.v1.");
    reveal_strlit("registry.v1.response.");
    reveal_strlit("registry.v1.get_providers");
    reveal_strlit("registry.v1.get_active_model");
    reveal_strlit("registry.v1.set_active_model");
    reveal_strlit("registry.v1.response.get_providers");
    reveal_strlit("registry.v1.response.get_active_model");
    reveal_strlit("registry.v1.response.set_active_model");
    assert(response_topic(protocol_request(message)->0) =~= response_to(message));
}

proof fn lemma_queries(messages: Seq<JsonV>)
    ensures
        !picks(requests_of(Channel::Requests, messages)),
        response_topics(requests_of(Channel::Requests, messages)) == queries(messages).map_values(
            |message: JsonV| response_to(message),
        ),
    decreases messages.len(),
{
    let requests = requests_of(Channel::Requests, messages);
    if messages.len() > 0 {
        let before = messages.drop_last();
        lemma_queries(before);
        if protocol_request(messages.last()) is Some {
            lemma_response_to(messages.last());
            let earlier = requests_of(Channel::Requests, before);
            assert(requests == earlier.push(protocol_request(messages.last())->0));
            assert forall|i: int| 0 <= i < requests.len() implies !((
            #[trigger] requests[i]) is PickModel) by {
                if i < earlier.len() {
                    assert(requests[i] == earlier[i]);
                }
            }
            assert(response_topics(requests) =~= response_topics(earlier).push(
                response_to(messages.last()),
            ));
        }
    }
    assert(response_topics(requests) =~= queries(messages).map_values(
        |message: JsonV| response_to(message),
    ));
}

/// When an envelope of the registry's protocol arrives, each of its queries gets one
/// response, in their order and on its own topic, before the run looks at the other
/// channels; no other message gets one.
pub proof fn law_queries_answered(text: Seq<u8>, serial: u64, events: Seq<EventV>)
    requires
        text.len() > 0,
        events.len() >= 5 * queries(messages(json_text(text))).len(),
    ensures
        ({
            let asked = queries(messages(json_text(text)));
            let run = advanced(
                run_with(seq![TaskV::Receive], Seq::empty(), serial),
                EventV::Received(text),
            );
            exists|count: int|
                0 <= count <= 5 * asked.len() && (#[trigger] advanced_by(run, events.take(count)))
                    == (RunView { tasks: round(), serial }) && responses(run, events.take(count))
                    == asked.map_values(|message: JsonV| response_to(message))
        }),
{
    let event = EventV::Received(text);
    let requests = arrived(Channel::Requests, event);
    lemma_queries(messages(json_text(text)));
    assert(requests.len() == response_topics(requests).len());
    law_round(serial, event);
    law_requests_answered(requests, round(), serial, events);
}

} // verus!
