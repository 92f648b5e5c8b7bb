//! What a run does at each step and for each kind of message, from what arrives to what
//! is stored, published and logged.

use vstd::prelude::*;

use crate::codec::{provider_json, providers_json, state_json};
use crate::discovery::{describe_json, discovered};
use crate::effect_laws::{
    first_with, known, law_active_provider_has_active_id, law_found_providers_replace_known_ones,
    law_listing_publishes_what_was_found, law_start_does_this_only,
    law_stale_model_is_cleared, law_switch_selects_first_with_id, providers_after,
};
use crate::envelope::{from_kernel, messages, requests_of, Channel, RequestV};
use crate::handlers::{
    active_provider, listing, refreshed, refreshing, reloading, starting, switching, Effect,
    EffectV,
};
use crate::json::{array_failure, json_bytes, json_text, JsonV};
use crate::logs::{line_level, line_text, logged, LogLine, LogLineV};
use crate::message_laws::{
    law_choices_are_read, law_commands_are_read, law_described_providers_are_found,
    law_message_is_served, law_messages_are_read, law_queries_are_read, law_switches_are_read,
};
use crate::notice::{notice_json, notice_topic, request_id, NoticeV};
use crate::provider::{ProviderEntry, ProviderView, RegistryState, StateView};
use crate::registry::{
    advanced, arrived, begun_from, channel_topic, current, found, loaded, next_tasks, performing,
    round, serving, signalled, task_action, time, Action, ActionV, Event, EventV, Intent, IntentV,
    Purpose, PurposeV, Registry, RunView, Task, TaskV,
};
use crate::text::{decimal, words};

verus! {

/// The view of an action keeps its kind and what it hands to the host.
pub proof fn law_action_is_seen_whole(
    channel: Channel,
    millis: u64,
    key: &'static str,
    text: Vec<u8>,
    message: String,
)
    ensures
        Action::Subscribe(channel)@ == ActionV::Subscribe(channel),
        Action::SignalReady@ == ActionV::SignalReady,
        Action::Receive(channel, millis)@ == ActionV::Receive(channel, millis),
        Action::Poll(channel)@ == ActionV::Poll(channel),
        Action::Trigger(text)@ == ActionV::Trigger(text@),
        Action::Load(key)@ == ActionV::Load(key@),
        Action::Save(key, text)@ == ActionV::Save(key@, text@),
        Action::Publish(key, text)@ == ActionV::Publish(key@, text@),
        Action::ReadClock@ == ActionV::ReadClock,
        Action::Unsubscribe(channel)@ == ActionV::Unsubscribe(channel),
        Action::Stop(Some(message))@ == ActionV::Stop(Some(message@)),
        Action::Stop(None)@ == ActionV::Stop(None),
{
}

/// The view of an event keeps its kind and what came of the action.
pub proof fn law_event_is_seen_whole(
    message: String,
    text: Vec<u8>,
    state: RegistryState,
    millis: u128,
)
    ensures
        Event::Completed@ == EventV::Completed,
        Event::Failed(message)@ == EventV::Failed(message@),
        Event::Received(text)@ == EventV::Received(text@),
        Event::Loaded(state)@ == EventV::Loaded(state@),
        Event::Time(millis)@ == EventV::Time(millis),
{
}

/// The view of a task keeps its kind and what it is about.
pub proof fn law_task_is_seen_whole(
    task: Task,
    channel: Channel,
    purpose: Purpose,
    intent: Intent,
    effect: Effect,
    providers: Vec<ProviderEntry>,
    text: String,
)
    ensures
        task.deep_view() == task@,
        Task::Subscribe(channel)@ == TaskV::Subscribe(channel),
        Task::SignalReady@ == TaskV::SignalReady,
        Task::AwaitCapsules@ == TaskV::AwaitCapsules,
        Task::Receive@ == TaskV::Receive,
        Task::Poll(channel)@ == TaskV::Poll(channel),
        Task::Discover(purpose)@ == TaskV::Discover(purpose@),
        Task::Load(intent)@ == TaskV::Load(intent@),
        Task::Perform(effect)@ == TaskV::Perform(effect@),
        Task::Stamp(providers)@ == TaskV::Stamp(providers.deep_view()),
        Task::Unsubscribe(channel)@ == TaskV::Unsubscribe(channel),
        Task::Stop(Some(text))@ == TaskV::Stop(Some(text@)),
        Task::Stop(None)@ == TaskV::Stop(None),
        Purpose::List@ == PurposeV::List,
        Purpose::Pick@ == PurposeV::Pick,
        Purpose::Start@ == PurposeV::Start,
        Purpose::Reload@ == PurposeV::Reload,
        Purpose::Switch(text)@ == PurposeV::Switch(text@),
        Intent::List(providers)@ == IntentV::List(providers.deep_view()),
        Intent::Pick(providers)@ == IntentV::Pick(providers.deep_view()),
        Intent::Start(providers)@ == IntentV::Start(providers.deep_view()),
        Intent::Reload(providers)@ == IntentV::Reload(providers.deep_view()),
        Intent::Lookup@ == IntentV::Lookup,
        Intent::Switch(text)@ == IntentV::Switch(text@),
{
}

/// The view of a run keeps all its tasks, in order, and its number.
pub proof fn law_run_is_seen_whole(run: Registry)
    ensures
        run@.tasks.len() == run.tasks@.len(),
        forall|i: int|
            0 <= i < run.tasks@.len() ==> #[trigger] run@.tasks[i] == run.tasks@[i]@,
        run@.serial == run.serial,
{
}

/// Every channel has its topic.
pub proof fn law_channel_topics()
    ensures
        channel_topic(Channel::Requests) == "registry.v1.*"@,
        channel_topic(Channel::Commands) == "cli.v1.command.execute"@,
        channel_topic(Channel::Selections) == "registry.v1.selection.callback"@,
        channel_topic(Channel::Reloads) == "astrid.v1.capsules_loaded"@,
{
}

/// Every task asks for its action: waits take five seconds, the state is kept under one
/// key, and what is stored, published or triggered is the text of its JSON form.
pub proof fn law_tasks_ask_for_actions(
    channel: Channel,
    purpose: PurposeV,
    intent: IntentV,
    state: StateView,
    notice: NoticeV,
    providers: Seq<ProviderView>,
    failure: Option<Seq<char>>,
)
    ensures
        task_action(TaskV::Subscribe(channel)) == ActionV::Subscribe(channel),
        task_action(TaskV::SignalReady) == ActionV::SignalReady,
        task_action(TaskV::AwaitCapsules) == ActionV::Receive(Channel::Reloads, 5000),
        task_action(TaskV::Receive) == ActionV::Receive(Channel::Requests, 5000),
        task_action(TaskV::Poll(channel)) == ActionV::Poll(channel),
        task_action(TaskV::Discover(purpose)) == ActionV::Trigger(json_bytes(describe_json())),
        task_action(TaskV::Load(intent)) == ActionV::Load("registry_state"@),
        task_action(TaskV::Perform(EffectV::Save(state))) == ActionV::Save(
            "registry_state"@,
            json_bytes(state_json(state)),
        ),
        task_action(TaskV::Perform(EffectV::Publish(notice))) == ActionV::Publish(
            notice_topic(notice),
            json_bytes(notice_json(notice)),
        ),
        task_action(TaskV::Stamp(providers)) == ActionV::ReadClock,
        task_action(TaskV::Unsubscribe(channel)) == ActionV::Unsubscribe(channel),
        task_action(TaskV::Stop(failure)) == ActionV::Stop(failure),
{
}

/// What came of an action counts where it is of the action's kind: a text as an envelope
/// where it is not empty, as the kernel's signal where a message in it comes from the
/// kernel, or as the hook's answer; a state as the stored one; a time as the time.
/// Otherwise nothing arrived, was signalled or found, the state is empty, and the time
/// is zero.
pub proof fn law_events_count_by_kind(
    channel: Channel,
    text: Seq<u8>,
    state: StateView,
    millis: u128,
    event: EventV,
)
    ensures
        text.len() > 0 ==> arrived(channel, EventV::Received(text)) == requests_of(
            channel,
            messages(json_text(text)),
        ),
        text.len() == 0 ==> arrived(channel, EventV::Received(text)) == Seq::<RequestV>::empty(),
        signalled(EventV::Received(text)) <==> text.len() > 0 && from_kernel(json_text(text)),
        found(EventV::Received(text)) == discovered(json_text(text)),
        !(event is Received) ==> arrived(channel, event) == Seq::<RequestV>::empty()
            && !signalled(event) && found(event) == Seq::<ProviderView>::empty(),
        loaded(EventV::Loaded(state)) == state,
        !(event is Loaded) ==> loaded(event) == (StateView {
            providers: Seq::empty(),
            active_model_id: None,
        }),
        time(EventV::Time(millis)) == millis,
        !(event is Time) ==> time(event) == 0,
{
}

/// The run with a task to do first.
pub open spec fn doing(task: TaskV, rest: Seq<TaskV>, serial: u64) -> RunView {
    RunView { tasks: seq![task] + rest, serial }
}

/// The tasks of a run that go before others.
pub open spec fn ahead(tasks: Seq<TaskV>, rest: Seq<TaskV>, serial: u64) -> RunView {
    RunView { tasks: tasks + rest, serial }
}

proof fn lemma_step(task: TaskV, rest: Seq<TaskV>, serial: u64, event: EventV)
    ensures
        current(doing(task, rest, serial)) == task,
        advanced(doing(task, rest, serial), event).tasks == next_tasks(task, event, serial, rest),
        advanced(doing(task, rest, serial), event).serial == (if task is Stamp {
            ((serial + 1) % 0x1_0000_0000_0000_0000) as u64
        } else {
            serial
        }),
{
    assert((seq![task] + rest).skip(1) =~= rest);
}

/// A run begins with its subscriptions, with the signal of readiness before the last of
/// them, waits for the kernel, discovers the providers, and then waits for requests.
pub proof fn law_run_begins(serial: u64)
    ensures
        begun_from(serial) == (RunView {
            tasks: seq![
                TaskV::Subscribe(Channel::Requests),
                TaskV::Subscribe(Channel::Commands),
                TaskV::Subscribe(Channel::Selections),
                TaskV::SignalReady,
                TaskV::Subscribe(Channel::Reloads),
                TaskV::AwaitCapsules,
                TaskV::Discover(PurposeV::Start),
                TaskV::Receive,
            ],
            serial,
        }),
{
}

/// The first task is the one being done, and a run without tasks is to stop.
pub proof fn law_first_task_is_done(task: TaskV, rest: Seq<TaskV>, serial: u64)
    ensures
        current(doing(task, rest, serial)) == task,
        current(RunView { tasks: Seq::empty(), serial }) == TaskV::Stop(None),
{
}

/// A subscription that succeeds lets the run go on and one that fails ends it. The
/// signal of readiness, the wait for the kernel, what is stored or published, and the
/// end of a subscription let it go on whatever came of them.
pub proof fn law_run_goes_on(
    channel: Channel,
    effect: EffectV,
    rest: Seq<TaskV>,
    serial: u64,
    event: EventV,
    message: Seq<char>,
)
    ensures
        ({
            let on = RunView { tasks: rest, serial };
            &&& !(event is Failed) ==> advanced(
                doing(TaskV::Subscribe(channel), rest, serial),
                event,
            ) == on
            &&& advanced(
                doing(TaskV::Subscribe(channel), rest, serial),
                EventV::Failed(message),
            ) == (RunView { tasks: seq![TaskV::Stop(Some(message))], serial })
            &&& advanced(doing(TaskV::SignalReady, rest, serial), event) == on
            &&& advanced(doing(TaskV::AwaitCapsules, rest, serial), event) == on
            &&& advanced(doing(TaskV::Perform(effect), rest, serial), event) == on
            &&& advanced(doing(TaskV::Unsubscribe(channel), rest, serial), event) == on
        }),
{
    lemma_step(TaskV::Subscribe(channel), rest, serial, event);
    lemma_step(TaskV::Subscribe(channel), rest, serial, EventV::Failed(message));
    lemma_step(TaskV::SignalReady, rest, serial, event);
    lemma_step(TaskV::AwaitCapsules, rest, serial, event);
    lemma_step(TaskV::Perform(effect), rest, serial, event);
    lemma_step(TaskV::Unsubscribe(channel), rest, serial, event);
}

/// A run that is to stop stays so, with its message where it failed.
pub proof fn law_stop_is_final(
    failure: Option<Seq<char>>,
    rest: Seq<TaskV>,
    serial: u64,
    event: EventV,
)
    ensures
        advanced(doing(TaskV::Stop(failure), rest, serial), event) == (RunView {
            tasks: seq![TaskV::Stop(failure)],
            serial,
        }),
{
    lemma_step(TaskV::Stop(failure), rest, serial, event);
}

/// The task that serves a request first.
pub open spec fn serving_first(request: RequestV, task: TaskV) -> bool {
    match request {
        RequestV::ListProviders => task == TaskV::Discover(PurposeV::List),
        RequestV::ActiveModel => task == TaskV::Load(IntentV::Lookup),
        RequestV::SwitchModel(id) => task == TaskV::Load(IntentV::Switch(id)),
        RequestV::UnnamedSwitch => task == TaskV::Perform(
            EffectV::Publish(NoticeV::MissingModelId),
        ),
        RequestV::PickModel => task == TaskV::Discover(PurposeV::Pick),
    }
}

/// Whether tasks serve requests, one for one and in order.
pub open spec fn serving_all(requests: Seq<RequestV>, tasks: Seq<TaskV>) -> bool {
    &&& tasks.len() == requests.len()
    &&& forall|i: int|
        0 <= i < requests.len() ==> serving_first(requests[i], #[trigger] tasks[i])
}

/// After the wait for requests, those that arrived are served one for one and in order,
/// then the three other channels are looked at, and then requests are waited for again.
/// A wait that fails ends the four subscriptions and the run.
pub proof fn law_requests_are_served_in_order(
    rest: Seq<TaskV>,
    serial: u64,
    event: EventV,
    message: Seq<char>,
)
    ensures
        !(event is Failed) ==> exists|tasks: Seq<TaskV>| #[trigger]
            serving_all(arrived(Channel::Requests, event), tasks) && advanced(
                doing(TaskV::Receive, rest, serial),
                event,
            ) == ahead(
                tasks + seq![
                    TaskV::Poll(Channel::Commands),
                    TaskV::Poll(Channel::Selections),
                    TaskV::Poll(Channel::Reloads),
                    TaskV::Receive,
                ],
                rest,
                serial,
            ),
        advanced(doing(TaskV::Receive, rest, serial), EventV::Failed(message)) == (RunView {
            tasks: seq![
                TaskV::Unsubscribe(Channel::Requests),
                TaskV::Unsubscribe(Channel::Commands),
                TaskV::Unsubscribe(Channel::Selections),
                TaskV::Unsubscribe(Channel::Reloads),
                TaskV::Stop(None),
            ],
            serial,
        }),
{
    lemma_step(TaskV::Receive, rest, serial, event);
    lemma_step(TaskV::Receive, rest, serial, EventV::Failed(message));
    let requests = arrived(Channel::Requests, event);
    lemma_serving_all(requests);
}

proof fn lemma_serving_all(requests: Seq<RequestV>)
    ensures
        serving_all(requests, serving(requests)),
{
    assert forall|i: int| 0 <= i < requests.len() implies serving_first(
        requests[i],
        #[trigger] serving(requests)[i],
    ) by {}
}

/// What arrives on the channels of commands and of choices is served likewise. On the
/// channel of the kernel's signal only that signal counts: it is followed by a
/// discovery.
pub proof fn law_other_channels_are_served(
    channel: Channel,
    rest: Seq<TaskV>,
    serial: u64,
    event: EventV,
)
    ensures
        channel != Channel::Reloads ==> exists|tasks: Seq<TaskV>| #[trigger]
            serving_all(arrived(channel, event), tasks) && advanced(
                doing(TaskV::Poll(channel), rest, serial),
                event,
            ) == ahead(tasks, rest, serial),
        signalled(event) ==> advanced(
            doing(TaskV::Poll(Channel::Reloads), rest, serial),
            event,
        ) == doing(TaskV::Discover(PurposeV::Reload), rest, serial),
        !signalled(event) ==> advanced(
            doing(TaskV::Poll(Channel::Reloads), rest, serial),
            event,
        ) == (RunView { tasks: rest, serial }),
{
    lemma_step(TaskV::Poll(channel), rest, serial, event);
    lemma_step(TaskV::Poll(Channel::Reloads), rest, serial, event);
    lemma_serving_all(arrived(channel, event));
}

/// Whether tasks perform effects, one for one and in order.
pub open spec fn performing_all(effects: Seq<EffectV>, tasks: Seq<TaskV>) -> bool {
    &&& tasks.len() == effects.len()
    &&& forall|i: int|
        0 <= i < effects.len() ==> #[trigger] tasks[i] == TaskV::Perform(effects[i])
}

proof fn lemma_performing_all(effects: Seq<EffectV>)
    ensures
        performing_all(effects, performing(effects)),
{
}

/// A discovery is followed by the reading of the stored state, for what it was made and
/// with what it found; one made for a switch, as no providers are known, by the switch
/// among those that it found.
pub proof fn law_discovery_is_followed_up(
    id: Seq<char>,
    rest: Seq<TaskV>,
    serial: u64,
    event: EventV,
)
    ensures
        advanced(doing(TaskV::Discover(PurposeV::List), rest, serial), event) == doing(
            TaskV::Load(IntentV::List(found(event))),
            rest,
            serial,
        ),
        advanced(doing(TaskV::Discover(PurposeV::Pick), rest, serial), event) == doing(
            TaskV::Load(IntentV::Pick(found(event))),
            rest,
            serial,
        ),
        advanced(doing(TaskV::Discover(PurposeV::Start), rest, serial), event) == doing(
            TaskV::Load(IntentV::Start(found(event))),
            rest,
            serial,
        ),
        advanced(doing(TaskV::Discover(PurposeV::Reload), rest, serial), event) == doing(
            TaskV::Load(IntentV::Reload(found(event))),
            rest,
            serial,
        ),
        exists|tasks: Seq<TaskV>| #[trigger]
            performing_all(
                switching(
                    StateView { providers: Seq::empty(), active_model_id: None },
                    found(event),
                    id,
                ),
                tasks,
            ) && advanced(
                doing(TaskV::Discover(PurposeV::Switch(id)), rest, serial),
                event,
            ) == ahead(tasks, rest, serial),
{
    lemma_step(TaskV::Discover(PurposeV::List), rest, serial, event);
    lemma_step(TaskV::Discover(PurposeV::Pick), rest, serial, event);
    lemma_step(TaskV::Discover(PurposeV::Start), rest, serial, event);
    lemma_step(TaskV::Discover(PurposeV::Reload), rest, serial, event);
    lemma_step(TaskV::Discover(PurposeV::Switch(id)), rest, serial, event);
    let effects = switching(
        StateView { providers: Seq::empty(), active_model_id: None },
        found(event),
        id,
    );
    lemma_performing_all(effects);
    assert(advanced(doing(TaskV::Discover(PurposeV::Switch(id)), rest, serial), event) == ahead(
        performing(effects),
        rest,
        serial,
    ));
}

/// The reading of the stored state is followed by the effects of what it was read for. A
/// switch without known providers is followed by a discovery, and the request to pick a
/// model, where there are providers, by the reading of the clock for a selection request
/// that offers them all.
pub proof fn law_stored_state_is_followed_up(
    providers: Seq<ProviderView>,
    id: Seq<char>,
    rest: Seq<TaskV>,
    serial: u64,
    event: EventV,
)
    ensures
        ({
            let state = loaded(event);
            let list = advanced(
                doing(TaskV::Load(IntentV::List(providers)), rest, serial),
                event,
            );
            let pick = advanced(
                doing(TaskV::Load(IntentV::Pick(providers)), rest, serial),
                event,
            );
            let start = advanced(
                doing(TaskV::Load(IntentV::Start(providers)), rest, serial),
                event,
            );
            let reload = advanced(
                doing(TaskV::Load(IntentV::Reload(providers)), rest, serial),
                event,
            );
            let lookup = advanced(doing(TaskV::Load(IntentV::Lookup), rest, serial), event);
            let switch = advanced(doing(TaskV::Load(IntentV::Switch(id)), rest, serial), event);
            let offers = providers_after(state, providers);
            &&& exists|tasks: Seq<TaskV>| #[trigger]
                performing_all(listing(state, providers), tasks) && list == ahead(
                    tasks,
                    rest,
                    serial,
                )
            &&& exists|tasks: Seq<TaskV>| #[trigger]
                performing_all(refreshing(state, providers), tasks) && pick == ahead(
                    tasks + if offers.len() > 0 {
                        seq![TaskV::Stamp(offers)]
                    } else {
                        Seq::empty()
                    },
                    rest,
                    serial,
                )
            &&& exists|tasks: Seq<TaskV>| #[trigger]
                performing_all(starting(state, providers), tasks) && start == ahead(
                    tasks,
                    rest,
                    serial,
                )
            &&& exists|tasks: Seq<TaskV>| #[trigger]
                performing_all(reloading(state, providers), tasks) && reload == ahead(
                    tasks,
                    rest,
                    serial,
                )
            &&& lookup == doing(
                TaskV::Perform(EffectV::Publish(NoticeV::ActiveModel(active_provider(state)))),
                rest,
                serial,
            )
            &&& state.providers.len() == 0 ==> switch == doing(
                TaskV::Discover(PurposeV::Switch(id)),
                rest,
                serial,
            )
            &&& state.providers.len() > 0 ==> exists|tasks: Seq<TaskV>| #[trigger]
                performing_all(switching(state, Seq::empty(), id), tasks) && switch == ahead(
                    tasks,
                    rest,
                    serial,
                )
        }),
{
    let state = loaded(event);
    law_found_providers_replace_known_ones(state, providers);
    lemma_step(TaskV::Load(IntentV::List(providers)), rest, serial, event);
    lemma_step(TaskV::Load(IntentV::Pick(providers)), rest, serial, event);
    lemma_step(TaskV::Load(IntentV::Start(providers)), rest, serial, event);
    lemma_step(TaskV::Load(IntentV::Reload(providers)), rest, serial, event);
    lemma_step(TaskV::Load(IntentV::Lookup), rest, serial, event);
    lemma_step(TaskV::Load(IntentV::Switch(id)), rest, serial, event);
    lemma_performing_all(listing(state, providers));
    lemma_performing_all(refreshing(state, providers));
    lemma_performing_all(starting(state, providers));
    lemma_performing_all(reloading(state, providers));
    lemma_performing_all(switching(state, Seq::empty(), id));
    let answer = EffectV::Publish(NoticeV::ActiveModel(active_provider(state)));
    assert(performing(seq![answer]) =~= seq![TaskV::Perform(answer)]);
}

/// Once the clock is read, the selection request is published under the identifier made
/// of the time and the number, with all the providers, and the next number is one
/// higher, after the highest zero.
pub proof fn law_selection_is_published(
    providers: Seq<ProviderView>,
    rest: Seq<TaskV>,
    serial: u64,
    event: EventV,
)
    ensures
        advanced(doing(TaskV::Stamp(providers), rest, serial), event) == doing(
            TaskV::Perform(
                EffectV::Publish(
                    NoticeV::Selection {
                        request_id: request_id(time(event) as nat, serial as nat),
                        providers,
                    },
                ),
            ),
            rest,
            if serial == u64::MAX {
                0
            } else {
                (serial + 1) as u64
            },
        ),
{
    lemma_step(TaskV::Stamp(providers), rest, serial, event);
    let offer = EffectV::Publish(
        NoticeV::Selection {
            request_id: request_id(time(event) as nat, serial as nat),
            providers,
        },
    );
    assert(performing(seq![offer]) =~= seq![TaskV::Perform(offer)]);
}

/// Whether a text is an envelope with one message only.
pub open spec fn carries(text: Seq<u8>, message: JsonV) -> bool {
    &&& text.len() > 0
    &&& json_text(text) is Some
    &&& json_text(text)->0.get("messages"@) == Some(JsonV::Array(seq![message]))
}

/// Whether a text is the answer of one capsule that describes some providers.
pub open spec fn answers(text: Seq<u8>, providers: Seq<ProviderView>) -> bool {
    &&& json_text(text) is Some
    &&& json_text(text)->0 is Array
    &&& json_text(text)->0->Array_0.len() == 1
    &&& json_text(text)->0->Array_0[0].get("providers"@) == Some(providers_json(providers))
}

proof fn lemma_answers(text: Seq<u8>, providers: Seq<ProviderView>)
    requires
        answers(text, providers),
    ensures
        found(EventV::Received(text)) == providers,
{
    let response = json_text(text)->0->Array_0[0];
    assert(json_text(text)->0->Array_0 =~= seq![response]);
    law_described_providers_are_found(response, providers);
}

proof fn lemma_carries(channel: Channel, text: Seq<u8>, message: JsonV)
    requires
        carries(text, message),
    ensures
        arrived(channel, EventV::Received(text)) == requests_of(channel, seq![message]),
{
    law_messages_are_read(json_text(text)->0, seq![message]);
}

/// The tasks of a round after the requests are served.
pub open spec fn looking() -> Seq<TaskV> {
    seq![
        TaskV::Poll(Channel::Commands),
        TaskV::Poll(Channel::Selections),
        TaskV::Poll(Channel::Reloads),
        TaskV::Receive,
    ]
}

/// The run after one request of the protocol arrived has its first task to do.
proof fn lemma_one_request(
    text: Seq<u8>,
    message: JsonV,
    request: RequestV,
    task: TaskV,
    serial: u64,
)
    requires
        carries(text, message),
        requests_of(Channel::Requests, seq![message]) == seq![request],
        serving_first(request, task),
    ensures
        advanced(doing(TaskV::Receive, Seq::empty(), serial), EventV::Received(text)) == doing(
            task,
            looking(),
            serial,
        ),
{
    lemma_carries(Channel::Requests, text, message);
    lemma_step(TaskV::Receive, Seq::empty(), serial, EventV::Received(text));
    assert(serving(seq![request]) =~= seq![task]);
    assert(round() =~= looking());
    assert(seq![task] + looking() + Seq::<TaskV>::empty() =~= seq![task] + looking());
}

/// The run after one message on another channel arrived has its first task to do.
proof fn lemma_one_poll(
    channel: Channel,
    text: Seq<u8>,
    message: JsonV,
    request: RequestV,
    task: TaskV,
    rest: Seq<TaskV>,
    serial: u64,
)
    requires
        channel != Channel::Reloads,
        carries(text, message),
        requests_of(channel, seq![message]) == seq![request],
        serving_first(request, task),
    ensures
        advanced(doing(TaskV::Poll(channel), rest, serial), EventV::Received(text)) == doing(
            task,
            rest,
            serial,
        ),
{
    lemma_carries(channel, text, message);
    lemma_step(TaskV::Poll(channel), rest, serial, EventV::Received(text));
    assert(serving(seq![request]) =~= seq![task]);
}

/// A message that queries the providers is answered with those that the capsules then
/// describe, each with all its fields, once they are stored in place of those known
/// before.
pub proof fn law_listing_from_message_to_response(
    text: Seq<u8>,
    message: JsonV,
    hook: Seq<u8>,
    providers: Seq<ProviderView>,
    state: StateView,
    serial: u64,
    saving: EventV,
    publishing: EventV,
)
    requires
        carries(text, message),
        message.get("topic"@) == Some(JsonV::Text("registry.v1.get_providers"@)),
        answers(hook, providers),
        providers.len() > 0,
    ensures
        ({
            let asked = advanced(
                doing(TaskV::Receive, Seq::empty(), serial),
                EventV::Received(text),
            );
            let discovering = advanced(asked, EventV::Received(hook));
            let reading = advanced(discovering, EventV::Loaded(state));
            let saved = advanced(reading, saving);
            let published = advanced(saved, publishing);
            &&& task_action(current(asked)) == ActionV::Trigger(json_bytes(describe_json()))
            &&& task_action(current(discovering)) == ActionV::Load("registry_state"@)
            &&& task_action(current(reading)) == ActionV::Save(
                "registry_state"@,
                json_bytes(
                    state_json(
                        StateView { providers, active_model_id: state.active_model_id },
                    ),
                ),
            )
            &&& task_action(current(saved)) == ActionV::Publish(
                "registry.v1.response.get_providers"@,
                json_bytes(providers_json(providers)),
            )
            &&& task_action(current(published)) == ActionV::Poll(Channel::Commands)
        }),
{
    law_queries_are_read(message);
    law_message_is_served(Channel::Requests, message);
    lemma_one_request(
        text,
        message,
        RequestV::ListProviders,
        TaskV::Discover(PurposeV::List),
        serial,
    );
    lemma_answers(hook, providers);
    lemma_step(
        TaskV::Discover(PurposeV::List),
        looking(),
        serial,
        EventV::Received(hook),
    );
    lemma_step(
        TaskV::Load(IntentV::List(providers)),
        looking(),
        serial,
        EventV::Loaded(state),
    );
    law_listing_publishes_what_was_found(state, providers);
    let store = EffectV::Save(StateView { providers, active_model_id: state.active_model_id });
    let answer = EffectV::Publish(NoticeV::Providers(providers));
    let after = seq![TaskV::Perform(answer)] + looking();
    assert(performing(seq![store, answer]) + looking() =~= seq![TaskV::Perform(store)] + after);
    lemma_step(TaskV::Perform(store), after, serial, saving);
    lemma_step(TaskV::Perform(answer), looking(), serial, publishing);
}

/// A message that queries the active model is answered with the first stored provider
/// that has the active model ID, with all its fields, or with null where there is none.
pub proof fn law_lookup_from_message_to_response(
    text: Seq<u8>,
    message: JsonV,
    state: StateView,
    place: int,
    serial: u64,
)
    requires
        carries(text, message),
        message.get("topic"@) == Some(JsonV::Text("registry.v1.get_active_model"@)),
    ensures
        ({
            let asked = advanced(
                doing(TaskV::Receive, Seq::empty(), serial),
                EventV::Received(text),
            );
            let reading = advanced(asked, EventV::Loaded(state));
            let active = state.active_model_id;
            &&& task_action(current(asked)) == ActionV::Load("registry_state"@)
            &&& active is Some && first_with(state.providers, active->0, place) ==> task_action(
                current(reading),
            ) == ActionV::Publish(
                "registry.v1.response.get_active_model"@,
                json_bytes(provider_json(state.providers[place])),
            )
            &&& active is None || !known(state.providers, active->0) ==> task_action(
                current(reading),
            ) == ActionV::Publish(
                "registry.v1.response.get_active_model"@,
                json_bytes(JsonV::Null),
            )
        }),
{
    law_queries_are_read(message);
    law_message_is_served(Channel::Requests, message);
    lemma_one_request(
        text,
        message,
        RequestV::ActiveModel,
        TaskV::Load(IntentV::Lookup),
        serial,
    );
    law_stored_state_is_followed_up(
        Seq::empty(),
        Seq::empty(),
        looking(),
        serial,
        EventV::Loaded(state),
    );
    law_active_provider_has_active_id(state, place);
}

/// Whether a run that was asked to switch to a model does it: it reads the stored state,
/// stores it with the model active and its providers unchanged, and announces and
/// confirms the first provider that has the model.
pub open spec fn switches(
    asked: RunView,
    state: StateView,
    id: Seq<char>,
    place: int,
    events: (EventV, EventV),
) -> bool {
    let reading = advanced(asked, EventV::Loaded(state));
    let saved = advanced(reading, events.0);
    let announced = advanced(saved, events.1);
    let provider = state.providers[place];
    &&& task_action(current(asked)) == ActionV::Load("registry_state"@)
    &&& task_action(current(reading)) == ActionV::Save(
        "registry_state"@,
        json_bytes(
            state_json(StateView { providers: state.providers, active_model_id: Some(id) }),
        ),
    )
    &&& task_action(current(saved)) == ActionV::Publish(
        "registry.v1.active_model_changed"@,
        json_bytes(provider_json(provider)),
    )
    &&& task_action(current(announced)) == ActionV::Publish(
        "registry.v1.response.set_active_model"@,
        json_bytes(
            JsonV::Object(
                map![
                    "status"@ => JsonV::Text("ok"@),
                    "active_model"@ => provider_json(provider),
                ],
            ),
        ),
    )
}

proof fn lemma_switches(
    rest: Seq<TaskV>,
    serial: u64,
    state: StateView,
    id: Seq<char>,
    place: int,
    events: (EventV, EventV),
)
    requires
        first_with(state.providers, id, place),
    ensures
        switches(doing(TaskV::Load(IntentV::Switch(id)), rest, serial), state, id, place, events),
{
    let event = EventV::Loaded(state);
    lemma_step(TaskV::Load(IntentV::Switch(id)), rest, serial, event);
    law_switch_selects_first_with_id(state, Seq::empty(), id, place);
    let provider = state.providers[place];
    let store = EffectV::Save(
        StateView { providers: state.providers, active_model_id: Some(id) },
    );
    let announce = EffectV::Publish(NoticeV::ModelChanged(provider));
    let confirm = EffectV::Publish(NoticeV::ModelSet(provider));
    let last = seq![TaskV::Perform(confirm)] + rest;
    let later = seq![TaskV::Perform(announce)] + last;
    assert(performing(seq![store, announce, confirm]) + rest =~= seq![TaskV::Perform(store)]
        + later);
    lemma_step(TaskV::Perform(store), later, serial, events.0);
    lemma_step(TaskV::Perform(announce), last, serial, events.1);
}

/// A message of the protocol that names a known model makes it the active one.
pub proof fn law_switch_from_message_to_response(
    text: Seq<u8>,
    message: JsonV,
    payload: JsonV,
    data: JsonV,
    id: Seq<char>,
    state: StateView,
    place: int,
    serial: u64,
    events: (EventV, EventV),
)
    requires
        carries(text, message),
        message.get("topic"@) == Some(JsonV::Text("registry.v1.set_active_model"@)),
        message.get("payload"@) == Some(payload),
        payload.get("data"@) == Some(data),
        data.get("model_id"@) == Some(JsonV::Text(id)),
        first_with(state.providers, id, place),
    ensures
        switches(
            advanced(doing(TaskV::Receive, Seq::empty(), serial), EventV::Received(text)),
            state,
            id,
            place,
            events,
        ),
{
    law_switches_are_read(message, payload, data, id);
    law_message_is_served(Channel::Requests, message);
    let task = TaskV::Load(IntentV::Switch(id));
    lemma_one_request(text, message, RequestV::SwitchModel(id), task, serial);
    lemma_switches(looking(), serial, state, id, place, events);
}

/// The user's choice of a known model makes it the active one, whatever else the message
/// of the choice holds.
pub proof fn law_choice_from_message_to_response(
    text: Seq<u8>,
    message: JsonV,
    payload: JsonV,
    data: JsonV,
    id: Seq<char>,
    state: StateView,
    place: int,
    rest: Seq<TaskV>,
    serial: u64,
    events: (EventV, EventV),
)
    requires
        carries(text, message),
        message.get("payload"@) == Some(payload),
        payload.get("data"@) == Some(data),
        data.get("selected_id"@) == Some(JsonV::Text(id)),
        first_with(state.providers, id, place),
    ensures
        switches(
            advanced(
                doing(TaskV::Poll(Channel::Selections), rest, serial),
                EventV::Received(text),
            ),
            state,
            id,
            place,
            events,
        ),
{
    law_choices_are_read(message, payload, data, id);
    law_message_is_served(Channel::Selections, message);
    let task = TaskV::Load(IntentV::Switch(id));
    lemma_one_poll(
        Channel::Selections,
        text,
        message,
        RequestV::SwitchModel(id),
        task,
        rest,
        serial,
    );
    lemma_switches(rest, serial, state, id, place, events);
}

/// The command `/models` with the ID of a known model makes it the active one.
pub proof fn law_command_from_message_to_response(
    text: Seq<u8>,
    message: JsonV,
    payload: JsonV,
    typed: Seq<char>,
    state: StateView,
    place: int,
    rest: Seq<TaskV>,
    serial: u64,
    events: (EventV, EventV),
)
    requires
        carries(text, message),
        message.get("payload"@) == Some(payload),
        payload.get("text"@) == Some(JsonV::Text(typed)),
        words(typed).len() >= 2,
        words(typed)[0] == "/models"@,
        first_with(state.providers, words(typed)[1], place),
    ensures
        switches(
            advanced(doing(TaskV::Poll(Channel::Commands), rest, serial), EventV::Received(text)),
            state,
            words(typed)[1],
            place,
            events,
        ),
{
    let id = words(typed)[1];
    law_commands_are_read(message, payload, typed);
    law_message_is_served(Channel::Commands, message);
    let task = TaskV::Load(IntentV::Switch(id));
    lemma_one_poll(
        Channel::Commands,
        text,
        message,
        RequestV::SwitchModel(id),
        task,
        rest,
        serial,
    );
    lemma_switches(rest, serial, state, id, place, events);
}

/// Any other command, and a message that carries none, is passed over: nothing is read,
/// stored or published for it.
pub proof fn law_other_commands_are_passed_over(
    text: Seq<u8>,
    message: JsonV,
    payload: JsonV,
    typed: Seq<char>,
    rest: Seq<TaskV>,
    serial: u64,
)
    requires
        carries(text, message),
        message.get("payload"@) == Some(payload),
        payload.get("text"@) == Some(JsonV::Text(typed)),
        words(typed).len() == 0 || words(typed)[0] != "/models"@,
    ensures
        advanced(
            doing(TaskV::Poll(Channel::Commands), rest, serial),
            EventV::Received(text),
        ) == (RunView { tasks: rest, serial }),
{
    law_commands_are_read(message, payload, typed);
    law_message_is_served(Channel::Commands, message);
    lemma_carries(Channel::Commands, text, message);
    lemma_step(TaskV::Poll(Channel::Commands), rest, serial, EventV::Received(text));
    assert(serving(Seq::empty()) + rest =~= rest);
}

/// The command `/models` alone stores the providers that the capsules then describe, and
/// offers the user every one of them.
pub proof fn law_pick_from_message_to_offer(
    text: Seq<u8>,
    message: JsonV,
    payload: JsonV,
    typed: Seq<char>,
    hook: Seq<u8>,
    providers: Seq<ProviderView>,
    state: StateView,
    millis: u128,
    rest: Seq<TaskV>,
    serial: u64,
    saving: EventV,
)
    requires
        carries(text, message),
        message.get("payload"@) == Some(payload),
        payload.get("text"@) == Some(JsonV::Text(typed)),
        words(typed) == seq!["/models"@],
        answers(hook, providers),
        providers.len() > 0,
    ensures
        ({
            let asked = advanced(
                doing(TaskV::Poll(Channel::Commands), rest, serial),
                EventV::Received(text),
            );
            let discovering = advanced(asked, EventV::Received(hook));
            let reading = advanced(discovering, EventV::Loaded(state));
            let saved = advanced(reading, saving);
            let timed = advanced(saved, EventV::Time(millis));
            &&& task_action(current(asked)) == ActionV::Trigger(json_bytes(describe_json()))
            &&& task_action(current(discovering)) == ActionV::Load("registry_state"@)
            &&& task_action(current(reading)) == ActionV::Save(
                "registry_state"@,
                json_bytes(
                    state_json(
                        StateView { providers, active_model_id: state.active_model_id },
                    ),
                ),
            )
            &&& task_action(current(saved)) == ActionV::ReadClock
            &&& current(timed) == TaskV::Perform(
                EffectV::Publish(
                    NoticeV::Selection {
                        request_id: request_id(millis as nat, serial as nat),
                        providers,
                    },
                ),
            )
        }),
{
    law_commands_are_read(message, payload, typed);
    law_message_is_served(Channel::Commands, message);
    lemma_one_poll(
        Channel::Commands,
        text,
        message,
        RequestV::PickModel,
        TaskV::Discover(PurposeV::Pick),
        rest,
        serial,
    );
    lemma_answers(hook, providers);
    lemma_step(TaskV::Discover(PurposeV::Pick), rest, serial, EventV::Received(hook));
    lemma_step(TaskV::Load(IntentV::Pick(providers)), rest, serial, EventV::Loaded(state));
    law_found_providers_replace_known_ones(state, providers);
    let store = EffectV::Save(StateView { providers, active_model_id: state.active_model_id });
    let after = seq![TaskV::Stamp(providers)] + rest;
    assert(performing(seq![store]) + seq![TaskV::Stamp(providers)] + rest =~= seq![
        TaskV::Perform(store),
    ] + after);
    lemma_step(TaskV::Perform(store), after, serial, saving);
    law_selection_is_published(providers, rest, serial, EventV::Time(millis));
}

/// After the kernel's signal, the providers that the capsules then describe are stored in
/// place of those known before, each with all its fields, though a known one may have
/// had the same model ID.
pub proof fn law_reload_from_signal_to_store(
    signal: EventV,
    hook: Seq<u8>,
    providers: Seq<ProviderView>,
    state: StateView,
    rest: Seq<TaskV>,
    serial: u64,
)
    requires
        signalled(signal),
        answers(hook, providers),
        providers.len() > 0,
    ensures
        ({
            let signalled = advanced(
                doing(TaskV::Poll(Channel::Reloads), rest, serial),
                signal,
            );
            let discovering = advanced(signalled, EventV::Received(hook));
            let reading = advanced(discovering, EventV::Loaded(state));
            &&& task_action(current(signalled)) == ActionV::Trigger(json_bytes(describe_json()))
            &&& task_action(current(discovering)) == ActionV::Load("registry_state"@)
            &&& task_action(current(reading)) == ActionV::Save(
                "registry_state"@,
                json_bytes(
                    state_json(
                        StateView { providers, active_model_id: state.active_model_id },
                    ),
                ),
            )
        }),
{
    lemma_step(TaskV::Poll(Channel::Reloads), rest, serial, signal);
    lemma_answers(hook, providers);
    lemma_step(TaskV::Discover(PurposeV::Reload), rest, serial, EventV::Received(hook));
    lemma_step(TaskV::Load(IntentV::Reload(providers)), rest, serial, EventV::Loaded(state));
    law_start_does_this_only(state, providers);
    assert(reloading(state, providers)[0] == EffectV::Save(
        StateView { providers, active_model_id: state.active_model_id },
    ));
}

/// The view of a log line keeps its kind and what it tells.
pub proof fn law_log_line_is_seen_whole(line: LogLine, text: String, count: u64)
    ensures
        line.deep_view() == line@,
        LogLine::HookFailed(text)@ == LogLineV::HookFailed(text@),
        LogLine::AnswerUnreadable(text)@ == LogLineV::AnswerUnreadable(text@),
        LogLine::NothingToList@ == LogLineV::NothingToList,
        LogLine::NothingAtStart@ == LogLineV::NothingAtStart,
        LogLine::NothingToPick@ == LogLineV::NothingToPick,
        LogLine::ModelCleared(text)@ == LogLineV::ModelCleared(text@),
        LogLine::ProviderSelected(text)@ == LogLineV::ProviderSelected(text@),
        LogLine::SignalMissing@ == LogLineV::SignalMissing,
        LogLine::CapsulesReloaded@ == LogLineV::CapsulesReloaded,
        LogLine::SignalDiscarded@ == LogLineV::SignalDiscarded,
        LogLine::MessagesDropped(count)@ == LogLineV::MessagesDropped(count),
{
}

/// Lines that tell what went as it should are informative, all others warnings.
pub proof fn law_log_levels(line: LogLineV)
    ensures
        line is ModelCleared || line is ProviderSelected || line is CapsulesReloaded
            ==> line_level(line) == "info"@,
        !(line is ModelCleared || line is ProviderSelected || line is CapsulesReloaded)
            ==> line_level(line) == "warn"@,
{
}

/// A line that is about something tells it: the failure, the model, or the number.
pub proof fn law_log_texts(text: Seq<char>, count: u64)
    ensures
        line_text(LogLineV::HookFailed(text)) == "Provider discovery hook trigger failed: "@
            + text,
        line_text(LogLineV::AnswerUnreadable(text))
            == "Failed to parse provider discovery response: "@ + text,
        line_text(LogLineV::ModelCleared(text)) == "Active model '"@ + text
            + "' no longer available after reload, clearing"@,
        line_text(LogLineV::ProviderSelected(text)) == "Auto-selected sole LLM provider: "@
            + text,
        line_text(LogLineV::MessagesDropped(count)) == "Event bus dropped "@ + decimal(
            count as nat,
        ) + " messages in registry poll"@,
{
}

/// Whether no line, or one, is logged.
pub open spec fn one_line(lines: Seq<LogLineV>, due: bool, line: LogLineV) -> bool {
    lines == if due {
        seq![line]
    } else {
        Seq::empty()
    }
}

/// What is logged of the waits, the looks and the discoveries: a missing signal, dropped
/// messages, a reload or a signal from elsewhere, and a hook that failed or whose answer
/// is no array.
pub proof fn law_arrivals_are_logged(
    event: EventV,
    text: Seq<u8>,
    message: Seq<char>,
    purpose: PurposeV,
    count: u64,
)
    ensures
        one_line(
            logged(TaskV::AwaitCapsules, event),
            !(event is Received && event->Received_0.len() > 0 && from_kernel(
                json_text(event->Received_0),
            )),
            LogLineV::SignalMissing,
        ),
        text.len() > 0 && json_text(text) is Some && json_text(text)->0.get("dropped"@) == Some(
            JsonV::Number(Some(count)),
        ) ==> one_line(
            logged(TaskV::Receive, EventV::Received(text)),
            count > 0,
            LogLineV::MessagesDropped(count),
        ),
        text.len() > 0 ==> one_line(
            logged(TaskV::Poll(Channel::Reloads), EventV::Received(text)),
            true,
            if from_kernel(json_text(text)) {
                LogLineV::CapsulesReloaded
            } else {
                LogLineV::SignalDiscarded
            },
        ),
        one_line(
            logged(TaskV::Discover(purpose), EventV::Failed(message)),
            true,
            LogLineV::HookFailed(message),
        ),
        one_line(
            logged(TaskV::Discover(purpose), EventV::Received(text)),
            !(json_text(text) matches Some(JsonV::Array(_))),
            LogLineV::AnswerUnreadable(array_failure(text)),
        ),
{
}

/// Nothing is logged of an envelope that counts no dropped messages, of a wait or a look
/// that brought nothing, or of any other task.
pub proof fn law_other_events_are_not_logged(task: TaskV, event: EventV)
    requires
        match task {
            TaskV::AwaitCapsules => false,
            TaskV::Receive => !(event is Received) || event->Received_0.len() == 0 || json_text(
                event->Received_0,
            ) is None || !(json_text(event->Received_0)->0.get("dropped"@) matches Some(
                JsonV::Number(Some(_)),
            )),
            TaskV::Poll(Channel::Reloads) => !(event is Received) || event->Received_0.len() == 0,
            TaskV::Discover(_) => !(event is Failed) && !(event is Received),
            TaskV::Load(intent) => intent is Lookup || intent is Switch,
            _ => true,
        },
    ensures
        logged(task, event) == Seq::<LogLineV>::empty(),
{
}

/// What is logged once the stored state is read: that no providers are known, to list, to
/// pick or at a start; and at a start or a reload that an active model which no provider
/// has goes, and that the sole provider is selected.
pub proof fn law_read_states_are_logged(event: EventV, providers: Seq<ProviderView>)
    ensures
        ({
            let state = loaded(event);
            let all = providers_after(state, providers);
            let active = state.active_model_id;
            let gone = active is Some && !known(all, active->0);
            let alone = all.len() == 1 && (active is None || gone);
            let tidied = (if gone {
                seq![LogLineV::ModelCleared(active->0)]
            } else {
                Seq::empty()
            }) + (if alone {
                seq![LogLineV::ProviderSelected(all[0].id)]
            } else {
                Seq::empty()
            });
            &&& one_line(
                logged(TaskV::Load(IntentV::List(providers)), event),
                all.len() == 0,
                LogLineV::NothingToList,
            )
            &&& one_line(
                logged(TaskV::Load(IntentV::Pick(providers)), event),
                all.len() == 0,
                LogLineV::NothingToPick,
            )
            &&& logged(TaskV::Load(IntentV::Start(providers)), event) == (if all.len() == 0 {
                seq![LogLineV::NothingAtStart]
            } else {
                Seq::empty()
            }) + tidied
            &&& logged(TaskV::Load(IntentV::Reload(providers)), event) == tidied
        }),
{
    let state = loaded(event);
    law_found_providers_replace_known_ones(state, providers);
    law_stale_model_is_cleared(refreshed(state, providers));
}

} // verus!
