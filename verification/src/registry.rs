//! The registry's run, as a machine.
//!
//! The registry holds a list of tasks. The first of them asks for one action of the
//! capsule's host; what came of it decides which tasks follow. The host performs
//! `Registry::action` and hands the outcome to `Registry::step`, until the action is
//! to stop.

use vstd::prelude::*;

use crate::discovery::{describe_json, describe_request, discover_providers, discovered};
use crate::envelope::{
    from_kernel, handle_command_envelope, handle_poll_envelope, handle_selection_envelope,
    is_from_kernel, messages, requests_of, Channel, Request, RequestV,
};
use crate::handlers::{
    active_provider, emit_model_selection, handle_get_active_model, handle_get_providers,
    handle_reload, handle_set_active_model_by_id, handle_startup, listing, refreshed, refreshing,
    reloading, selection_notice, starting, switching, Effect, EffectV,
};
use crate::json::{json_bytes, json_text};
use crate::notice::{notice_json, notice_topic, request_id, Notice, NoticeV};
use crate::provider::{empty_state, ProviderEntry, ProviderView, RegistryState, StateView};
use crate::storage::{describes, load_state, save_state, STATE_KEY};

verus! {

/// How long to wait for a message, in milliseconds.
pub const WAIT_MILLIS: u64 = 5000;

/// The topic of a channel.
pub open spec fn channel_topic(channel: Channel) -> Seq<char> {
    match channel {
        Channel::Requests => "registry.v1.*"@,
        Channel::Commands => "cli.v1.command.execute"@,
        Channel::Selections => "registry.v1.selection.callback"@,
        Channel::Reloads => "astrid.v1.capsules_loaded"@,
    }
}

impl Channel {
    /// The topic to subscribe to.
    pub fn topic(self) -> (topic: &'static str)
        ensures
            topic@ == channel_topic(self),
    {
        match self {
            Channel::Requests => "registry.v1.*",
            Channel::Commands => "cli.v1.command.execute",
            Channel::Selections => "registry.v1.selection.callback",
            Channel::Reloads => "astrid.v1.capsules_loaded",
        }
    }
}

/// What an action is.
#[verifier::ext_equal]
pub enum ActionV {
    Subscribe(Channel),
    SignalReady,
    Receive(Channel, u64),
    Poll(Channel),
    Trigger(Seq<u8>),
    Load(Seq<char>),
    Save(Seq<char>, Seq<u8>),
    Publish(Seq<char>, Seq<u8>),
    ReadClock,
    Unsubscribe(Channel),
    Stop(Option<Seq<char>>),
}

/// Something for the capsule's host to do.
#[derive(Debug, PartialEq, Eq)]
pub enum Action {
    /// Subscribe to a channel's topic.
    Subscribe(Channel),
    /// Signal that the capsule is ready, so that the kernel goes on to load
    /// dependent capsules.
    SignalReady,
    /// Wait for an envelope, for so many milliseconds.
    Receive(Channel, u64),
    /// Take an envelope that may have arrived.
    Poll(Channel),
    /// Trigger the kernel's hooks with a text.
    Trigger(Vec<u8>),
    /// Read the state stored under a key. It fails where none is stored there.
    Load(&'static str),
    /// Store a text under a key.
    Save(&'static str, Vec<u8>),
    /// Publish a text on a topic.
    Publish(&'static str, Vec<u8>),
    /// Read the time in milliseconds since the epoch.
    ReadClock,
    /// Cancel the subscription to a channel.
    Unsubscribe(Channel),
    /// End the run, with a message where it failed.
    Stop(Option<String>),
}

impl View for Action {
    type V = ActionV;

    open spec fn view(&self) -> ActionV {
        match self {
            Action::Subscribe(channel) => ActionV::Subscribe(*channel),
            Action::SignalReady => ActionV::SignalReady,
            Action::Receive(channel, millis) => ActionV::Receive(*channel, *millis),
            Action::Poll(channel) => ActionV::Poll(*channel),
            Action::Trigger(text) => ActionV::Trigger(text@),
            Action::Load(key) => ActionV::Load(key@),
            Action::Save(key, text) => ActionV::Save(key@, text@),
            Action::Publish(topic, text) => ActionV::Publish(topic@, text@),
            Action::ReadClock => ActionV::ReadClock,
            Action::Unsubscribe(channel) => ActionV::Unsubscribe(*channel),
            Action::Stop(failure) => ActionV::Stop(failure.deep_view()),
        }
    }
}

/// What came of an action.
#[verifier::ext_equal]
pub enum EventV {
    Completed,
    Failed(Seq<char>),
    Received(Seq<u8>),
    Loaded(StateView),
    Time(u128),
}

/// What came of an action.
#[derive(Debug, PartialEq, Eq)]
pub enum Event {
    /// It was done.
    Completed,
    /// It failed, with a message.
    Failed(String),
    /// It gave a text.
    Received(Vec<u8>),
    /// It gave the stored state.
    Loaded(RegistryState),
    /// It gave the time.
    Time(u128),
}

impl View for Event {
    type V = EventV;

    open spec fn view(&self) -> EventV {
        match self {
            Event::Completed => EventV::Completed,
            Event::Failed(message) => EventV::Failed(message@),
            Event::Received(text) => EventV::Received(text@),
            Event::Loaded(state) => EventV::Loaded(state@),
            Event::Time(millis) => EventV::Time(*millis),
        }
    }
}

/// What a discovery is for.
#[verifier::ext_equal]
pub enum PurposeV {
    List,
    Pick,
    Start,
    Reload,
    Switch(Seq<char>),
}

/// What a discovery is for.
#[derive(Debug, PartialEq, Eq)]
pub enum Purpose {
    /// To list the providers.
    List,
    /// To let the user pick a model.
    Pick,
    /// To start the registry.
    Start,
    /// To take up reloaded capsules.
    Reload,
    /// To switch to a model while no providers are known.
    Switch(String),
}

impl View for Purpose {
    type V = PurposeV;

    open spec fn view(&self) -> PurposeV {
        match self {
            Purpose::List => PurposeV::List,
            Purpose::Pick => PurposeV::Pick,
            Purpose::Start => PurposeV::Start,
            Purpose::Reload => PurposeV::Reload,
            Purpose::Switch(id) => PurposeV::Switch(id@),
        }
    }
}

/// What the stored state is read for.
#[verifier::ext_equal]
pub enum IntentV {
    List(Seq<ProviderView>),
    Pick(Seq<ProviderView>),
    Start(Seq<ProviderView>),
    Reload(Seq<ProviderView>),
    Lookup,
    Switch(Seq<char>),
}

/// What the stored state is read for; with the providers that a discovery found
/// before, where there was one.
#[derive(Debug, PartialEq, Eq)]
pub enum Intent {
    /// To list the providers.
    List(Vec<ProviderEntry>),
    /// To let the user pick a model.
    Pick(Vec<ProviderEntry>),
    /// To start the registry.
    Start(Vec<ProviderEntry>),
    /// To take up reloaded capsules.
    Reload(Vec<ProviderEntry>),
    /// To tell which model is active.
    Lookup,
    /// To switch to a model.
    Switch(String),
}

impl View for Intent {
    type V = IntentV;

    open spec fn view(&self) -> IntentV {
        match self {
            Intent::List(found) => IntentV::List(found.deep_view()),
            Intent::Pick(found) => IntentV::Pick(found.deep_view()),
            Intent::Start(found) => IntentV::Start(found.deep_view()),
            Intent::Reload(found) => IntentV::Reload(found.deep_view()),
            Intent::Lookup => IntentV::Lookup,
            Intent::Switch(id) => IntentV::Switch(id@),
        }
    }
}

/// What a task is.
#[verifier::ext_equal]
pub enum TaskV {
    Subscribe(Channel),
    SignalReady,
    AwaitCapsules,
    Receive,
    Poll(Channel),
    Discover(PurposeV),
    Load(IntentV),
    Perform(EffectV),
    Stamp(Seq<ProviderView>),
    Unsubscribe(Channel),
    Stop(Option<Seq<char>>),
}

/// A task of the registry.
#[derive(Debug, PartialEq, Eq)]
pub enum Task {
    /// To subscribe to a channel.
    Subscribe(Channel),
    /// To signal readiness.
    SignalReady,
    /// To wait until the kernel has loaded all capsules.
    AwaitCapsules,
    /// To wait for requests.
    Receive,
    /// To look for messages on a channel.
    Poll(Channel),
    /// To discover the providers.
    Discover(Purpose),
    /// To read the stored state.
    Load(Intent),
    /// To have an effect done.
    Perform(Effect),
    /// To take the time for a selection request that offers these providers.
    Stamp(Vec<ProviderEntry>),
    /// To cancel the subscription to a channel.
    Unsubscribe(Channel),
    /// To end the run.
    Stop(Option<String>),
}

impl View for Task {
    type V = TaskV;

    open spec fn view(&self) -> TaskV {
        match self {
            Task::Subscribe(channel) => TaskV::Subscribe(*channel),
            Task::SignalReady => TaskV::SignalReady,
            Task::AwaitCapsules => TaskV::AwaitCapsules,
            Task::Receive => TaskV::Receive,
            Task::Poll(channel) => TaskV::Poll(*channel),
            Task::Discover(purpose) => TaskV::Discover(purpose@),
            Task::Load(intent) => TaskV::Load(intent@),
            Task::Perform(effect) => TaskV::Perform(effect@),
            Task::Stamp(providers) => TaskV::Stamp(providers.deep_view()),
            Task::Unsubscribe(channel) => TaskV::Unsubscribe(*channel),
            Task::Stop(failure) => TaskV::Stop(failure.deep_view()),
        }
    }
}

impl DeepView for Task {
    type V = TaskV;

    open spec fn deep_view(&self) -> TaskV {
        self@
    }
}

/// The action that a task asks for.
pub open spec fn task_action(task: TaskV) -> ActionV {
    match task {
        TaskV::Subscribe(channel) => ActionV::Subscribe(channel),
        TaskV::SignalReady => ActionV::SignalReady,
        TaskV::AwaitCapsules => ActionV::Receive(Channel::Reloads, WAIT_MILLIS),
        TaskV::Receive => ActionV::Receive(Channel::Requests, WAIT_MILLIS),
        TaskV::Poll(channel) => ActionV::Poll(channel),
        TaskV::Discover(_) => ActionV::Trigger(json_bytes(describe_json())),
        TaskV::Load(_) => ActionV::Load(STATE_KEY@),
        TaskV::Perform(EffectV::Save(state)) => ActionV::Save(
            STATE_KEY@,
            json_bytes(crate::codec::state_json(state)),
        ),
        TaskV::Perform(EffectV::Publish(notice)) => ActionV::Publish(
            notice_topic(notice),
            json_bytes(notice_json(notice)),
        ),
        TaskV::Stamp(_) => ActionV::ReadClock,
        TaskV::Unsubscribe(channel) => ActionV::Unsubscribe(channel),
        TaskV::Stop(failure) => ActionV::Stop(failure),
    }
}

/// Whether the text that an action hands out, read again, says what its task is to
/// store, to publish or to trigger.
pub open spec fn reads_back(task: TaskV, action: ActionV) -> bool {
    match (task, action) {
        (TaskV::Discover(_), ActionV::Trigger(text)) => json_text(text) == Some(describe_json()),
        (TaskV::Perform(EffectV::Save(state)), ActionV::Save(_, text)) => describes(
            json_text(text),
            state,
        ),
        (TaskV::Perform(EffectV::Publish(notice)), ActionV::Publish(_, text)) => json_text(text)
            == Some(notice_json(notice)),
        _ => true,
    }
}

/// The tasks of a run from its start: to subscribe, to bring the state up to date
/// once all capsules are loaded, and to serve requests.
pub open spec fn opening() -> Seq<TaskV> {
    seq![
        TaskV::Subscribe(Channel::Requests),
        TaskV::Subscribe(Channel::Commands),
        TaskV::Subscribe(Channel::Selections),
        TaskV::SignalReady,
        TaskV::Subscribe(Channel::Reloads),
        TaskV::AwaitCapsules,
        TaskV::Discover(PurposeV::Start),
        TaskV::Receive,
    ]
}

/// The tasks after requests were received: to look at the other channels, and to
/// wait for requests again.
pub open spec fn round() -> Seq<TaskV> {
    seq![
        TaskV::Poll(Channel::Commands),
        TaskV::Poll(Channel::Selections),
        TaskV::Poll(Channel::Reloads),
        TaskV::Receive,
    ]
}

/// The tasks that end a run.
pub open spec fn closing() -> Seq<TaskV> {
    seq![
        TaskV::Unsubscribe(Channel::Requests),
        TaskV::Unsubscribe(Channel::Commands),
        TaskV::Unsubscribe(Channel::Selections),
        TaskV::Unsubscribe(Channel::Reloads),
        TaskV::Stop(None),
    ]
}

/// The first task for a request.
pub open spec fn first_task(request: RequestV) -> TaskV {
    match request {
        RequestV::ListProviders => TaskV::Discover(PurposeV::List),
        RequestV::ActiveModel => TaskV::Load(IntentV::Lookup),
        RequestV::SwitchModel(id) => TaskV::Load(IntentV::Switch(id)),
        RequestV::UnnamedSwitch => TaskV::Perform(EffectV::Publish(NoticeV::MissingModelId)),
        RequestV::PickModel => TaskV::Discover(PurposeV::Pick),
    }
}

/// The tasks to serve requests one after the other.
pub open spec fn serving(requests: Seq<RequestV>) -> Seq<TaskV> {
    requests.map_values(|request: RequestV| first_task(request))
}

/// The tasks to have effects done one after the other.
pub open spec fn performing(effects: Seq<EffectV>) -> Seq<TaskV> {
    effects.map_values(|effect: EffectV| TaskV::Perform(effect))
}

/// What an envelope that arrived on a channel asks for. An empty text is no
/// envelope.
pub open spec fn arrived(channel: Channel, event: EventV) -> Seq<RequestV> {
    match event {
        EventV::Received(text) => if text.len() > 0 {
            requests_of(channel, messages(json_text(text)))
        } else {
            Seq::empty()
        },
        _ => Seq::empty(),
    }
}

/// Whether the kernel has signalled that all capsules are loaded.
pub open spec fn signalled(event: EventV) -> bool {
    match event {
        EventV::Received(text) => text.len() > 0 && from_kernel(json_text(text)),
        _ => false,
    }
}

/// What a discovery found: nothing where the hook failed.
pub open spec fn found(event: EventV) -> Seq<ProviderView> {
    match event {
        EventV::Received(text) => discovered(json_text(text)),
        _ => Seq::empty(),
    }
}

/// The stored state: the empty one where it cannot be read.
pub open spec fn loaded(event: EventV) -> StateView {
    match event {
        EventV::Loaded(state) => state,
        _ => empty_state(),
    }
}

/// The time in milliseconds since the epoch: zero where it cannot be told.
pub open spec fn time(event: EventV) -> u128 {
    match event {
        EventV::Time(millis) => millis,
        _ => 0,
    }
}

/// The tasks that follow a discovery.
pub open spec fn after_discovery(purpose: PurposeV, found: Seq<ProviderView>) -> Seq<TaskV> {
    match purpose {
        PurposeV::List => seq![TaskV::Load(IntentV::List(found))],
        PurposeV::Pick => seq![TaskV::Load(IntentV::Pick(found))],
        PurposeV::Start => seq![TaskV::Load(IntentV::Start(found))],
        PurposeV::Reload => seq![TaskV::Load(IntentV::Reload(found))],
        PurposeV::Switch(id) => performing(switching(empty_state(), found, id)),
    }
}

/// The tasks that follow the reading of the stored state.
pub open spec fn after_load(intent: IntentV, state: StateView) -> Seq<TaskV> {
    match intent {
        IntentV::List(found) => performing(listing(state, found)),
        IntentV::Pick(found) => performing(refreshing(state, found)) + stamping(
            refreshed(state, found).providers,
        ),
        IntentV::Start(found) => performing(starting(state, found)),
        IntentV::Reload(found) => performing(reloading(state, found)),
        IntentV::Lookup => performing(
            seq![EffectV::Publish(NoticeV::ActiveModel(active_provider(state)))],
        ),
        IntentV::Switch(id) => if state.providers.len() == 0 {
            seq![TaskV::Discover(PurposeV::Switch(id))]
        } else {
            performing(switching(state, Seq::empty(), id))
        },
    }
}

/// The tasks to offer providers to the user: none where there are none.
pub open spec fn stamping(providers: Seq<ProviderView>) -> Seq<TaskV> {
    if providers.len() > 0 {
        seq![TaskV::Stamp(providers)]
    } else {
        Seq::empty()
    }
}

/// The tasks that follow when something came of a task, before the `rest`.
pub open spec fn next_tasks(task: TaskV, event: EventV, serial: u64, rest: Seq<TaskV>) -> Seq<
    TaskV,
> {
    match task {
        TaskV::Subscribe(_) => match event {
            EventV::Failed(message) => seq![TaskV::Stop(Some(message))],
            _ => rest,
        },
        TaskV::Receive => match event {
            EventV::Failed(_) => closing(),
            _ => serving(arrived(Channel::Requests, event)) + round() + rest,
        },
        TaskV::Poll(Channel::Reloads) => if signalled(event) {
            seq![TaskV::Discover(PurposeV::Reload)] + rest
        } else {
            rest
        },
        TaskV::Poll(channel) => serving(arrived(channel, event)) + rest,
        TaskV::Discover(purpose) => after_discovery(purpose, found(event)) + rest,
        TaskV::Load(intent) => after_load(intent, loaded(event)) + rest,
        TaskV::Stamp(providers) => performing(
            seq![
                EffectV::Publish(
                    NoticeV::Selection {
                        request_id: request_id(time(event) as nat, serial as nat),
                        providers,
                    },
                ),
            ],
        ) + rest,
        TaskV::Stop(_) => seq![task],
        _ => rest,
    }
}

/// The state of a run: its tasks, the first of which is being done, and the serial
/// number of the next selection request.
#[verifier::ext_equal]
pub struct RunView {
    pub tasks: Seq<TaskV>,
    pub serial: u64,
}

/// The state of a run at its start, where the first selection request is to take the
/// number `serial`.
pub open spec fn begun_from(serial: u64) -> RunView {
    RunView { tasks: opening(), serial }
}

/// The state at its start of a run that numbers its selection requests from zero.
pub open spec fn begun() -> RunView {
    begun_from(0)
}

/// The task being done. A run without tasks is at its end.
pub open spec fn current(run: RunView) -> TaskV {
    if run.tasks.len() > 0 {
        run.tasks[0]
    } else {
        TaskV::Stop(None)
    }
}

/// The state of a run after something came of its first task.
pub open spec fn advanced(run: RunView, event: EventV) -> RunView {
    RunView {
        tasks: next_tasks(current(run), event, run.serial, run.tasks.skip(1)),
        serial: if current(run) is Stamp {
            ((run.serial + 1) % 0x1_0000_0000_0000_0000) as u64
        } else {
            run.serial
        },
    }
}

/// A run of the registry.
#[derive(Debug, PartialEq, Eq)]
pub struct Registry {
    pub tasks: Vec<Task>,
    pub serial: u64,
}

impl View for Registry {
    type V = RunView;

    open spec fn view(&self) -> RunView {
        RunView { tasks: self.tasks.deep_view(), serial: self.serial }
    }
}

fn no_tasks() -> (tasks: Vec<Task>)
    ensures
        tasks.deep_view() == Seq::<TaskV>::empty(),
{
    let tasks: Vec<Task> = Vec::new();
    assert(tasks.deep_view() =~= Seq::<TaskV>::empty());
    tasks
}

fn add_task(tasks: &mut Vec<Task>, task: Task)
    ensures
        final(tasks).deep_view() == old(tasks).deep_view().push(task@),
{
    tasks.push(task);
    assert(tasks.deep_view() =~= old(tasks).deep_view().push(task@));
}

fn one_task(task: Task) -> (tasks: Vec<Task>)
    ensures
        tasks.deep_view() == seq![task@],
{
    let mut tasks = no_tasks();
    add_task(&mut tasks, task);
    assert(tasks.deep_view() =~= seq![task@]);
    tasks
}

fn append_tasks(tasks: Vec<Task>, more: Vec<Task>) -> (all: Vec<Task>)
    ensures
        all.deep_view() == tasks.deep_view() + more.deep_view(),
{
    let mut all = tasks;
    let mut rest = more;
    all.append(&mut rest);
    assert(all.deep_view() =~= tasks.deep_view() + more.deep_view());
    all
}

fn opening_tasks() -> (tasks: Vec<Task>)
    ensures
        tasks.deep_view() == opening(),
{
    let mut tasks = no_tasks();
    add_task(&mut tasks, Task::Subscribe(Channel::Requests));
    add_task(&mut tasks, Task::Subscribe(Channel::Commands));
    add_task(&mut tasks, Task::Subscribe(Channel::Selections));
    add_task(&mut tasks, Task::SignalReady);
    add_task(&mut tasks, Task::Subscribe(Channel::Reloads));
    add_task(&mut tasks, Task::AwaitCapsules);
    add_task(&mut tasks, Task::Discover(Purpose::Start));
    add_task(&mut tasks, Task::Receive);
    assert(tasks.deep_view() =~= opening());
    tasks
}

fn round_tasks() -> (tasks: Vec<Task>)
    ensures
        tasks.deep_view() == round(),
{
    let mut tasks = no_tasks();
    add_task(&mut tasks, Task::Poll(Channel::Commands));
    add_task(&mut tasks, Task::Poll(Channel::Selections));
    add_task(&mut tasks, Task::Poll(Channel::Reloads));
    add_task(&mut tasks, Task::Receive);
    assert(tasks.deep_view() =~= round());
    tasks
}

fn closing_tasks() -> (tasks: Vec<Task>)
    ensures
        tasks.deep_view() == closing(),
{
    let mut tasks = no_tasks();
    add_task(&mut tasks, Task::Unsubscribe(Channel::Requests));
    add_task(&mut tasks, Task::Unsubscribe(Channel::Commands));
    add_task(&mut tasks, Task::Unsubscribe(Channel::Selections));
    add_task(&mut tasks, Task::Unsubscribe(Channel::Reloads));
    add_task(&mut tasks, Task::Stop(None));
    assert(tasks.deep_view() =~= closing());
    tasks
}

fn task_for(request: Request) -> (task: Task)
    ensures
        task@ == first_task(request@),
{
    match request {
        Request::ListProviders => Task::Discover(Purpose::List),
        Request::ActiveModel => Task::Load(Intent::Lookup),
        Request::SwitchModel(id) => Task::Load(Intent::Switch(id)),
        Request::UnnamedSwitch => Task::Perform(Effect::Publish(Notice::MissingModelId)),
        Request::PickModel => Task::Discover(Purpose::Pick),
    }
}

fn serving_tasks(requests: Vec<Request>) -> (tasks: Vec<Task>)
    ensures
        tasks.deep_view() == serving(requests.deep_view()),
{
    let ghost asked = requests.deep_view();
    let mut requests = requests;
    let mut tasks = no_tasks();
    while requests.len() > 0
        invariant
            serving(asked) == tasks.deep_view() + serving(requests.deep_view()),
        decreases requests.len(),
    {
        let ghost before = requests.deep_view();
        let request = requests.remove(0);
        assert(requests.deep_view() =~= before.skip(1));
        assert(serving(before) =~= seq![first_task(request@)] + serving(before.skip(1)));
        add_task(&mut tasks, task_for(request));
        assert(serving(asked) =~= tasks.deep_view() + serving(requests.deep_view()));
    }
    assert(serving(asked) =~= tasks.deep_view());
    tasks
}

fn performing_tasks(effects: Vec<Effect>) -> (tasks: Vec<Task>)
    ensures
        tasks.deep_view() == performing(effects.deep_view()),
{
    let ghost wanted = effects.deep_view();
    let mut effects = effects;
    let mut tasks = no_tasks();
    while effects.len() > 0
        invariant
            performing(wanted) == tasks.deep_view() + performing(effects.deep_view()),
        decreases effects.len(),
    {
        let ghost before = effects.deep_view();
        let effect = effects.remove(0);
        assert(effects.deep_view() =~= before.skip(1));
        assert(performing(before) =~= seq![TaskV::Perform(effect@)] + performing(before.skip(1)));
        add_task(&mut tasks, Task::Perform(effect));
        assert(performing(wanted) =~= tasks.deep_view() + performing(effects.deep_view()));
    }
    assert(performing(wanted) =~= tasks.deep_view());
    tasks
}

fn perform_one(effect: Effect) -> (tasks: Vec<Task>)
    ensures
        tasks.deep_view() == performing(seq![effect@]),
{
    let tasks = one_task(Task::Perform(effect));
    assert(tasks.deep_view() =~= performing(seq![effect@]));
    tasks
}

fn arrived_requests(channel: Channel, event: &Event) -> (requests: Vec<Request>)
    requires
        channel != Channel::Reloads,
    ensures
        requests.deep_view() == arrived(channel, event@),
{
    match event {
        Event::Received(text) => if text.len() > 0 {
            return match channel {
                Channel::Requests => handle_poll_envelope(text.as_slice()),
                Channel::Commands => handle_command_envelope(text.as_slice()),
                _ => handle_selection_envelope(text.as_slice()),
            };
        },
        _ => {},
    }
    let requests: Vec<Request> = Vec::new();
    assert(requests.deep_view() =~= Seq::<RequestV>::empty());
    requests
}

pub(crate) fn is_signalled(event: &Event) -> (yes: bool)
    ensures
        yes == signalled(event@),
{
    match event {
        Event::Received(text) => text.len() > 0 && is_from_kernel(text.as_slice()),
        _ => false,
    }
}

fn found_providers(event: &Event) -> (providers: Vec<ProviderEntry>)
    ensures
        providers.deep_view() == found(event@),
{
    match event {
        Event::Received(text) => discover_providers(text.as_slice()),
        _ => {
            let providers: Vec<ProviderEntry> = Vec::new();
            assert(providers.deep_view() =~= Seq::<ProviderView>::empty());
            providers
        },
    }
}

pub(crate) fn loaded_state(event: &Event) -> (state: RegistryState)
    ensures
        state@ == loaded(event@),
{
    match event {
        Event::Loaded(state) => load_state(Some(state.clone())),
        _ => load_state(None),
    }
}

fn tasks_after_discovery(purpose: Purpose, found: Vec<ProviderEntry>) -> (tasks: Vec<Task>)
    ensures
        tasks.deep_view() == after_discovery(purpose@, found.deep_view()),
{
    match purpose {
        Purpose::List => one_task(Task::Load(Intent::List(found))),
        Purpose::Pick => one_task(Task::Load(Intent::Pick(found))),
        Purpose::Start => one_task(Task::Load(Intent::Start(found))),
        Purpose::Reload => one_task(Task::Load(Intent::Reload(found))),
        Purpose::Switch(id) => performing_tasks(
            handle_set_active_model_by_id(RegistryState::default(), found, id),
        ),
    }
}

fn tasks_after_load(intent: Intent, state: RegistryState) -> (tasks: Vec<Task>)
    ensures
        tasks.deep_view() == after_load(intent@, state@),
{
    match intent {
        Intent::List(found) => performing_tasks(handle_get_providers(state, found)),
        Intent::Pick(found) => {
            let (effects, providers) = emit_model_selection(state, found);
            let tasks = performing_tasks(effects);
            let stamp = if providers.len() > 0 {
                one_task(Task::Stamp(providers))
            } else {
                no_tasks()
            };
            append_tasks(tasks, stamp)
        },
        Intent::Start(found) => performing_tasks(handle_startup(state, found).1),
        Intent::Reload(found) => performing_tasks(handle_reload(state, found)),
        Intent::Lookup => perform_one(Effect::Publish(handle_get_active_model(&state))),
        Intent::Switch(id) => if state.providers.len() == 0 {
            one_task(Task::Discover(Purpose::Switch(id)))
        } else {
            let none: Vec<ProviderEntry> = Vec::new();
            assert(none.deep_view() =~= Seq::<ProviderView>::empty());
            performing_tasks(handle_set_active_model_by_id(state, none, id))
        },
    }
}

impl Registry {
    /// Begins a run.
    pub fn start() -> (run: Registry)
        ensures
            run@ == begun(),
    {
        Registry::start_from(0)
    }

    /// Begins a run that numbers its selection requests from `serial` on, where an
    /// earlier run of the same process left off.
    pub fn start_from(serial: u64) -> (run: Registry)
        ensures
            run@ == begun_from(serial),
    {
        Registry { tasks: opening_tasks(), serial }
    }

    /// The action to perform next. Text that it stores describes the state that is to
    /// be stored.
    pub fn action(&self) -> (action: Action)
        ensures
            action@ == task_action(current(self@)),
            reads_back(current(self@), action@),
    {
        if self.tasks.len() == 0 {
            return Action::Stop(None);
        }
        match &self.tasks[0] {
            Task::Subscribe(channel) => Action::Subscribe(*channel),
            Task::SignalReady => Action::SignalReady,
            Task::AwaitCapsules => Action::Receive(Channel::Reloads, WAIT_MILLIS),
            Task::Receive => Action::Receive(Channel::Requests, WAIT_MILLIS),
            Task::Poll(channel) => Action::Poll(*channel),
            Task::Discover(_) => Action::Trigger(describe_request()),
            Task::Load(_) => Action::Load(STATE_KEY),
            Task::Perform(Effect::Save(state)) => Action::Save(STATE_KEY, save_state(state)),
            Task::Perform(Effect::Publish(notice)) => Action::Publish(
                notice.topic(),
                notice.text(),
            ),
            Task::Stamp(_) => Action::ReadClock,
            Task::Unsubscribe(channel) => Action::Unsubscribe(*channel),
            Task::Stop(failure) => Action::Stop(
                match failure {
                    Some(message) => Some(message.clone()),
                    None => None,
                },
            ),
        }
    }

    /// Takes up what came of the action.
    pub fn step(self, event: Event) -> (next: Registry)
        ensures
            next@ == advanced(self@, event@),
    {
        let ghost before = self@;
        let serial = self.serial;
        let mut rest = self.tasks;
        if rest.len() == 0 {
            return Registry { tasks: one_task(Task::Stop(None)), serial };
        }
        let task = rest.remove(0);
        assert(rest.deep_view() =~= before.tasks.skip(1));
        match task {
            Task::Subscribe(_) => match event {
                Event::Failed(message) => Registry {
                    tasks: one_task(Task::Stop(Some(message))),
                    serial,
                },
                _ => Registry { tasks: rest, serial },
            },
            Task::Receive => match event {
                Event::Failed(_) => Registry { tasks: closing_tasks(), serial },
                _ => {
                    let requests = arrived_requests(Channel::Requests, &event);
                    let tasks = append_tasks(serving_tasks(requests), round_tasks());
                    Registry { tasks: append_tasks(tasks, rest), serial }
                },
            },
            Task::Poll(Channel::Reloads) => if is_signalled(&event) {
                let tasks = one_task(Task::Discover(Purpose::Reload));
                Registry { tasks: append_tasks(tasks, rest), serial }
            } else {
                Registry { tasks: rest, serial }
            },
            Task::Poll(channel) => {
                let tasks = serving_tasks(arrived_requests(channel, &event));
                Registry { tasks: append_tasks(tasks, rest), serial }
            },
            Task::Discover(purpose) => {
                let tasks = tasks_after_discovery(purpose, found_providers(&event));
                Registry { tasks: append_tasks(tasks, rest), serial }
            },
            Task::Load(intent) => {
                let tasks = tasks_after_load(intent, loaded_state(&event));
                Registry { tasks: append_tasks(tasks, rest), serial }
            },
            Task::Stamp(providers) => {
                let millis: u128 = match event {
                    Event::Time(millis) => millis,
                    _ => 0,
                };
                let notice = selection_notice(providers, millis, serial);
                let tasks = perform_one(Effect::Publish(notice));
                Registry { tasks: append_tasks(tasks, rest), serial: serial.wrapping_add(1) }
            },
            Task::Stop(failure) => Registry { tasks: one_task(Task::Stop(failure)), serial },
            _ => Registry { tasks: rest, serial },
        }
    }
}

} // verus!
