//! What the registry logs.

use vstd::prelude::*;
use vstd::string::*;

use crate::envelope::{
    dropped, dropped_messages, from_kernel, messages, requests_of, Channel,
};
use crate::handlers::{
    clear_stale_active_model, cleared, clearing, refreshed, refreshing, selecting, single, stale,
    EffectV,
};
use crate::json::{array_error, array_failure, is_array, json_text};
use crate::laws::law_empty_discovery_keeps_providers;
use crate::notice::NoticeV;
use crate::provider::{clone_providers, ProviderEntry, RegistryState, StateView};
use crate::registry::{
    advanced, after_load, arrived, current, found, is_signalled, loaded, loaded_state, performing,
    signalled, stamping, Event, EventV, Intent, IntentV, PurposeV, Registry, Task, TaskV,
};
use crate::run_laws::{law_untrusted_signal_discarded, run_with};
use crate::text::{decimal, decimal_text};

verus! {

/// What a line of the log says.
#[verifier::ext_equal]
pub enum LogLineV {
    HookFailed(Seq<char>),
    AnswerUnreadable(Seq<char>),
    NothingToList,
    NothingAtStart,
    NothingToPick,
    ModelCleared(Seq<char>),
    ProviderSelected(Seq<char>),
    SignalMissing,
    CapsulesReloaded,
    SignalDiscarded,
    MessagesDropped(u64),
}

/// A line of the log.
#[derive(Debug, PartialEq, Eq)]
pub enum LogLine {
    /// The discovery hook failed, with a message.
    HookFailed(String),
    /// The discovery hook's answer is no JSON array, for a reason.
    AnswerUnreadable(String),
    /// The providers are to be listed and none are known.
    NothingToList,
    /// None are known after the first discovery.
    NothingAtStart,
    /// The user wants to pick a model and no providers are known.
    NothingToPick,
    /// A stale active model ID goes.
    ModelCleared(String),
    /// The sole provider is selected.
    ProviderSelected(String),
    /// The kernel did not signal in time that all capsules are loaded.
    SignalMissing,
    /// The kernel signals that capsules were reloaded.
    CapsulesReloaded,
    /// A signal that capsules were reloaded does not come from the kernel.
    SignalDiscarded,
    /// The event bus dropped so many messages.
    MessagesDropped(u64),
}

impl View for LogLine {
    type V = LogLineV;

    open spec fn view(&self) -> LogLineV {
        match self {
            LogLine::HookFailed(message) => LogLineV::HookFailed(message@),
            LogLine::AnswerUnreadable(reason) => LogLineV::AnswerUnreadable(reason@),
            LogLine::NothingToList => LogLineV::NothingToList,
            LogLine::NothingAtStart => LogLineV::NothingAtStart,
            LogLine::NothingToPick => LogLineV::NothingToPick,
            LogLine::ModelCleared(id) => LogLineV::ModelCleared(id@),
            LogLine::ProviderSelected(id) => LogLineV::ProviderSelected(id@),
            LogLine::SignalMissing => LogLineV::SignalMissing,
            LogLine::CapsulesReloaded => LogLineV::CapsulesReloaded,
            LogLine::SignalDiscarded => LogLineV::SignalDiscarded,
            LogLine::MessagesDropped(count) => LogLineV::MessagesDropped(*count),
        }
    }
}

impl DeepView for LogLine {
    type V = LogLineV;

    open spec fn deep_view(&self) -> LogLineV {
        self@
    }
}

/// The level of a line.
pub open spec fn line_level(line: LogLineV) -> Seq<char> {
    match line {
        LogLineV::ModelCleared(_) => "info"@,
        LogLineV::ProviderSelected(_) => "info"@,
        LogLineV::CapsulesReloaded => "info"@,
        _ => "warn"@,
    }
}

/// The text of a line.
pub open spec fn line_text(line: LogLineV) -> Seq<char> {
    match line {
        LogLineV::HookFailed(message) => "Provider discovery hook trigger failed: "@ + message,
        LogLineV::AnswerUnreadable(reason) => "Failed to parse provider discovery response: "@
            + reason,
        LogLineV::NothingToList =>
            "Provider discovery returned empty and no cached providers exist"@,
        LogLineV::NothingAtStart =>
            "Initial provider discovery returned empty and no cached providers exist"@,
        LogLineV::NothingToPick => "No LLM providers found for /models selection"@,
        LogLineV::ModelCleared(id) => "Active model '"@ + id
            + "' no longer available after reload, clearing"@,
        LogLineV::ProviderSelected(id) => "Auto-selected sole LLM provider: "@ + id,
        LogLineV::SignalMissing =>
            "Timed out waiting for astrid.v1.capsules_loaded - proceeding with discovery anyway"@,
        LogLineV::CapsulesReloaded => "Capsules reloaded - re-discovering providers"@,
        LogLineV::SignalDiscarded =>
            "Discarded astrid.v1.capsules_loaded from an untrusted source"@,
        LogLineV::MessagesDropped(count) => "Event bus dropped "@ + decimal(count as nat)
            + " messages in registry poll"@,
    }
}

fn joined(first: &str, second: &str) -> (text: String)
    ensures
        text@ == first@ + second@,
{
    let mut text = first.to_owned();
    text.append(second);
    text
}

impl LogLine {
    /// The level to log at.
    pub fn level(&self) -> (level: &'static str)
        ensures
            level@ == line_level(self@),
    {
        match self {
            LogLine::ModelCleared(_) => "info",
            LogLine::ProviderSelected(_) => "info",
            LogLine::CapsulesReloaded => "info",
            _ => "warn",
        }
    }

    /// The text to log.
    pub fn text(&self) -> (text: String)
        ensures
            text@ == line_text(self@),
    {
        match self {
            LogLine::HookFailed(message) => joined(
                "Provider discovery hook trigger failed: ",
                message.as_str(),
            ),
            LogLine::AnswerUnreadable(reason) => joined(
                "Failed to parse provider discovery response: ",
                reason.as_str(),
            ),
            LogLine::NothingToList =>
                "Provider discovery returned empty and no cached providers exist".to_owned(),
            LogLine::NothingAtStart =>
                "Initial provider discovery returned empty and no cached providers exist".to_owned(),
            LogLine::NothingToPick => "No LLM providers found for /models selection".to_owned(),
            LogLine::ModelCleared(id) => joined(
                joined("Active model '", id.as_str()).as_str(),
                "' no longer available after reload, clearing",
            ),
            LogLine::ProviderSelected(id) => joined(
                "Auto-selected sole LLM provider: ",
                id.as_str(),
            ),
            LogLine::SignalMissing =>
                "Timed out waiting for astrid.v1.capsules_loaded - proceeding with discovery anyway".to_owned(),
            LogLine::CapsulesReloaded => "Capsules reloaded - re-discovering providers".to_owned(),
            LogLine::SignalDiscarded =>
                "Discarded astrid.v1.capsules_loaded from an untrusted source".to_owned(),
            LogLine::MessagesDropped(count) => joined(
                joined("Event bus dropped ", decimal_text(*count as u128).as_str()).as_str(),
                " messages in registry poll",
            ),
        }
    }
}

/// The line, where it is due.
pub open spec fn line_if(due: bool, line: LogLineV) -> Seq<LogLineV> {
    if due {
        seq![line]
    } else {
        Seq::empty()
    }
}

/// What is logged about a state that a start or a reload brings up to date: that a
/// stale active model ID goes, and that the sole provider is selected.
pub open spec fn tidied(state: StateView) -> Seq<LogLineV> {
    line_if(stale(state), LogLineV::ModelCleared(state.active_model_id->0)) + line_if(
        single(cleared(state)),
        LogLineV::ProviderSelected(state.providers[0].id),
    )
}

/// What is logged once the stored state is read: that no providers are known where
/// they are wanted, and what happens to the active model.
pub open spec fn logged_after_load(intent: IntentV, state: StateView) -> Seq<LogLineV> {
    match intent {
        IntentV::List(found) => line_if(
            refreshed(state, found).providers.len() == 0,
            LogLineV::NothingToList,
        ),
        IntentV::Pick(found) => line_if(
            refreshed(state, found).providers.len() == 0,
            LogLineV::NothingToPick,
        ),
        IntentV::Start(found) => line_if(
            refreshed(state, found).providers.len() == 0,
            LogLineV::NothingAtStart,
        ) + tidied(refreshed(state, found)),
        IntentV::Reload(found) => tidied(refreshed(state, found)),
        _ => Seq::empty(),
    }
}

/// What is logged when something came of a task.
pub open spec fn logged(task: TaskV, event: EventV) -> Seq<LogLineV> {
    match (task, event) {
        (TaskV::AwaitCapsules, _) => line_if(!signalled(event), LogLineV::SignalMissing),
        (TaskV::Receive, EventV::Received(text)) => line_if(
            text.len() > 0 && dropped(json_text(text)) > 0,
            LogLineV::MessagesDropped(dropped(json_text(text))),
        ),
        (TaskV::Poll(Channel::Reloads), EventV::Received(text)) => line_if(
            text.len() > 0,
            if from_kernel(json_text(text)) {
                LogLineV::CapsulesReloaded
            } else {
                LogLineV::SignalDiscarded
            },
        ),
        (TaskV::Discover(_), EventV::Failed(message)) => seq![LogLineV::HookFailed(message)],
        (TaskV::Discover(_), EventV::Received(text)) => line_if(
            !is_array(json_text(text)),
            LogLineV::AnswerUnreadable(array_failure(text)),
        ),
        (TaskV::Load(intent), _) => logged_after_load(intent, loaded(event)),
        _ => Seq::empty(),
    }
}

fn lines_if(due: bool, line: LogLine) -> (lines: Vec<LogLine>)
    ensures
        lines.deep_view() == line_if(due, line@),
{
    let mut lines: Vec<LogLine> = Vec::new();
    if due {
        lines.push(line);
    }
    assert(lines.deep_view() =~= line_if(due, line@));
    lines
}

fn no_lines() -> (lines: Vec<LogLine>)
    ensures
        lines.deep_view() == Seq::<LogLineV>::empty(),
{
    let lines: Vec<LogLine> = Vec::new();
    assert(lines.deep_view() =~= Seq::<LogLineV>::empty());
    lines
}

fn append_lines(lines: Vec<LogLine>, more: Vec<LogLine>) -> (all: Vec<LogLine>)
    ensures
        all.deep_view() == lines.deep_view() + more.deep_view(),
{
    let mut all = lines;
    let mut rest = more;
    all.append(&mut rest);
    assert(all.deep_view() =~= lines.deep_view() + more.deep_view());
    all
}

fn refreshed_state(state: RegistryState, found: &Vec<ProviderEntry>) -> (after: RegistryState)
    ensures
        after@ == refreshed(state@, found.deep_view()),
{
    if found.len() > 0 {
        RegistryState {
            providers: clone_providers(found),
            active_model_id: state.active_model_id,
        }
    } else {
        state
    }
}

fn tidied_lines(state: RegistryState) -> (lines: Vec<LogLine>)
    ensures
        lines.deep_view() == tidied(state@),
{
    let mut after = state.clone();
    let _effects = clear_stale_active_model(&mut after);
    let first = match &state.active_model_id {
        Some(id) => lines_if(after.active_model_id.is_none(), LogLine::ModelCleared(id.clone())),
        None => no_lines(),
    };
    let second = if after.providers.len() == 1 && after.active_model_id.is_none() {
        assert(after.providers.deep_view() == state@.providers);
        lines_if(true, LogLine::ProviderSelected(after.providers[0].id.clone()))
    } else {
        no_lines()
    };
    append_lines(first, second)
}

fn lines_after_load(intent: &Intent, state: RegistryState) -> (lines: Vec<LogLine>)
    ensures
        lines.deep_view() == logged_after_load(intent@, state@),
{
    match intent {
        Intent::List(found) => lines_if(
            refreshed_state(state, found).providers.len() == 0,
            LogLine::NothingToList,
        ),
        Intent::Pick(found) => lines_if(
            refreshed_state(state, found).providers.len() == 0,
            LogLine::NothingToPick,
        ),
        Intent::Start(found) => {
            let after = refreshed_state(state, found);
            let lines = lines_if(after.providers.len() == 0, LogLine::NothingAtStart);
            append_lines(lines, tidied_lines(after))
        },
        Intent::Reload(found) => tidied_lines(refreshed_state(state, found)),
        _ => no_lines(),
    }
}

impl Registry {
    /// What to log when something came of the action.
    pub fn logs(&self, event: &Event) -> (lines: Vec<LogLine>)
        ensures
            lines.deep_view() == logged(current(self@), event@),
    {
        if self.tasks.len() == 0 {
            return no_lines();
        }
        match (&self.tasks[0], event) {
            (Task::AwaitCapsules, _) => lines_if(!is_signalled(event), LogLine::SignalMissing),
            (Task::Receive, Event::Received(text)) => {
                let count = dropped_messages(text.as_slice());
                lines_if(text.len() > 0 && count > 0, LogLine::MessagesDropped(count))
            },
            (Task::Poll(Channel::Reloads), Event::Received(text)) => lines_if(
                text.len() > 0,
                if is_signalled(event) {
                    LogLine::CapsulesReloaded
                } else {
                    LogLine::SignalDiscarded
                },
            ),
            (Task::Discover(_), Event::Failed(message)) => lines_if(
                true,
                LogLine::HookFailed(message.clone()),
            ),
            (Task::Discover(_), Event::Received(text)) => match array_error(text.as_slice()) {
                Some(reason) => lines_if(true, LogLine::AnswerUnreadable(reason)),
                None => no_lines(),
            },
            (Task::Load(intent), _) => lines_after_load(intent, loaded_state(event)),
            _ => no_lines(),
        }
    }
}

/// A signal of reloaded capsules that the kernel did not send is logged and
/// discarded: the run goes on as if it had not come.
pub proof fn law_untrusted_signal_logged(text: Seq<u8>, rest: Seq<TaskV>, serial: u64)
    requires
        text.len() > 0,
        !from_kernel(json_text(text)),
    ensures
        logged(TaskV::Poll(Channel::Reloads), EventV::Received(text)) == seq![
            LogLineV::SignalDiscarded,
        ],
        line_level(LogLineV::SignalDiscarded) == "warn"@,
        advanced(
            run_with(seq![TaskV::Poll(Channel::Reloads)], rest, serial),
            EventV::Received(text),
        ) == run_with(Seq::empty(), rest, serial),
{
    law_untrusted_signal_discarded(rest, serial, EventV::Received(text));
}

/// The wait for the kernel's signal is over whatever came of it, and a warning tells
/// if the signal did not come.
pub proof fn law_missing_signal_warned(event: EventV, rest: Seq<TaskV>, serial: u64)
    ensures
        logged(TaskV::AwaitCapsules, event) == line_if(!signalled(event), LogLineV::SignalMissing),
        line_level(LogLineV::SignalMissing) == "warn"@,
        advanced(run_with(seq![TaskV::AwaitCapsules], rest, serial), event) == run_with(
            Seq::empty(),
            rest,
            serial,
        ),
{
    assert((seq![TaskV::AwaitCapsules] + rest).skip(1) =~= rest);
    assert(Seq::<TaskV>::empty() + rest =~= rest);
}

/// A discovery whose hook fails, or whose answer is no JSON array, finds nothing and
/// is logged by one warning. One whose answer is an array is not logged.
pub proof fn law_failed_discovery_warned(purpose: PurposeV, event: EventV)
    requires
        event is Failed || event is Received,
    ensures
        ({
            let lines = logged(TaskV::Discover(purpose), event);
            if event is Received && is_array(json_text(event->Received_0)) {
                lines.len() == 0
            } else {
                found(event).len() == 0 && lines.len() == 1 && line_level(lines[0]) == "warn"@
            }
        }),
{
}

/// After a discovery that finds nothing, a query for the providers and a request to
/// pick a model store nothing. They are logged, by one warning, just where no
/// providers are known; a list is then empty, and no selection is offered.
pub proof fn law_nothing_found_warned(state: StateView, event: EventV)
    requires
        loaded(event) == state,
    ensures
        after_load(IntentV::List(Seq::empty()), state) == performing(
            seq![EffectV::Publish(NoticeV::Providers(state.providers))],
        ),
        logged(TaskV::Load(IntentV::List(Seq::empty())), event) == line_if(
            state.providers.len() == 0,
            LogLineV::NothingToList,
        ),
        after_load(IntentV::Pick(Seq::empty()), state) == stamping(state.providers),
        logged(TaskV::Load(IntentV::Pick(Seq::empty())), event) == line_if(
            stamping(state.providers).len() == 0,
            LogLineV::NothingToPick,
        ),
        line_level(LogLineV::NothingToList) == "warn"@,
        line_level(LogLineV::NothingToPick) == "warn"@,
{
    law_empty_discovery_keeps_providers(state);
    assert(performing(refreshing(state, Seq::empty())) + stamping(state.providers) =~= stamping(
        state.providers,
    ));
}

/// Dropped messages are logged just where an envelope counts some, and leave what the
/// messages that came ask for as it is.
pub proof fn law_drops_warned(text: Seq<u8>)
    requires
        text.len() > 0,
    ensures
        logged(TaskV::Receive, EventV::Received(text)) == line_if(
            dropped(json_text(text)) > 0,
            LogLineV::MessagesDropped(dropped(json_text(text))),
        ),
        line_level(LogLineV::MessagesDropped(dropped(json_text(text)))) == "warn"@,
        arrived(Channel::Requests, EventV::Received(text)) == requests_of(
            Channel::Requests,
            messages(json_text(text)),
        ),
{
}

/// What a start or a reload logs of the active model is what it does to it: the line
/// that it is cleared comes with its removal, the line of a selection with the change
/// event.
pub proof fn law_tidying_logged(state: StateView)
    ensures
        tidied(state).contains(LogLineV::ModelCleared(state.active_model_id->0)) == (
        clearing(state).len() > 0),
        tidied(state).contains(LogLineV::ProviderSelected(state.providers[0].id)) == selecting(
            cleared(state),
        ).contains(EffectV::Publish(NoticeV::ModelChanged(state.providers[0]))),
{
    let lines = tidied(state);
    if stale(state) {
        assert(lines[0] == LogLineV::ModelCleared(state.active_model_id->0));
    }
    if single(cleared(state)) {
        assert(lines[lines.len() - 1] == LogLineV::ProviderSelected(state.providers[0].id));
        assert(selecting(cleared(state))[1] == EffectV::Publish(
            NoticeV::ModelChanged(state.providers[0]),
        ));
    }
}

} // verus!
