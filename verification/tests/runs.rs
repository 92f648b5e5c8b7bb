use astrid_capsule_registry::codec::{provider_from_json, provider_to_json};
use astrid_capsule_registry::discovery::describe_request;
use astrid_capsule_registry::envelope::Channel;
use astrid_capsule_registry::handlers::{
    auto_select_if_single, clear_stale_active_model, emit_model_selection, find_active,
    handle_get_active_model, handle_get_providers, handle_reload, handle_set_active_model_by_id,
    handle_startup, selection_notice, Effect,
};
use astrid_capsule_registry::json::{parse_json, write_json};
use astrid_capsule_registry::logs::LogLine;
use astrid_capsule_registry::notice::Notice;
use astrid_capsule_registry::provider::{clone_providers, ProviderEntry, RegistryState};
use astrid_capsule_registry::registry::{
    Action, Event, Intent, Purpose, Registry, Task, WAIT_MILLIS,
};
use astrid_capsule_registry::storage::{save_state, STATE_KEY};

fn provider(id: &str) -> ProviderEntry {
    ProviderEntry {
        id: id.to_string(),
        description: format!("the model {id}"),
        request_topic: "r".to_string(),
        stream_topic: "s".to_string(),
        capabilities: vec!["text".to_string()],
        context_window: None,
        max_output_tokens: Some(5),
    }
}

fn providers(ids: &[&str]) -> Vec<ProviderEntry> {
    ids.iter().map(|id| provider(id)).collect()
}

fn state(ids: &[&str], active: Option<&str>) -> RegistryState {
    RegistryState {
        providers: providers(ids),
        active_model_id: active.map(|id| id.to_string()),
    }
}

fn save(ids: &[&str], active: Option<&str>) -> Effect {
    Effect::Save(state(ids, active))
}

fn changed(id: &str) -> Effect {
    Effect::Publish(Notice::ModelChanged(provider(id)))
}

#[test]
fn listing_with_a_discovery() {
    assert_eq!(
        handle_get_providers(state(&["a"], Some("a")), providers(&["b", "c"])),
        vec![
            save(&["b", "c"], Some("a")),
            Effect::Publish(Notice::Providers(providers(&["b", "c"]))),
        ]
    );
}

#[test]
fn an_empty_discovery_keeps_what_is_known() {
    assert_eq!(
        handle_get_providers(state(&["a"], Some("a")), vec![]),
        vec![Effect::Publish(Notice::Providers(providers(&["a"])))]
    );
    assert_eq!(handle_reload(state(&["a"], Some("a")), vec![]), vec![]);
    assert_eq!(
        handle_get_providers(state(&[], None), vec![]),
        vec![Effect::Publish(Notice::Providers(vec![]))]
    );
}

#[test]
fn the_active_model_is_looked_up() {
    assert_eq!(
        handle_get_active_model(&state(&["a", "b"], Some("b"))),
        Notice::ActiveModel(Some(provider("b")))
    );
    assert_eq!(
        handle_get_active_model(&state(&["a"], Some("x"))),
        Notice::ActiveModel(None)
    );
    assert_eq!(handle_get_active_model(&state(&["a"], None)), Notice::ActiveModel(None));
    assert_eq!(find_active(&state(&["a"], Some("a"))), Some(&provider("a")));
}

#[test]
fn a_switch_takes_effect() {
    let effects =
        handle_set_active_model_by_id(state(&["a", "b"], Some("a")), vec![], "b".to_string());
    assert_eq!(
        effects,
        vec![
            save(&["a", "b"], Some("b")),
            changed("b"),
            Effect::Publish(Notice::ModelSet(provider("b"))),
        ]
    );
    match &effects[0] {
        Effect::Save(stored) => assert_eq!(
            handle_get_active_model(stored),
            Notice::ActiveModel(Some(provider("b")))
        ),
        _ => unreachable!(),
    }
}

#[test]
fn a_switch_discovers_only_where_nothing_is_known() {
    assert_eq!(
        handle_set_active_model_by_id(state(&[], None), providers(&["b"]), "b".to_string())[0],
        save(&["b"], Some("b"))
    );
    assert_eq!(
        handle_set_active_model_by_id(state(&["a"], None), providers(&["b"]), "b".to_string()),
        vec![Effect::Publish(Notice::UnknownModel("b".to_string()))]
    );
}

#[test]
fn an_unknown_model_is_refused() {
    assert_eq!(
        handle_set_active_model_by_id(state(&["a"], Some("a")), vec![], "z".to_string()),
        vec![Effect::Publish(Notice::UnknownModel("z".to_string()))]
    );
}

#[test]
fn stale_models_are_cleared() {
    let mut stale = state(&["a", "b"], Some("x"));
    assert_eq!(clear_stale_active_model(&mut stale), vec![save(&["a", "b"], None)]);
    assert_eq!(stale, state(&["a", "b"], None));
    let mut fresh = state(&["a", "b"], Some("b"));
    assert_eq!(clear_stale_active_model(&mut fresh), vec![]);
    assert_eq!(fresh, state(&["a", "b"], Some("b")));
}

#[test]
fn a_sole_provider_is_selected() {
    let mut single = state(&["a"], None);
    assert_eq!(
        auto_select_if_single(&mut single),
        vec![save(&["a"], Some("a")), changed("a")]
    );
    assert_eq!(single, state(&["a"], Some("a")));
    for mut other in [state(&[], None), state(&["a", "b"], None), state(&["a"], Some("x"))] {
        let before = other.clone();
        assert_eq!(auto_select_if_single(&mut other), vec![]);
        assert_eq!(other, before);
    }
}

#[test]
fn a_start_replaces_clears_and_selects() {
    let (after, effects) = handle_startup(state(&["old"], Some("old")), providers(&["new"]));
    assert_eq!(after, state(&["new"], Some("new")));
    assert_eq!(
        effects,
        vec![
            save(&["new"], Some("old")),
            save(&["new"], None),
            save(&["new"], Some("new")),
            changed("new"),
        ]
    );
    let (after, effects) = handle_startup(state(&["a", "b"], Some("a")), providers(&["b", "a"]));
    assert_eq!(after, state(&["b", "a"], Some("a")));
    assert_eq!(effects, vec![save(&["b", "a"], Some("a"))]);
    let (after, effects) = handle_startup(state(&[], Some("x")), vec![]);
    assert_eq!(after, state(&[], None));
    assert_eq!(effects, vec![save(&[], None)]);
}

#[test]
fn a_reload_brings_the_state_up_to_date() {
    assert_eq!(
        handle_reload(state(&["a"], Some("a")), providers(&["b"])),
        handle_startup(state(&["a"], Some("a")), providers(&["b"])).1
    );
    assert_eq!(handle_reload(state(&[], Some("x")), vec![]), vec![save(&[], None)]);
    assert_eq!(
        handle_reload(state(&["a", "b"], Some("x")), vec![]),
        vec![save(&["a", "b"], None)]
    );
    assert_eq!(
        handle_reload(state(&["a"], None), vec![]),
        vec![save(&["a"], Some("a")), changed("a")]
    );
    assert_eq!(handle_reload(state(&["a", "b"], None), vec![]), vec![]);
}

#[test]
fn a_selection_offers_the_refreshed_providers() {
    assert_eq!(
        emit_model_selection(state(&["a"], None), providers(&["b"])),
        (vec![save(&["b"], None)], providers(&["b"]))
    );
    assert_eq!(
        emit_model_selection(state(&["a"], None), vec![]),
        (vec![], providers(&["a"]))
    );
    assert_eq!(
        selection_notice(clone_providers(&providers(&["a"])), 12, 3),
        Notice::Selection {
            request_id: "models-12-3".to_string(),
            providers: providers(&["a"]),
        }
    );
}

fn read_state(bytes: &[u8]) -> Option<RegistryState> {
    let json = parse_json(bytes)?;
    let entries = json.get("providers")?.as_array()?;
    Some(RegistryState {
        providers: entries.iter().map(provider_from_json).collect::<Option<Vec<_>>>()?,
        active_model_id: json.get("active_model_id")?.as_str().map(|id| id.to_string()),
    })
}

/// A host with a store, providers and a clock.
struct Host {
    stored: Vec<u8>,
    offered: Vec<ProviderEntry>,
    inbox: Vec<(Channel, Vec<u8>)>,
    published: Vec<(String, String)>,
    subscribed: Vec<&'static str>,
    saves: usize,
    triggers: usize,
    millis: u128,
}

impl Host {
    fn new(stored: Vec<u8>, offered: &[&str]) -> Host {
        Host {
            stored,
            offered: providers(offered),
            inbox: vec![],
            published: vec![],
            subscribed: vec![],
            saves: 0,
            triggers: 0,
            millis: 1000,
        }
    }

    fn take(&mut self, channel: Channel) -> Vec<u8> {
        match self.inbox.iter().position(|(c, _)| *c == channel) {
            Some(i) => self.inbox.remove(i).1,
            None => vec![],
        }
    }

    fn perform(&mut self, action: Action) -> Event {
        match action {
            Action::Subscribe(channel) => {
                self.subscribed.push(channel.topic());
                Event::Completed
            }
            Action::Unsubscribe(channel) => {
                self.subscribed.retain(|topic| *topic != channel.topic());
                Event::Completed
            }
            Action::SignalReady => Event::Completed,
            Action::Receive(channel, millis) => {
                assert_eq!(millis, 5000);
                Event::Received(self.take(channel))
            }
            Action::Poll(channel) => Event::Received(self.take(channel)),
            Action::Trigger(request) => {
                assert_eq!(request, describe_request());
                self.triggers += 1;
                let entries: Vec<String> = self
                    .offered
                    .iter()
                    .map(|p| String::from_utf8(write_json(&provider_to_json(p))).unwrap())
                    .collect();
                Event::Received(format!(r#"[{{"providers":[{}]}}]"#, entries.join(",")).into_bytes())
            }
            Action::Load(key) => {
                assert_eq!(key, STATE_KEY);
                match read_state(&self.stored) {
                    Some(stored) => Event::Loaded(stored),
                    None => Event::Failed("no state".to_string()),
                }
            }
            Action::Save(key, value) => {
                assert_eq!(key, STATE_KEY);
                self.saves += 1;
                self.stored = value;
                Event::Completed
            }
            Action::Publish(topic, payload) => {
                self.published.push((topic.to_string(), String::from_utf8(payload).unwrap()));
                Event::Completed
            }
            Action::ReadClock => {
                self.millis += 1;
                Event::Time(self.millis)
            }
            Action::Stop(_) => unreachable!(),
        }
    }

    /// Runs until the registry next waits for requests.
    fn run(&mut self, run: Registry) -> Registry {
        let mut run = run;
        loop {
            let event = self.perform(run.action());
            run = run.step(event);
            if run.action() == Action::Receive(Channel::Requests, WAIT_MILLIS) {
                return run;
            }
        }
    }

    fn topics(&self) -> Vec<&str> {
        self.published.iter().map(|(topic, _)| topic.as_str()).collect()
    }
}

fn envelope(messages: &str) -> Vec<u8> {
    format!(r#"{{"messages":[{messages}]}}"#).into_bytes()
}

#[test]
fn a_run_opens() {
    let mut host = Host::new(vec![], &["only"]);
    let run = host.run(Registry::start());
    assert_eq!(
        host.subscribed,
        [
            "registry.v1.*",
            "cli.v1.command.execute",
            "registry.v1.selection.callback",
            "astrid.v1.capsules_loaded",
        ]
    );
    assert_eq!(host.topics(), ["registry.v1.active_model_changed"]);
    assert_eq!(host.stored, save_state(&state(&["only"], Some("only"))));
    assert_eq!(run.tasks, vec![Task::Receive]);
    assert_eq!(run.serial, 0);
}

#[test]
fn a_run_signals_readiness_before_the_last_subscription() {
    let mut run = Registry::start();
    for channel in [Channel::Requests, Channel::Commands, Channel::Selections] {
        assert_eq!(run.action(), Action::Subscribe(channel));
        run = run.step(Event::Completed);
    }
    assert_eq!(run.action(), Action::SignalReady);
    run = run.step(Event::Failed("poisoned".to_string()));
    assert_eq!(run.action(), Action::Subscribe(Channel::Reloads));
    run = run.step(Event::Completed);
    assert_eq!(run.action(), Action::Receive(Channel::Reloads, 5000));
    run = run.step(Event::Failed("timeout".to_string()));
    assert_eq!(run.action(), Action::Trigger(describe_request()));
    run = run.step(Event::Failed("no hook".to_string()));
    assert_eq!(run.action(), Action::Load("registry_state"));
    run = run.step(Event::Failed("no store".to_string()));
    assert_eq!(run.action(), Action::Receive(Channel::Requests, 5000));
}

#[test]
fn requests_are_served() {
    let mut host = Host::new(vec![], &["a", "b"]);
    let run = host.run(Registry::start());
    assert_eq!(host.topics(), Vec::<&str>::new());
    host.inbox.push((
        Channel::Requests,
        envelope(
            r#"{"topic":"registry.v1.get_active_model"},
               {"topic":"registry.v1.set_active_model","payload":{"data":{"model_id":"b"}}},
               {"topic":"registry.v1.get_active_model"},
               {"topic":"registry.v1.set_active_model","payload":{"data":{"model_id":"z"}}},
               {"topic":"registry.v1.set_active_model","payload":{}},
               {"topic":"registry.v1.get_providers"}"#,
        ),
    ));
    let _ = host.run(run);
    assert_eq!(
        host.topics(),
        [
            "registry.v1.response.get_active_model",
            "registry.v1.active_model_changed",
            "registry.v1.response.set_active_model",
            "registry.v1.response.get_active_model",
            "registry.v1.response.set_active_model",
            "registry.v1.response.set_active_model",
            "registry.v1.response.get_providers",
        ]
    );
    assert_eq!(host.published[0].1, "null");
    assert_eq!(host.published[3].1, host.published[1].1);
    assert_eq!(host.published[4].1, r#"{"error":"unknown model: z"}"#);
    assert_eq!(host.published[5].1, r#"{"error":"missing model_id"}"#);
    assert_eq!(host.stored, save_state(&state(&["a", "b"], Some("b"))));
}

#[test]
fn a_switch_in_a_run_discovers_where_nothing_is_known() {
    let mut host = Host::new(vec![], &[]);
    let run = host.run(Registry::start());
    assert_eq!(host.triggers, 1);
    host.offered = providers(&["a", "b"]);
    host.inbox.push((Channel::Commands, envelope(r#"{"payload":{"text":"/models b"}}"#)));
    let run = host.run(run);
    assert_eq!(host.triggers, 2);
    assert_eq!(host.stored, save_state(&state(&["a", "b"], Some("b"))));
    host.inbox.push((
        Channel::Selections,
        envelope(r#"{"payload":{"data":{"selected_id":"a"}}}"#),
    ));
    let _ = host.run(run);
    assert_eq!(host.triggers, 2);
    assert_eq!(host.stored, save_state(&state(&["a", "b"], Some("a"))));
}

#[test]
fn picking_offers_models_under_fresh_identifiers() {
    let mut host = Host::new(vec![], &["a", "b"]);
    let run = host.run(Registry::start());
    let models = r#"{"payload":{"text":"/models"}}"#;
    host.inbox.push((Channel::Commands, envelope(&format!("{models},{models}"))));
    let run = host.run(run);
    assert_eq!(host.topics(), ["registry.v1.response.models", "registry.v1.response.models"]);
    assert!(host.published[0].1.contains(r#""request_id":"models-1001-0""#));
    assert!(host.published[1].1.contains(r#""request_id":"models-1002-1""#));
    assert_eq!(run.serial, 2);
}

#[test]
fn picking_without_providers_publishes_nothing() {
    let mut host = Host::new(vec![], &[]);
    let run = host.run(Registry::start());
    host.inbox.push((Channel::Commands, envelope(r#"{"payload":{"text":"/models"}}"#)));
    let run = host.run(run);
    assert_eq!(host.topics(), Vec::<&str>::new());
    assert_eq!(run.serial, 0);
}

#[test]
fn the_serial_number_wraps() {
    let run = Registry {
        tasks: vec![Task::Stamp(providers(&["a"])), Task::Receive],
        serial: u64::MAX,
    };
    assert_eq!(run.action(), Action::ReadClock);
    let next = run.step(Event::Failed("no clock".to_string()));
    assert_eq!(next.serial, 0);
    match next.action() {
        Action::Publish(topic, payload) => {
            assert_eq!(topic, "registry.v1.response.models");
            let text = String::from_utf8(payload).unwrap();
            assert!(text.contains(r#""request_id":"models-0-18446744073709551615""#));
        }
        _ => unreachable!(),
    }
}

#[test]
fn only_the_kernel_triggers_a_reload() {
    let mut host = Host::new(vec![], &["a"]);
    let run = host.run(Registry::start());
    host.offered = providers(&["b"]);
    host.inbox.push((
        Channel::Reloads,
        envelope(r#"{"source_id":"6f1c0d1e-0000-0000-0000-000000000000"}"#),
    ));
    let run = host.run(run);
    assert_eq!(host.triggers, 1);
    assert_eq!(host.stored, save_state(&state(&["a"], Some("a"))));
    host.inbox.push((
        Channel::Reloads,
        envelope(r#"{"source_id":"00000000-0000-0000-0000-000000000000"}"#),
    ));
    let _ = host.run(run);
    assert_eq!(host.triggers, 2);
    assert_eq!(host.stored, save_state(&state(&["b"], Some("b"))));
    assert_eq!(
        host.topics(),
        ["registry.v1.active_model_changed", "registry.v1.active_model_changed"]
    );
}

#[test]
fn a_failed_subscription_stops_the_run() {
    for failing in 0..4 {
        let mut run = Registry::start();
        let mut subscriptions = 0;
        loop {
            let event = match run.action() {
                Action::Subscribe(_) if subscriptions == failing => {
                    Event::Failed("refused".to_string())
                }
                Action::Subscribe(_) => {
                    subscriptions += 1;
                    Event::Completed
                }
                Action::Stop(failure) => {
                    assert_eq!(failure, Some("refused".to_string()));
                    break;
                }
                _ => Event::Completed,
            };
            run = run.step(event);
        }
    }
}

#[test]
fn a_failed_wait_ends_the_run() {
    let mut host = Host::new(vec![], &["a", "b"]);
    let mut run = host.run(Registry::start()).step(Event::Failed("closed".to_string()));
    for channel in [Channel::Requests, Channel::Commands, Channel::Selections, Channel::Reloads] {
        assert_eq!(run.action(), Action::Unsubscribe(channel));
        run = run.step(Event::Failed("gone".to_string()));
    }
    assert_eq!(run.action(), Action::Stop(None));
    run = run.step(Event::Completed);
    assert_eq!(run.action(), Action::Stop(None));
}

#[test]
fn an_unreadable_store_counts_as_empty() {
    let mut host = Host::new(b"garbage".to_vec(), &[]);
    let run = host.run(Registry::start());
    host.inbox.push((Channel::Requests, envelope(r#"{"topic":"registry.v1.get_providers"}"#)));
    let _ = host.run(run);
    assert_eq!(host.published, [("registry.v1.response.get_providers".to_string(), "[]".to_string())]);
    assert_eq!(host.saves, 0);
    assert_eq!(host.stored, b"garbage".to_vec());
}

#[test]
fn only_a_loaded_state_counts() {
    let lookup = || Registry { tasks: vec![Task::Load(Intent::Lookup), Task::Receive], serial: 0 };
    let answer = |event: Event| match lookup().step(event).action() {
        Action::Publish(_, payload) => String::from_utf8(payload).unwrap(),
        _ => unreachable!(),
    };
    let known = state(&["a"], Some("a"));
    assert_eq!(answer(Event::Received(save_state(&known))), "null");
    assert_eq!(answer(failed("duplicate field `providers`")), "null");
    assert_ne!(answer(Event::Loaded(known)), "null");
}

#[test]
fn a_failed_poll_is_passed_over() {
    let run = Registry {
        tasks: vec![Task::Poll(Channel::Commands), Task::Poll(Channel::Reloads), Task::Receive],
        serial: 0,
    };
    let run = run.step(Event::Failed("poll".to_string()));
    assert_eq!(run.action(), Action::Poll(Channel::Reloads));
    let run = run.step(Event::Failed("poll".to_string()));
    assert_eq!(run.tasks, vec![Task::Receive]);
}

#[test]
fn a_run_without_tasks_stops() {
    let run = Registry { tasks: vec![], serial: 3 };
    assert_eq!(run.action(), Action::Stop(None));
    let run = run.step(Event::Completed);
    assert_eq!(run.action(), Action::Stop(None));
    assert_eq!(run.serial, 3);
}

#[test]
fn an_empty_reload_in_a_run_clears_a_stale_model() {
    let mut host = Host::new(vec![], &["a", "b"]);
    let run = host.run(Registry::start());
    host.stored = save_state(&state(&["a", "b"], Some("gone")));
    host.offered = vec![];
    host.inbox.push((
        Channel::Reloads,
        envelope(r#"{"source_id":"00000000-0000-0000-0000-000000000000"}"#),
    ));
    let _ = host.run(run);
    assert_eq!(host.stored, save_state(&state(&["a", "b"], None)));
    assert_eq!(host.topics(), Vec::<&str>::new());
}

#[test]
fn each_query_of_an_envelope_gets_one_response() {
    let mut host = Host::new(save_state(&state(&["a", "b"], None)), &["a", "b"]);
    let run = host.run(Registry::start());
    host.inbox.push((
        Channel::Requests,
        envelope(
            r#"{"topic":"registry.v1.set_active_model","payload":{"model_id":"a"}},
               {"topic":"registry.v1.other"},
               {"topic":"registry.v1.set_active_model"},
               {"topic":"registry.v1.get_active_model"},
               {"topic":"registry.v1.get_providers"}"#,
        ),
    ));
    let _ = host.run(run);
    let responses: Vec<&str> = host
        .topics()
        .into_iter()
        .filter(|topic| topic.starts_with("registry.v1.response."))
        .collect();
    assert_eq!(
        responses,
        [
            "registry.v1.response.set_active_model",
            "registry.v1.response.get_active_model",
            "registry.v1.response.get_providers",
        ]
    );
}

#[test]
fn a_run_goes_on_with_the_numbers_of_an_earlier_one() {
    let mut host = Host::new(vec![], &["a", "b"]);
    let run = host.run(Registry::start_from(7));
    assert_eq!(run.serial, 7);
    host.inbox.push((Channel::Commands, envelope(r#"{"payload":{"text":"/models"}}"#)));
    let run = host.run(run);
    assert_eq!(run.serial, 8);
    assert!(host.published[0].1.contains(r#""request_id":"models-1001-7""#));
}

fn at(task: Task) -> Registry {
    Registry { tasks: vec![task, Task::Receive], serial: 0 }
}

fn failed(message: &str) -> Event {
    Event::Failed(message.to_string())
}

fn bytes(text: &str) -> Event {
    Event::Received(text.as_bytes().to_vec())
}

#[test]
fn failed_discoveries_are_logged_once() {
    for purpose in [Purpose::List, Purpose::Start, Purpose::Switch("m".to_string())] {
        let run = at(Task::Discover(purpose));
        assert_eq!(
            run.logs(&failed("no hook")),
            vec![LogLine::HookFailed("no hook".to_string())]
        );
        assert_eq!(
            run.logs(&bytes("")),
            vec![LogLine::AnswerUnreadable(
                "EOF while parsing a value at line 1 column 0".to_string()
            )]
        );
        assert_eq!(
            run.logs(&bytes(r#"{"providers":[]}"#)),
            vec![LogLine::AnswerUnreadable(
                "invalid type: map, expected a sequence at line 1 column 0".to_string()
            )]
        );
        assert_eq!(run.logs(&bytes("[1] 2")).len(), 1);
        assert_eq!(run.logs(&bytes("[]")), vec![]);
        assert_eq!(run.logs(&bytes(" [{\"other\":1}, 2] ")), vec![]);
    }
}

#[test]
fn a_missing_signal_is_logged() {
    let run = at(Task::AwaitCapsules);
    let kernel = r#"{"messages":[{"source_id":"00000000-0000-0000-0000-000000000000"}]}"#;
    assert_eq!(run.logs(&bytes(kernel)), vec![]);
    for event in [failed("timeout"), bytes(""), bytes(r#"{"messages":[{"source_id":"x"}]}"#)] {
        assert_eq!(run.logs(&event), vec![LogLine::SignalMissing]);
    }
}

#[test]
fn reload_signals_are_logged() {
    let run = at(Task::Poll(Channel::Reloads));
    let kernel = r#"{"messages":[{"source_id":"00000000-0000-0000-0000-000000000000"}]}"#;
    assert_eq!(run.logs(&bytes(kernel)), vec![LogLine::CapsulesReloaded]);
    assert_eq!(
        run.logs(&bytes(r#"{"messages":[{"source_id":"x"}]}"#)),
        vec![LogLine::SignalDiscarded]
    );
    assert_eq!(run.logs(&bytes("")), vec![]);
    assert_eq!(run.logs(&failed("poll")), vec![]);
}

#[test]
fn dropped_messages_are_logged() {
    let run = at(Task::Receive);
    assert_eq!(run.logs(&bytes(r#"{"dropped":3}"#)), vec![LogLine::MessagesDropped(3)]);
    assert_eq!(run.logs(&bytes(r#"{"dropped":0,"messages":[]}"#)), vec![]);
    assert_eq!(run.logs(&bytes(r#"{"messages":[]}"#)), vec![]);
    assert_eq!(run.logs(&bytes("")), vec![]);
    let other = at(Task::Poll(Channel::Commands));
    assert_eq!(other.logs(&bytes(r#"{"dropped":3}"#)), vec![]);
}

#[test]
fn what_a_read_state_leads_to_is_logged() {
    let stored = |ids: &[&str], active: Option<&str>| Event::Loaded(state(ids, active));
    let list = at(Task::Load(Intent::List(vec![])));
    assert_eq!(list.logs(&stored(&[], None)), vec![LogLine::NothingToList]);
    assert_eq!(list.logs(&failed("store")), vec![LogLine::NothingToList]);
    assert_eq!(list.logs(&stored(&["a"], None)), vec![]);
    let pick = at(Task::Load(Intent::Pick(vec![])));
    assert_eq!(pick.logs(&stored(&[], None)), vec![LogLine::NothingToPick]);
    assert_eq!(pick.logs(&stored(&["a"], None)), vec![]);
    let start = at(Task::Load(Intent::Start(vec![])));
    assert_eq!(
        start.logs(&stored(&[], Some("x"))),
        vec![LogLine::NothingAtStart, LogLine::ModelCleared("x".to_string())]
    );
    let reload = at(Task::Load(Intent::Reload(providers(&["b"]))));
    assert_eq!(
        reload.logs(&stored(&["a"], Some("a"))),
        vec![
            LogLine::ModelCleared("a".to_string()),
            LogLine::ProviderSelected("b".to_string()),
        ]
    );
    assert_eq!(reload.logs(&stored(&["a"], Some("b"))), vec![]);
    assert_eq!(at(Task::Load(Intent::Lookup)).logs(&stored(&[], None)), vec![]);
    assert_eq!(Registry { tasks: vec![], serial: 0 }.logs(&failed("x")), vec![]);
}

#[test]
fn log_lines_have_a_level_and_a_text() {
    let m = || "m".to_string();
    for (line, level, text) in [
        (LogLine::HookFailed(m()), "warn", "Provider discovery hook trigger failed: m"),
        (LogLine::AnswerUnreadable(m()), "warn", "Failed to parse provider discovery response: m"),
        (
            LogLine::NothingToList,
            "warn",
            "Provider discovery returned empty and no cached providers exist",
        ),
        (
            LogLine::NothingAtStart,
            "warn",
            "Initial provider discovery returned empty and no cached providers exist",
        ),
        (LogLine::NothingToPick, "warn", "No LLM providers found for /models selection"),
        (
            LogLine::ModelCleared(m()),
            "info",
            "Active model 'm' no longer available after reload, clearing",
        ),
        (LogLine::ProviderSelected(m()), "info", "Auto-selected sole LLM provider: m"),
        (
            LogLine::SignalMissing,
            "warn",
            "Timed out waiting for astrid.v1.capsules_loaded - proceeding with discovery anyway",
        ),
        (LogLine::CapsulesReloaded, "info", "Capsules reloaded - re-discovering providers"),
        (
            LogLine::SignalDiscarded,
            "warn",
            "Discarded astrid.v1.capsules_loaded from an untrusted source",
        ),
        (
            LogLine::MessagesDropped(12),
            "warn",
            "Event bus dropped 12 messages in registry poll",
        ),
    ] {
        assert_eq!(line.level(), level);
        assert_eq!(line.text(), text);
    }
}
