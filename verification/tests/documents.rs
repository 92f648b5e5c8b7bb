use astrid_capsule_registry::codec::{
    provider_from_json, provider_to_json, state_to_json,
};
use astrid_capsule_registry::discovery::{
    describe_request, describe_to_json, discover_providers, providers_in,
};
use astrid_capsule_registry::json::{parse_json, str_eq, write_json, Json};
use astrid_capsule_registry::provider::{find_provider, ProviderEntry, RegistryState};
use astrid_capsule_registry::storage::{load_state, save_state, STATE_KEY};

fn text(s: &str) -> Json {
    Json::Text(s.to_string())
}

fn object(members: Vec<(&str, Json)>) -> Json {
    Json::Object(members.into_iter().map(|(k, v)| (k.to_string(), v)).collect())
}

fn provider(id: &str) -> ProviderEntry {
    ProviderEntry {
        id: id.to_string(),
        description: format!("the model {id}"),
        request_topic: format!("llm.v1.request.{id}"),
        stream_topic: format!("llm.v1.stream.{id}"),
        capabilities: vec!["text".to_string(), "tools".to_string()],
        context_window: Some(128_000),
        max_output_tokens: None,
    }
}

fn parsed(s: &str) -> Json {
    parse_json(s.as_bytes()).unwrap()
}

#[test]
fn parse_reads_every_kind() {
    let json = parsed(r#"{"a": null, "b": [true, "x\u00e9\n", 7], "c": {"d": 18446744073709551615}}"#);
    assert_eq!(json.get("a"), Some(&Json::Null));
    assert_eq!(
        json.get("b"),
        Some(&Json::Array(vec![
            Json::Bool(true),
            text("x\u{e9}\n"),
            Json::Number(Some(7)),
        ]))
    );
    assert_eq!(json.get("c").unwrap().get("d").unwrap().as_u64(), Some(u64::MAX));
    assert_eq!(json.get("e"), None);
}

#[test]
fn parse_keeps_only_unsigned_numbers() {
    assert_eq!(
        parsed("[0, -1, 1.0, 1e3, 18446744073709551616]"),
        Json::Array(vec![
            Json::Number(Some(0)),
            Json::Number(None),
            Json::Number(None),
            Json::Number(None),
            Json::Number(None),
        ])
    );
}

#[test]
fn parse_refuses_what_is_not_json() {
    assert_eq!(parse_json(b""), None);
    assert_eq!(parse_json(b"{"), None);
    assert_eq!(parse_json(b"[1] 2"), None);
    assert_eq!(parse_json(&[0x22, 0xff, 0x22]), None);
}

#[test]
fn parse_stops_at_the_nesting_limit() {
    let nested = |depth: usize| format!("{}{}", "[".repeat(depth), "]".repeat(depth));
    assert!(parse_json(nested(127).as_bytes()).is_some());
    assert!(parse_json(nested(128).as_bytes()).is_none());
}

#[test]
fn parse_lets_the_later_member_count() {
    assert_eq!(parsed(r#"{"a": 1, "a": 2}"#).get("a").unwrap().as_u64(), Some(2));
    let twice = object(vec![("a", Json::Number(Some(1))), ("a", Json::Number(Some(2)))]);
    assert_eq!(twice.get("a").unwrap().as_u64(), Some(2));
    assert_eq!(write_json(&twice), br#"{"a":2}"#.to_vec());
}

#[test]
fn write_and_parse_are_inverse() {
    let json = object(vec![
        ("a", Json::Array(vec![Json::Null, Json::Bool(false), Json::Number(Some(u64::MAX))])),
        ("b", text("\"quoted\" \u{1f600} \u{7}")),
        ("c", object(vec![])),
    ]);
    let bytes = write_json(&json);
    assert_eq!(
        String::from_utf8(bytes.clone()).unwrap(),
        "{\"a\":[null,false,18446744073709551615],\"b\":\"\\\"quoted\\\" \u{1f600} \\u0007\",\"c\":{}}"
    );
    assert_eq!(parse_json(&bytes), Some(json));
}

#[test]
fn accessors_answer_for_their_kind_only() {
    assert_eq!(text("x").as_str(), Some("x"));
    assert_eq!(text("7").as_u64(), None);
    assert_eq!(Json::Null.as_str(), None);
    assert_eq!(Json::Null.as_array(), None);
    assert_eq!(Json::Array(vec![Json::Null]).as_array(), Some(&vec![Json::Null]));
    assert_eq!(Json::Array(vec![]).get("a"), None);
    assert!(str_eq("abc", "abc"));
    assert!(!str_eq("abc", "abd"));
}

#[test]
fn provider_in_json_form() {
    let json = provider_to_json(&provider("m1"));
    assert_eq!(
        String::from_utf8(write_json(&json)).unwrap(),
        concat(&[
            r#"{"capabilities":["text","tools"],"context_window":128000,"#,
            r#""description":"the model m1","id":"m1","#,
            r#""request_topic":"llm.v1.request.m1","stream_topic":"llm.v1.stream.m1"}"#,
        ])
    );
    assert_eq!(json.get("max_output_tokens"), None);
}

fn concat(parts: &[&str]) -> String {
    parts.concat()
}

#[test]
fn provider_round_trip() {
    let mut p = provider("m1");
    assert_eq!(provider_from_json(&provider_to_json(&p)), Some(p.clone()));
    p.context_window = None;
    p.max_output_tokens = Some(0);
    p.capabilities = vec![];
    assert_eq!(provider_from_json(&provider_to_json(&p)), Some(p.clone()));
}

#[test]
fn provider_read_from_object() {
    let json = parsed(
        r#"{"id":"m","description":"d","request_topic":"r","stream_topic":"s",
            "capabilities":["c"],"context_window":null,"max_output_tokens":9,"other":[1]}"#,
    );
    assert_eq!(
        provider_from_json(&json),
        Some(ProviderEntry {
            id: "m".to_string(),
            description: "d".to_string(),
            request_topic: "r".to_string(),
            stream_topic: "s".to_string(),
            capabilities: vec!["c".to_string()],
            context_window: None,
            max_output_tokens: Some(9),
        })
    );
}

#[test]
fn provider_read_from_array() {
    let json = parsed(r#"["m","d","r","s",["c"],5,null]"#);
    let p = provider_from_json(&json).unwrap();
    assert_eq!(p.id, "m");
    assert_eq!(p.stream_topic, "s");
    assert_eq!(p.context_window, Some(5));
    assert_eq!(p.max_output_tokens, None);
    assert_eq!(provider_from_json(&parsed(r#"["m","d","r","s",["c"],5]"#)), None);
    assert_eq!(provider_from_json(&parsed(r#"["m","d","r","s",["c"],5,null,1]"#)), None);
}

#[test]
fn provider_refused() {
    for json in [
        r#"{"description":"d","request_topic":"r","stream_topic":"s","capabilities":[]}"#,
        r#"{"id":1,"description":"d","request_topic":"r","stream_topic":"s","capabilities":[]}"#,
        r#"{"id":"m","request_topic":"r","stream_topic":"s","capabilities":[]}"#,
        r#"{"id":"m","description":"d","stream_topic":"s","capabilities":[]}"#,
        r#"{"id":"m","description":"d","request_topic":"r","capabilities":[]}"#,
        r#"{"id":"m","description":"d","request_topic":"r","stream_topic":"s"}"#,
        r#"{"id":"m","description":"d","request_topic":"r","stream_topic":"s","capabilities":null}"#,
        r#"{"id":"m","description":"d","request_topic":"r","stream_topic":"s","capabilities":["a",1]}"#,
        r#"{"id":"m","description":"d","request_topic":"r","stream_topic":"s","capabilities":[],"context_window":-1}"#,
        r#"{"id":"m","description":"d","request_topic":"r","stream_topic":"s","capabilities":[],"context_window":1.0}"#,
        r#"{"id":"m","description":"d","request_topic":"r","stream_topic":"s","capabilities":[],"max_output_tokens":"9"}"#,
        r#""m""#,
        "null",
    ] {
        assert_eq!(provider_from_json(&parsed(json)), None, "{json}");
    }
}

#[test]
fn state_written_and_read_again() {
    for state in [
        RegistryState::default(),
        RegistryState {
            providers: vec![provider("a"), provider("b")],
            active_model_id: Some("b".to_string()),
        },
    ] {
        let json = parse_json(&save_state(&state)).unwrap();
        let providers: Vec<Option<ProviderEntry>> =
            json.get("providers").unwrap().as_array().unwrap().iter().map(provider_from_json).collect();
        assert_eq!(providers, state.providers.iter().cloned().map(Some).collect::<Vec<_>>());
        let active = json.get("active_model_id").unwrap();
        assert_eq!(active.as_str(), state.active_model_id.as_deref());
        assert_eq!(active.as_str().is_none(), *active == Json::Null);
        assert_eq!(save_state(&state), write_json(&state_to_json(&state)));
    }
}

#[test]
fn state_written_with_null() {
    assert_eq!(
        save_state(&RegistryState::default()),
        br#"{"active_model_id":null,"providers":[]}"#.to_vec()
    );
    assert_eq!(STATE_KEY, "registry_state");
}

#[test]
fn state_that_cannot_be_read_is_empty() {
    let state = RegistryState {
        providers: vec![provider("a")],
        active_model_id: Some("x".to_string()),
    };
    assert_eq!(load_state(Some(state.clone())), state);
    assert_eq!(load_state(None), RegistryState::default());
}

#[test]
fn find_takes_the_first() {
    let mut second = provider("a");
    second.description = "another".to_string();
    let providers = vec![provider("b"), provider("a"), second];
    assert_eq!(find_provider(&providers, &"a".to_string()), Some(&providers[1]));
    assert_eq!(find_provider(&providers, &"c".to_string()), None);
}

#[test]
fn describe_request_is_the_hook() {
    assert_eq!(
        describe_request(),
        br#"{"hook":"llm.v1.request.describe","payload":{}}"#.to_vec()
    );
    assert_eq!(parse_json(&describe_request()), Some(describe_to_json()));
}

fn answer(providers: &[&str]) -> String {
    let entries: Vec<String> = providers
        .iter()
        .map(|id| String::from_utf8(write_json(&provider_to_json(&provider(id)))).unwrap())
        .collect();
    format!(r#"{{"providers":[{}]}}"#, entries.join(","))
}

#[test]
fn discovery_joins_capsules_and_passes_over_the_malformed() {
    let bytes = format!(
        r#"[{}, 3, {{"providers":"none"}}, {{"tools":[]}}, {{"providers":[{{"id":"bad"}}, 4]}}, {}]"#,
        answer(&["a", "b"]),
        answer(&["c"])
    );
    let ids: Vec<String> = discover_providers(bytes.as_bytes()).into_iter().map(|p| p.id).collect();
    assert_eq!(ids, ["a", "b", "c"]);
}

#[test]
fn discovery_without_an_array_finds_nothing() {
    assert_eq!(discover_providers(b""), vec![]);
    assert_eq!(discover_providers(b"[]"), vec![]);
    assert_eq!(discover_providers(answer(&["a"]).as_bytes()), vec![]);
    assert_eq!(providers_in(&Json::Null), vec![]);
}
