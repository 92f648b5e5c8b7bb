use astrid_capsule_registry::envelope::{
    dropped_in, dropped_messages, handle_command_envelope, handle_poll_envelope,
    handle_selection_envelope, handle_set_active_model, has_kernel_message, is_from_kernel,
    read_envelope, read_message, read_words, Channel, Request, KERNEL_UUID,
};
use astrid_capsule_registry::json::{parse_json, Json};
use astrid_capsule_registry::notice::{make_request_id, Notice};
use astrid_capsule_registry::provider::ProviderEntry;
use astrid_capsule_registry::text::{decimal_text, is_white_space, split_words};

fn parsed(s: &str) -> Json {
    parse_json(s.as_bytes()).unwrap()
}

fn switch(id: &str) -> Request {
    Request::SwitchModel(id.to_string())
}

fn provider(id: &str) -> ProviderEntry {
    ProviderEntry {
        id: id.to_string(),
        description: format!("the model {id}"),
        request_topic: "r".to_string(),
        stream_topic: "s".to_string(),
        capabilities: vec![],
        context_window: None,
        max_output_tokens: None,
    }
}

#[test]
fn white_space_is_the_unicode_property() {
    for c in '\u{0}'..=char::MAX {
        assert_eq!(is_white_space(c), c.is_whitespace(), "{c:?}");
    }
}

#[test]
fn words_are_split_at_white_space() {
    for text in ["", "  ", "/models", " /models\tgpt-5.4 \u{3000} x\n", "a\u{a0}b", "\u{e9}\u{1f600} z"] {
        let expected: Vec<&str> = text.split_whitespace().collect();
        assert_eq!(split_words(text), expected);
    }
}

#[test]
fn decimal_digits() {
    for n in [0, 7, 10, 1234567890, u64::MAX as u128, u128::MAX] {
        assert_eq!(decimal_text(n), n.to_string());
    }
}

#[test]
fn request_ids_differ() {
    assert_eq!(make_request_id(1700000000123, 4), "models-1700000000123-4");
    assert_ne!(make_request_id(1, 12), make_request_id(11, 2));
    assert_ne!(make_request_id(1, 1), make_request_id(1, 2));
    assert_ne!(make_request_id(1, 1), make_request_id(2, 1));
}

#[test]
fn poll_envelope_is_dispatched_in_order() {
    let requests = handle_poll_envelope(
        br#"{"dropped":0,"messages":[
            {"topic":"registry.v1.set_active_model","payload":{"type":"custom","data":{"model_id":"m"}}},
            {"topic":"registry.v1.get_providers"},
            {"no":"topic"},
            {"topic":7},
            {"topic":"registry.v1.get_active_model","payload":null},
            {"topic":"registry.v1.set_active_model"},
            {"topic":"registry.v1.set_active_model","payload":{}},
            {"topic":"registry.v1.unknown"}
        ]}"#,
    );
    assert_eq!(
        requests,
        vec![switch("m"), Request::ListProviders, Request::ActiveModel, Request::UnnamedSwitch]
    );
}

#[test]
fn envelopes_without_messages_ask_for_nothing() {
    for bytes in [&b""[..], &b"{}"[..], &b"[]"[..], &b"{\"messages\":{}}"[..], &b"{\"messages\":[]}"[..]] {
        assert_eq!(handle_poll_envelope(bytes), vec![]);
        assert_eq!(handle_command_envelope(bytes), vec![]);
        assert_eq!(handle_selection_envelope(bytes), vec![]);
        assert!(!is_from_kernel(bytes));
    }
}

#[test]
fn model_id_in_data_comes_first() {
    assert_eq!(
        handle_set_active_model(&parsed(r#"{"data":{"model_id":"a"},"model_id":"b"}"#)),
        switch("a")
    );
    assert_eq!(handle_set_active_model(&parsed(r#"{"model_id":"b"}"#)), switch("b"));
    assert_eq!(
        handle_set_active_model(&parsed(r#"{"data":{"model_id":5},"model_id":"b"}"#)),
        switch("b")
    );
    assert_eq!(
        handle_set_active_model(&parsed(r#"{"data":{"model_id":5}}"#)),
        Request::UnnamedSwitch
    );
    assert_eq!(handle_set_active_model(&parsed("3")), Request::UnnamedSwitch);
}

#[test]
fn own_notices_ask_for_nothing() {
    let notices = vec![
        Notice::Providers(vec![]),
        Notice::ActiveModel(None),
        Notice::ModelChanged(provider("m")),
        Notice::ModelSet(provider("m")),
        Notice::MissingModelId,
        Notice::UnknownModel("m".to_string()),
        Notice::Selection { request_id: "i".to_string(), providers: vec![] },
    ];
    for notice in notices {
        let message = Json::Object(vec![
            ("topic".to_string(), Json::Text(notice.topic().to_string())),
            ("payload".to_string(), notice.payload()),
        ]);
        assert_eq!(read_message(Channel::Requests, &message), None);
    }
}

#[test]
fn models_commands() {
    let requests = handle_command_envelope(
        "{\"messages\":[
            {\"payload\":{\"type\":\"user_input\",\"text\":\"/models\"}},
            {\"payload\":{\"text\":\"  /models\\t gpt-5.4 now \"}},
            {\"payload\":{\"text\":\" /models \"}},
            {\"payload\":{\"text\":\"/modelsx\"}},
            {\"payload\":{\"text\":\"say /models\"}},
            {\"payload\":{\"text\":\"\"}},
            {\"payload\":{\"text\":1}},
            {\"payload\":{}},
            {\"text\":\"/models\"}
        ]}"
        .as_bytes(),
    );
    assert_eq!(requests, vec![Request::PickModel, switch("gpt-5.4"), Request::PickModel]);
    assert_eq!(read_words(&vec![]), None);
    assert_eq!(read_words(&vec!["/models".to_string()]), Some(Request::PickModel));
}

#[test]
fn selection_callbacks() {
    let requests = handle_selection_envelope(
        br#"{"messages":[
            {"payload":{"data":{"request_id":"r","selected_id":"a"}}},
            {"payload":{"selected_id":"b"}},
            {"payload":{"data":{"selected_id":null}}},
            {"payload":"c"},
            {"selected_id":"d"}
        ]}"#,
    );
    assert_eq!(requests, vec![switch("a"), switch("b")]);
}

#[test]
fn reload_signals_carry_no_request() {
    let envelope = parsed(r#"{"messages":[{"topic":"registry.v1.get_providers"}]}"#);
    assert_eq!(read_envelope(Channel::Reloads, &envelope), vec![]);
    assert_eq!(read_envelope(Channel::Requests, &envelope), vec![Request::ListProviders]);
}

#[test]
fn kernel_messages_are_told_by_their_source() {
    let envelope = |sources: &str| format!(r#"{{"messages":[{sources}]}}"#);
    let kernel = format!(r#"{{"source_id":"{KERNEL_UUID}"}}"#);
    let other = r#"{"source_id":"00000000-0000-0000-0000-000000000001"}"#;
    assert_eq!(KERNEL_UUID, "00000000-0000-0000-0000-000000000000");
    assert!(is_from_kernel(envelope(&kernel).as_bytes()));
    assert!(is_from_kernel(envelope(&format!("{other},{kernel}")).as_bytes()));
    assert!(!is_from_kernel(envelope(other).as_bytes()));
    assert!(!is_from_kernel(envelope(r#"{"source_id":0},{}"#).as_bytes()));
    assert!(!is_from_kernel(kernel.as_bytes()));
    assert!(has_kernel_message(&parsed(&envelope(&kernel))));
}

#[test]
fn dropped_messages_are_counted() {
    assert_eq!(dropped_messages(br#"{"dropped":3,"messages":[]}"#), 3);
    assert_eq!(dropped_messages(br#"{"dropped":"3"}"#), 0);
    assert_eq!(dropped_messages(br#"{"dropped":-3}"#), 0);
    assert_eq!(dropped_messages(b""), 0);
    assert_eq!(dropped_in(&Json::Null), 0);
}

fn published(notice: &Notice) -> (String, String) {
    (notice.topic().to_string(), String::from_utf8(notice.text()).unwrap())
}

#[test]
fn notices_as_published() {
    let m = r#"{"capabilities":[],"description":"the model m","id":"m","request_topic":"r","stream_topic":"s"}"#;
    let pair = |topic: &str, text: String| (topic.to_string(), text);
    assert_eq!(
        published(&Notice::Providers(vec![provider("m")])),
        pair("registry.v1.response.get_providers", format!("[{m}]"))
    );
    assert_eq!(
        published(&Notice::ActiveModel(Some(provider("m")))),
        pair("registry.v1.response.get_active_model", m.to_string())
    );
    assert_eq!(
        published(&Notice::ActiveModel(None)),
        pair("registry.v1.response.get_active_model", "null".to_string())
    );
    assert_eq!(
        published(&Notice::ModelChanged(provider("m"))),
        pair("registry.v1.active_model_changed", m.to_string())
    );
    assert_eq!(
        published(&Notice::ModelSet(provider("m"))),
        pair(
            "registry.v1.response.set_active_model",
            format!(r#"{{"active_model":{m},"status":"ok"}}"#)
        )
    );
    assert_eq!(
        published(&Notice::MissingModelId),
        pair(
            "registry.v1.response.set_active_model",
            r#"{"error":"missing model_id"}"#.to_string()
        )
    );
    assert_eq!(
        published(&Notice::UnknownModel("x\"y".to_string())),
        pair(
            "registry.v1.response.set_active_model",
            r#"{"error":"unknown model: x\"y"}"#.to_string()
        )
    );
    let options = r#"[{"description":"the model m","id":"m","label":"m"}]"#;
    assert_eq!(
        published(&Notice::Selection {
            request_id: "models-5-0".to_string(),
            providers: vec![provider("m")],
        }),
        pair(
            "registry.v1.response.models",
            [
                r#"{"callback_topic":"registry.v1.selection.callback","options":"#,
                options,
                r#","request_id":"models-5-0","title":"Select LLM Model","type":"selection_required"}"#,
            ]
            .concat()
        )
    );
}
