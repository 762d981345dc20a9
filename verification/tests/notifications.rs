//! Tests for push-notification configuration, OAuth flows, and the
//! streaming result union.

use a2a_wire::JsonValue;
use a2a_wire::Message;
use a2a_wire::OAuthFlow;
use a2a_wire::OAuthFlows;
use a2a_wire::PushNotificationAuthenticationInfo;
use a2a_wire::PushNotificationConfig;
use a2a_wire::SecurityScheme;
use a2a_wire::StrMap;
use a2a_wire::TaskPushNotificationConfig;
use a2a_wire::jsonrpc::JsonRpcMethods;
use a2a_wire::jsonrpc::MessageSendParams;
use a2a_wire::jsonrpc::SendStreamingMessageSuccessResponse;

fn s(v: &str) -> JsonValue {
    JsonValue::Str(v.to_string())
}

#[test]
fn push_config_round_trips() {
    let cfg = TaskPushNotificationConfig {
        task_id: "t-9".to_string(),
        push_notification_config: PushNotificationConfig {
            id: Some("cb-1".to_string()),
            url: "https://client.example.com/hook".to_string(),
            token: None,
            authentication: Some(PushNotificationAuthenticationInfo {
                schemes: vec!["Bearer".to_string()],
                credentials: None,
            }),
        },
    };
    let j = cfg.to_json();
    assert_eq!(j.get_field("taskId"), Some(&s("t-9")));
    let back = TaskPushNotificationConfig::from_json(&j).unwrap();
    assert_eq!(back, cfg);
}

#[test]
fn push_config_omits_absent_token() {
    let cfg = PushNotificationConfig {
        id: None,
        url: "https://client.example.com/hook".to_string(),
        token: None,
        authentication: None,
    };
    let j = cfg.to_json();
    assert!(j.get_field("id").is_none());
    assert!(j.get_field("token").is_none());
    assert!(j.get_field("authentication").is_none());
    assert_eq!(j.get_field("url"), Some(&s("https://client.example.com/hook")));
}

#[test]
fn oauth_flows_round_trip() {
    let mut scopes = StrMap::new();
    scopes.push("read", "Read access");
    let flows = OAuthFlows {
        implicit: None,
        password: None,
        client_credentials: Some(OAuthFlow {
            authorization_url: None,
            token_url: Some("https://auth.example.com/token".to_string()),
            refresh_url: None,
            scopes: Some(scopes),
        }),
        authorization_code: None,
        device_code: None,
    };
    let back = OAuthFlows::from_json(&flows.to_json()).unwrap();
    assert_eq!(back, flows);
    let scheme = SecurityScheme::OAuth2 {
        flows,
        oauth2_metadata_url: None,
        description: Some("OAuth".to_string()),
        extensions: StrMap::new(),
    };
    let back = SecurityScheme::from_json(&scheme.to_json()).unwrap();
    assert_eq!(back, scheme);
}

#[test]
fn streaming_result_dispatches_on_kind() {
    let mut msg = Message::new();
    msg.message_id = "m-7".to_string();
    let v = SendStreamingMessageSuccessResponse::Message(msg);
    let j = v.to_json();
    assert_eq!(j.get_field("kind"), Some(&s("message")));
    let back = SendStreamingMessageSuccessResponse::from_json(&j).unwrap();
    assert_eq!(back, v);
}

#[test]
fn send_params_round_trip() {
    let p = MessageSendParams {
        message: Message::new(),
        configuration: None,
        metadata: None,
    };
    let j = p.to_json();
    assert!(j.get_field("configuration").is_none());
    let back = MessageSendParams::from_json(&j).unwrap();
    assert_eq!(back, p);
}

#[test]
fn method_names_match_the_protocol() {
    assert_eq!(JsonRpcMethods::MessageSend.as_str(), "message/send");
    assert_eq!(JsonRpcMethods::TasksList.as_str(), "tasks/list");
    assert_eq!(
        JsonRpcMethods::TasksPushNotificationConfigDelete.as_str(),
        "tasks/pushNotificationConfig/delete"
    );
    assert_eq!(
        JsonRpcMethods::AgentGetAuthenticatedExtendedCard.as_str(),
        "agent/getAuthenticatedExtendedCard"
    );
}

#[test]
fn json_value_lookup_takes_the_last_occurrence() {
    let j = JsonValue::Obj(vec![
        ("a".to_string(), JsonValue::Int(1)),
        ("a".to_string(), JsonValue::Int(2)),
    ]);
    assert_eq!(j.get_field("a"), Some(&JsonValue::Int(2)));
    assert!(j.get_field("b").is_none());
}

#[test]
fn json_deep_clone_preserves_structure() {
    let j = JsonValue::Obj(vec![
        ("xs".to_string(), JsonValue::Arr(vec![JsonValue::Bool(true), JsonValue::Null])),
        ("n".to_string(), JsonValue::Int(-3)),
    ]);
    assert_eq!(j.deep_clone(), j);
}

#[test]
fn str_map_insert_keeps_ascending_order_and_replaces() {
    let mut m = StrMap::new();
    m.insert("c", "3");
    m.insert("a", "1");
    m.insert("b", "2");
    assert_eq!(
        m.entries,
        vec![
            ("a".to_string(), "1".to_string()),
            ("b".to_string(), "2".to_string()),
            ("c".to_string(), "3".to_string()),
        ]
    );
    m.insert("b", "9");
    assert_eq!(m.entries[1], ("b".to_string(), "9".to_string()));
    assert_eq!(m.len(), 3);
}

#[test]
fn metadata_decodes_into_canonical_order_with_last_value_winning() {
    let j = JsonValue::Obj(vec![
        (
            "metadata".to_string(),
            JsonValue::Obj(vec![
                ("z".to_string(), s("1")),
                ("a".to_string(), s("2")),
                ("z".to_string(), s("3")),
            ]),
        ),
        ("state".to_string(), s("working")),
    ]);
    // TaskStatus has no metadata; use a status-update event, which does.
    let e = JsonValue::Obj(vec![
        ("contextId".to_string(), s("c")),
        ("final".to_string(), JsonValue::Bool(false)),
        ("kind".to_string(), s("status-update")),
        ("metadata".to_string(), j.get_field("metadata").unwrap().deep_clone()),
        ("status".to_string(), JsonValue::Obj(vec![("state".to_string(), s("working"))])),
        ("taskId".to_string(), s("t")),
    ]);
    let back = a2a_wire::jsonrpc::TaskStatusUpdateEvent::from_json(&e).unwrap();
    let meta = back.metadata.unwrap();
    assert_eq!(
        meta.entries,
        vec![("a".to_string(), "2".to_string()), ("z".to_string(), "3".to_string())]
    );
}

#[test]
fn scheme_map_decodes_into_canonical_name_order() {
    let mk = |name: &str| {
        JsonValue::Obj(vec![
            ("scheme".to_string(), s(name)),
            ("type".to_string(), s("http")),
        ])
    };
    let j = JsonValue::Obj(vec![
        ("b-key".to_string(), mk("bearer")),
        ("a-key".to_string(), mk("basic")),
    ]);
    let m = a2a_wire::SecuritySchemeMap::from_json(&j).unwrap();
    assert_eq!(m.entries[0].0, "a-key");
    assert_eq!(m.entries[1].0, "b-key");
}

#[test]
fn requirement_decodes_with_last_duplicate_winning() {
    let j = JsonValue::Obj(vec![
        ("oauth".to_string(), JsonValue::Arr(vec![s("read")])),
        ("oauth".to_string(), JsonValue::Arr(vec![s("write")])),
    ]);
    let r = a2a_wire::SecurityRequirement::from_json(&j).unwrap();
    assert_eq!(r.entries, vec![("oauth".to_string(), vec!["write".to_string()])]);
}
