//! Tests for the agent card and its nested records.

use a2a_wire::AgentCapabilities;
use a2a_wire::AgentCard;
use a2a_wire::AgentInterface;
use a2a_wire::AgentProvider;
use a2a_wire::AgentSkill;
use a2a_wire::JsonValue;
use a2a_wire::SecurityRequirement;
use a2a_wire::SecurityScheme;
use a2a_wire::SecuritySchemeMap;
use a2a_wire::StrMap;
use a2a_wire::TransportProtocol;

fn s(v: &str) -> JsonValue {
    JsonValue::Str(v.to_string())
}

fn sample_card() -> AgentCard {
    AgentCard::from_parts(
        "0.3.0".to_string(),
        "Recipe Agent".to_string(),
        "Helps with recipes.".to_string(),
        "https://api.example.com/a2a/v1".to_string(),
        Some(TransportProtocol::JsonRpc),
        Some(vec![AgentInterface {
            url: "https://grpc.example.com/a2a".to_string(),
            transport: TransportProtocol::Grpc,
        }]),
        None,
        Some(AgentProvider {
            organization: "Example".to_string(),
            url: "https://example.com".to_string(),
        }),
        "1.0.0".to_string(),
        None,
        AgentCapabilities {
            streaming: true,
            push_notifications: false,
            state_transition_history: None,
            extensions: None,
        },
        Some(SecuritySchemeMap {
            entries: vec![(
                "api-key".to_string(),
                SecurityScheme::ApiKey {
                    name: "X-Key".to_string(),
                    location: "header".to_string(),
                    description: None,
                    extensions: StrMap::new(),
                },
            )],
        }),
        Some(vec![SecurityRequirement {
            entries: vec![("api-key".to_string(), Vec::new())],
        }]),
        vec!["text/plain".to_string()],
        vec!["text/plain".to_string(), "application/json".to_string()],
        vec![AgentSkill {
            id: "recipes".to_string(),
            name: "Recipes".to_string(),
            description: "Finds recipes.".to_string(),
            tags: vec!["cooking".to_string()],
            examples: Some(vec!["I need a recipe for bread".to_string()]),
            input_modes: None,
            output_modes: None,
            security: None,
        }],
        Some(true),
        None,
    )
}

#[test]
fn card_round_trips() {
    let card = sample_card();
    let j = card.to_json();
    let back = AgentCard::from_json(&j).unwrap();
    assert_eq!(back, card);
}

#[test]
fn card_accessors_follow_the_fields() {
    let card = sample_card();
    assert_eq!(card.protocol_version(), "0.3.0");
    assert_eq!(card.name(), "Recipe Agent");
    assert_eq!(card.description(), "Helps with recipes.");
    assert_eq!(card.url(), "https://api.example.com/a2a/v1");
    assert_eq!(card.version(), "1.0.0");
    assert_eq!(card.preferred_transport(), Some(&TransportProtocol::JsonRpc));
    assert_eq!(card.icon_url(), None);
    assert_eq!(card.documentation_url(), None);
    assert_eq!(card.supports_authenticated_extended_card(), Some(true));
    assert_eq!(card.default_input_modes().len(), 1);
    assert_eq!(card.default_output_modes().len(), 2);
    assert_eq!(card.skills().len(), 1);
    assert!(card.provider().is_some());
    assert!(card.additional_interfaces().is_some());
    assert!(card.security_schemes().is_some());
    assert!(card.security().is_some());
    assert!(card.signatures().is_none());
    assert!(card.capabilities().streaming);
}

#[test]
fn empty_card_has_defaults() {
    let card = AgentCard::new();
    assert_eq!(card.protocol_version(), "");
    assert_eq!(card.preferred_transport(), None);
    assert!(card.skills().is_empty());
    let back = AgentCard::from_json(&card.to_json()).unwrap();
    assert_eq!(back, card);
}

#[test]
fn card_omits_absent_fields_and_keeps_required_ones() {
    let card = AgentCard::new();
    let j = card.to_json();
    assert!(j.get_field("iconUrl").is_none());
    assert!(j.get_field("preferredTransport").is_none());
    assert!(j.get_field("provider").is_none());
    assert!(j.get_field("securitySchemes").is_none());
    // Required fields appear even when empty.
    assert_eq!(j.get_field("name"), Some(&s("")));
    assert_eq!(j.get_field("defaultInputModes"), Some(&JsonValue::Arr(Vec::new())));
    assert_eq!(j.get_field("skills"), Some(&JsonValue::Arr(Vec::new())));
}

#[test]
fn card_transport_token_appears_on_the_wire() {
    let card = sample_card();
    let j = card.to_json();
    assert_eq!(j.get_field("preferredTransport"), Some(&s("JSONRPC")));
    let ifaces = match j.get_field("additionalInterfaces").unwrap() {
        JsonValue::Arr(items) => items,
        _ => panic!("expected an array"),
    };
    assert_eq!(ifaces[0].get_field("transport"), Some(&s("GRPC")));
}

#[test]
fn interface_round_trips() {
    let i = AgentInterface {
        url: "https://rest.example.com/v1".to_string(),
        transport: TransportProtocol::HttpJson,
    };
    assert_eq!(AgentInterface::from_json(&i.to_json()).unwrap(), i);
}

#[test]
fn skill_round_trips() {
    let skill = AgentSkill {
        id: "sk".to_string(),
        name: "Skill".to_string(),
        description: "d".to_string(),
        tags: Vec::new(),
        examples: None,
        input_modes: Some(vec!["text/plain".to_string()]),
        output_modes: None,
        security: Some(vec![SecurityRequirement {
            entries: vec![("google".to_string(), vec!["oidc".to_string()])],
        }]),
    };
    assert_eq!(AgentSkill::from_json(&skill.to_json()).unwrap(), skill);
}

#[test]
fn security_requirement_encodes_scopes() {
    let req = SecurityRequirement {
        entries: vec![
            ("mtls".to_string(), Vec::new()),
            ("oauth".to_string(), vec!["read".to_string()]),
        ],
    };
    let j = req.to_json();
    assert_eq!(
        j.get_field("oauth"),
        Some(&JsonValue::Arr(vec![s("read")])),
    );
    assert_eq!(j.get_field("mtls"), Some(&JsonValue::Arr(Vec::new())));
    assert_eq!(SecurityRequirement::from_json(&j).unwrap(), req);
}
