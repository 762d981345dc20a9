mod card;
mod interface;
mod security_scheme;
mod signature;
mod skill;
mod transport;

pub use transport::TransportProtocol;
pub use transport::lemma_transport_round_trip;
pub use transport::spec_transport_from_token;
pub use transport::transport_token;

pub use security_scheme::SecurityRequirement;
pub use security_scheme::encode_secreqs;
pub use security_scheme::lemma_parse_secreq_rt;
pub use security_scheme::lemma_parse_secreqs_rt;
pub use security_scheme::parse_secreqs;
pub use security_scheme::secreq_entries;
pub use security_scheme::secreqs_arr;
pub use security_scheme::spec_encode_secreq;
pub use security_scheme::spec_parse_secreq;
pub use security_scheme::spec_parse_secreqs;

pub use interface::AgentInterface;
pub use interface::SpecAgentInterface;
pub use interface::interface_entries;
pub use interface::lemma_interface_round_trip;
pub use interface::spec_decode_interface;
pub use interface::spec_encode_interface;
pub use security_scheme::OAuthFlow;
pub use security_scheme::OAuthFlows;
pub use security_scheme::SecurityScheme;
pub use security_scheme::SpecOAuthFlow;
pub use security_scheme::SpecOAuthFlows;
pub use security_scheme::SpecSecurityScheme;
pub use security_scheme::ext_wf;
pub use security_scheme::lemma_oauth_flow_round_trip;
pub use security_scheme::lemma_oauth_flows_round_trip;
pub use security_scheme::lemma_security_scheme_round_trip;
pub use security_scheme::security_scheme_entries;
pub use security_scheme::security_scheme_wf;
pub use security_scheme::spec_collect_ext;
pub use security_scheme::spec_decode_oauth_flow;
pub use security_scheme::spec_decode_oauth_flows;
pub use security_scheme::spec_decode_security_scheme;
pub use security_scheme::spec_encode_oauth_flow;
pub use security_scheme::spec_encode_oauth_flows;
pub use security_scheme::spec_encode_security_scheme;
pub use signature::AgentCardSignature;
pub use signature::SpecAgentCardSignature;
pub use signature::lemma_signature_round_trip;
pub use signature::signature_entries;
pub use signature::spec_decode_signature;
pub use signature::spec_encode_signature;
pub use skill::AgentSkill;
pub use skill::SpecAgentSkill;
pub use skill::lemma_skill_round_trip;
pub use skill::skill_entries;
pub use skill::spec_decode_skill;
pub use skill::spec_encode_skill;

pub use card::AgentCapabilities;
pub use card::AgentExtension;
pub use card::AgentProvider;
pub use card::SpecAgentCapabilities;
pub use card::SpecAgentExtension;
pub use card::SpecAgentProvider;
pub use card::agent_extension_entries;
pub use card::capabilities_entries;
pub use card::lemma_agent_extension_round_trip;
pub use card::lemma_capabilities_round_trip;
pub use card::lemma_provider_round_trip;
pub use card::provider_entries;
pub use card::spec_decode_agent_extension;
pub use card::spec_decode_capabilities;
pub use card::spec_decode_provider;
pub use card::spec_encode_agent_extension;
pub use card::spec_encode_capabilities;
pub use card::spec_encode_provider;

pub use card::AgentCard;
pub use card::SecuritySchemeMap;
pub use card::SpecAgentCard;
pub use card::card_entries;
pub use card::card_wf;
pub use card::encode_agent_extensions;
pub use card::encode_interfaces;
pub use card::encode_signatures;
pub use card::encode_skills;
pub use card::interfaces_arr;
pub use card::lemma_agent_extensions_arr_round_trip;
pub use card::lemma_card_icon_url_omission;
pub use card::lemma_card_round_trip;
pub use card::lemma_interfaces_arr_round_trip;
pub use card::lemma_parse_schemes_round_trip;
pub use card::lemma_signatures_arr_round_trip;
pub use card::lemma_skills_arr_round_trip;
pub use card::parse_agent_extensions;
pub use card::parse_interfaces;
pub use card::parse_signatures;
pub use card::parse_skills;
pub use card::schemes_entries;
pub use card::signatures_arr;
pub use card::skills_arr;
pub use card::spec_decode_card;
pub use card::spec_empty_card;
pub use card::spec_encode_card;
pub use card::spec_parse_agent_extensions;
pub use card::spec_parse_interfaces;
pub use card::spec_parse_schemes;
pub use card::spec_parse_signatures;
pub use card::spec_parse_skills;
pub use card::lemma_schemes_entries_sorted;
pub use card::agent_extension_wf;
pub use card::agent_extensions_wf;
pub use card::capabilities_wf;
pub use card::schemes_wf;
pub use card::signatures_wf;
pub use card::skills_wf;
pub use security_scheme::lemma_secreq_entries_sorted;
pub use security_scheme::oauth_flow_wf;
pub use security_scheme::oauth_flows_wf;
pub use security_scheme::secreq_wf;
pub use security_scheme::secreqs_wf;
pub use signature::signature_wf;
pub use skill::skill_wf;
pub use card::lemma_parse_schemes_canonical;
pub use security_scheme::lemma_parse_secreq_canonical;
