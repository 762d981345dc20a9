//! Wire-level object model for an agent-to-agent JSON-RPC protocol.
//!
//! The crate defines the protocol's record shapes (agent cards, tasks,
//! messages, push-notification configuration, JSON-RPC envelopes) together
//! with their JSON encoding: tagged and untagged discriminated unions, the
//! optional-field omission rule, lenient enum token decoding and the closed
//! error-code registry.  Encoding and decoding are written against a small
//! JSON document model and proved to round-trip.

mod agent_card;
mod codec;
mod errors;
mod json;
pub mod jsonrpc;
mod protocol_data;
mod util_types;

pub use agent_card::AgentCard;
pub use agent_card::AgentCardSignature;
pub use agent_card::AgentCapabilities;
pub use agent_card::AgentExtension;
pub use agent_card::AgentInterface;
pub use agent_card::AgentProvider;
pub use agent_card::AgentSkill;
pub use agent_card::OAuthFlow;
pub use agent_card::OAuthFlows;
pub use agent_card::SecurityRequirement;
pub use agent_card::SecurityScheme;
pub use agent_card::SecuritySchemeMap;
pub use agent_card::SpecAgentCard;
pub use agent_card::SpecAgentCapabilities;
pub use agent_card::SpecAgentCardSignature;
pub use agent_card::SpecAgentExtension;
pub use agent_card::SpecAgentInterface;
pub use agent_card::SpecAgentProvider;
pub use agent_card::SpecAgentSkill;
pub use agent_card::SpecOAuthFlow;
pub use agent_card::SpecOAuthFlows;
pub use agent_card::SpecSecurityScheme;
pub use agent_card::TransportProtocol;
pub use agent_card::card_wf;
pub use agent_card::lemma_card_icon_url_omission;
pub use agent_card::lemma_card_round_trip;
pub use agent_card::lemma_interface_round_trip;
pub use agent_card::lemma_oauth_flow_round_trip;
pub use agent_card::lemma_oauth_flows_round_trip;
pub use agent_card::lemma_security_scheme_round_trip;
pub use agent_card::lemma_signature_round_trip;
pub use agent_card::lemma_skill_round_trip;
pub use agent_card::security_scheme_wf;
pub use agent_card::spec_decode_card;
pub use agent_card::spec_decode_security_scheme;
pub use agent_card::spec_encode_card;
pub use agent_card::spec_encode_security_scheme;
pub use agent_card::lemma_transport_round_trip;
pub use agent_card::spec_transport_from_token;
pub use agent_card::transport_token;
pub use codec::DecodeError;
pub use codec::DecodeErrorKind;
pub use codec::SpecDecodeError;
pub use errors::JsonRpcError;
pub use errors::lemma_description_nonempty;
pub use errors::lemma_error_code_bijection;
pub use errors::lemma_error_code_injective;
pub use errors::spec_description;
pub use errors::spec_error_code;
pub use errors::spec_kind_of;
pub use json::JsonValue;
pub use json::SpecJson;
pub use protocol_data::Artifact;
pub use protocol_data::DataPart;
pub use protocol_data::FileBase;
pub use protocol_data::FilePart;
pub use protocol_data::FileWith;
pub use protocol_data::FileWithBytes;
pub use protocol_data::FileWithUri;
pub use protocol_data::Message;
pub use protocol_data::MessageRole;
pub use protocol_data::Part;
pub use protocol_data::PartBase;
pub use protocol_data::PushNotificationAuthenticationInfo;
pub use protocol_data::PushNotificationConfig;
pub use protocol_data::SpecArtifact;
pub use protocol_data::SpecDataPart;
pub use protocol_data::SpecFileBase;
pub use protocol_data::SpecFilePart;
pub use protocol_data::SpecFileWith;
pub use protocol_data::SpecFileWithBytes;
pub use protocol_data::SpecFileWithUri;
pub use protocol_data::SpecMessage;
pub use protocol_data::SpecPart;
pub use protocol_data::SpecPartBase;
pub use protocol_data::SpecPushNotificationAuthenticationInfo;
pub use protocol_data::SpecPushNotificationConfig;
pub use protocol_data::SpecTask;
pub use protocol_data::SpecTaskPushNotificationConfig;
pub use protocol_data::SpecTaskStatus;
pub use protocol_data::SpecTextPart;
pub use protocol_data::Task;
pub use protocol_data::TaskPushNotificationConfig;
pub use protocol_data::TaskState;
pub use protocol_data::TaskStatus;
pub use protocol_data::TextPart;
pub use protocol_data::lemma_artifact_round_trip;
pub use protocol_data::lemma_file_with_bytes_round_trip;
pub use protocol_data::lemma_file_with_round_trip;
pub use protocol_data::lemma_file_with_uri_round_trip;
pub use protocol_data::lemma_message_metadata_omission;
pub use protocol_data::lemma_message_round_trip;
pub use protocol_data::lemma_part_round_trip;
pub use protocol_data::lemma_push_auth_round_trip;
pub use protocol_data::lemma_push_config_round_trip;
pub use protocol_data::lemma_role_round_trip;
pub use protocol_data::lemma_task_push_config_round_trip;
pub use protocol_data::lemma_task_round_trip;
pub use protocol_data::lemma_task_status_round_trip;
pub use protocol_data::spec_decode_file_with;
pub use protocol_data::spec_decode_message;
pub use protocol_data::spec_decode_part;
pub use protocol_data::spec_decode_task;
pub use protocol_data::spec_encode_file_with;
pub use protocol_data::spec_encode_message;
pub use protocol_data::spec_encode_part;
pub use protocol_data::spec_encode_task;
pub use protocol_data::lemma_task_state_round_trip;
pub use protocol_data::spec_task_state_from_token;
pub use protocol_data::task_state_token;
pub use agent_card::schemes_wf;
pub use agent_card::secreq_wf;
pub use agent_card::secreqs_wf;
pub use agent_card::signature_wf;
pub use agent_card::skill_wf;
pub use codec::lemma_parse_str_map_canonical;
pub use codec::lemma_strmap_entries_sorted;
pub use codec::opt_strmap_wf;
pub use protocol_data::artifact_wf;
pub use protocol_data::message_wf;
pub use protocol_data::part_wf;
pub use protocol_data::task_status_wf;
pub use protocol_data::task_wf;
pub use protocol_data::tasks_wf;
pub use util_types::StrMap;
pub use util_types::keys_ascending;
pub use util_types::lemma_lex_lt_asym;
pub use util_types::lemma_lex_lt_total;
pub use util_types::lemma_lex_lt_trans;
pub use util_types::lemma_keys_ascending_pairwise;
pub use util_types::lemma_map_insert_append;
pub use util_types::lemma_map_insert_ascending;
pub use util_types::lemma_map_insert_at;
pub use util_types::lex_lt;
pub use util_types::map_insert;
pub use util_types::str_lt;
pub use util_types::strmap_wf;
