mod artifact;
mod push_notification;
mod message;
mod task_state;
mod task_status;
mod tasks;

pub use task_state::TaskState;
pub use task_state::lemma_task_state_round_trip;
pub use task_state::spec_task_state_from_token;
pub use task_state::task_state_token;

pub use message::FileBase;
pub use message::FileWith;
pub use message::FileWithBytes;
pub use message::FileWithUri;
pub use message::SpecFileBase;
pub use message::SpecFileWith;
pub use message::SpecFileWithBytes;
pub use message::SpecFileWithUri;
pub use message::file_with_bytes_entries;
pub use message::file_with_uri_entries;
pub use message::lemma_file_with_bytes_round_trip;
pub use message::lemma_file_with_round_trip;
pub use message::lemma_file_with_uri_round_trip;
pub use message::spec_decode_file_with;
pub use message::spec_decode_file_with_bytes;
pub use message::spec_decode_file_with_uri;
pub use message::spec_encode_file_with;
pub use message::spec_encode_file_with_bytes;
pub use message::spec_encode_file_with_uri;

pub use message::DataPart;
pub use message::FilePart;
pub use message::Message;
pub use message::MessageRole;
pub use message::Part;
pub use message::PartBase;
pub use message::SpecDataPart;
pub use message::SpecFilePart;
pub use message::SpecMessage;
pub use message::SpecPart;
pub use message::SpecPartBase;
pub use message::SpecTextPart;
pub use message::TextPart;
pub use message::data_part_entries;
pub use message::encode_parts;
pub use message::file_part_entries;
pub use message::lemma_message_round_trip;
pub use message::lemma_part_round_trip;
pub use message::lemma_parts_arr_round_trip;
pub use message::lemma_role_round_trip;
pub use message::message_entries;
pub use message::parse_parts;
pub use message::parts_arr;
pub use message::role_token;
pub use message::spec_decode_message;
pub use message::spec_decode_part;
pub use message::spec_encode_message;
pub use message::spec_encode_part;
pub use message::spec_parse_parts;
pub use message::spec_role_from_token;
pub use message::text_part_entries;
pub use task_status::SpecTaskStatus;
pub use task_status::TaskStatus;
pub use task_status::lemma_task_status_round_trip;
pub use task_status::spec_decode_task_status;
pub use task_status::spec_encode_task_status;
pub use task_status::task_status_entries;

pub use artifact::Artifact;
pub use artifact::SpecArtifact;
pub use artifact::artifact_entries;
pub use artifact::artifacts_arr;
pub use artifact::encode_artifacts;
pub use artifact::lemma_artifact_round_trip;
pub use artifact::lemma_artifacts_arr_round_trip;
pub use artifact::parse_artifacts;
pub use artifact::spec_decode_artifact;
pub use artifact::spec_encode_artifact;
pub use artifact::spec_parse_artifacts;
pub use tasks::SpecTask;
pub use tasks::Task;
pub use tasks::encode_messages;
pub use tasks::lemma_messages_arr_round_trip;
pub use tasks::lemma_task_round_trip;
pub use tasks::messages_arr;
pub use tasks::parse_messages;
pub use tasks::spec_decode_task;
pub use tasks::spec_encode_task;
pub use tasks::spec_parse_messages;
pub use tasks::task_entries;

pub use push_notification::PushNotificationAuthenticationInfo;
pub use push_notification::PushNotificationConfig;
pub use push_notification::SpecPushNotificationAuthenticationInfo;
pub use push_notification::SpecPushNotificationConfig;
pub use push_notification::SpecTaskPushNotificationConfig;
pub use push_notification::TaskPushNotificationConfig;
pub use push_notification::lemma_push_auth_round_trip;
pub use push_notification::lemma_push_config_round_trip;
pub use push_notification::lemma_task_push_config_round_trip;
pub use push_notification::push_auth_entries;
pub use push_notification::push_config_entries;
pub use push_notification::spec_decode_push_auth;
pub use push_notification::spec_decode_push_config;
pub use push_notification::spec_decode_task_push_config;
pub use push_notification::spec_encode_push_auth;
pub use push_notification::spec_encode_push_config;
pub use push_notification::spec_encode_task_push_config;
pub use push_notification::task_push_config_entries;

pub use tasks::encode_tasks;
pub use tasks::lemma_tasks_arr_round_trip;
pub use tasks::parse_tasks;
pub use tasks::spec_parse_tasks;
pub use tasks::tasks_arr;
pub use message::lemma_message_metadata_omission;
pub use artifact::artifact_wf;
pub use artifact::artifacts_wf;
pub use message::message_wf;
pub use message::part_wf;
pub use message::parts_wf;
pub use task_status::task_status_wf;
pub use tasks::messages_wf;
pub use tasks::task_wf;
pub use tasks::tasks_wf;
