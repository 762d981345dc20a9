//! Push-notification configuration: the association of a task with a
//! callback URL and how to authenticate to it.

use vstd::prelude::*;

use crate::codec::DecodeError;
use crate::codec::DecodeErrorKind;
use crate::codec::ObjBuilder;
use crate::codec::SpecDecodeError;
use crate::codec::get_entry;
use crate::codec::get_str_arr_req;
use crate::codec::get_str_opt;
use crate::codec::get_str_req;
use crate::codec::mk_err;
use crate::codec::opt_str_entry;
use crate::codec::res_deep_view;
use crate::codec::spec_err;
use crate::codec::spec_get;
use crate::codec::spec_opt_str;
use crate::codec::spec_req_str;
use crate::codec::spec_req_str_arr;
use crate::codec::str_arr;
use crate::codec::str_arr_entry;
use crate::codec::str_entry;
use crate::codec::val_entry;
use crate::json::JsonValue;
use crate::json::SpecJson;

verus! {

broadcast use {vstd::std_specs::vec::group_vec_axioms, crate::json::group_json_view_lemmas};

/// How the server should authenticate when calling a push-notification
/// endpoint.
#[derive(Debug, Clone, PartialEq, Eq)]
pub struct PushNotificationAuthenticationInfo {
    /// Supported authentication schemes, e.g. `Basic` or `Bearer`.
    pub schemes: Vec<String>,
    /// Optional credentials required by the endpoint.
    pub credentials: Option<String>,
}

/// Mathematical model of a [`PushNotificationAuthenticationInfo`].
#[verifier::ext_equal]
pub struct SpecPushNotificationAuthenticationInfo {
    pub schemes: Seq<Seq<char>>,
    pub credentials: Option<Seq<char>>,
}

impl View for PushNotificationAuthenticationInfo {
    type V = SpecPushNotificationAuthenticationInfo;

    open spec fn view(&self) -> SpecPushNotificationAuthenticationInfo {
        SpecPushNotificationAuthenticationInfo {
            schemes: self.schemes.deep_view(),
            credentials: self.credentials.deep_view(),
        }
    }
}

impl DeepView for PushNotificationAuthenticationInfo {
    type V = SpecPushNotificationAuthenticationInfo;

    open spec fn deep_view(&self) -> SpecPushNotificationAuthenticationInfo {
        self.view()
    }
}

/// The encoded entries of a [`PushNotificationAuthenticationInfo`], in
/// ascending key order.
pub open spec fn push_auth_entries(v: SpecPushNotificationAuthenticationInfo) -> Seq<
    (Seq<char>, SpecJson),
> {
    opt_str_entry("credentials"@, v.credentials) + str_arr_entry("schemes"@, v.schemes)
}

pub open spec fn spec_encode_push_auth(v: SpecPushNotificationAuthenticationInfo) -> SpecJson {
    SpecJson::Obj(push_auth_entries(v))
}

pub open spec fn spec_decode_push_auth(j: SpecJson) -> Result<
    SpecPushNotificationAuthenticationInfo,
    SpecDecodeError,
> {
    match j {
        SpecJson::Obj(es) => match spec_req_str_arr(es, "schemes"@) {
            Err(e) => Err(e),
            Ok(schemes) => match spec_opt_str(es, "credentials"@) {
                Err(e) => Err(e),
                Ok(credentials) => Ok(
                    SpecPushNotificationAuthenticationInfo { schemes, credentials },
                ),
            },
        },
        _ => Err(spec_err(DecodeErrorKind::ExpectedObject, "authentication"@)),
    }
}

impl PushNotificationAuthenticationInfo {
    /// Encodes this record as a JSON object.
    pub fn to_json(&self) -> (r: JsonValue)
        ensures
            r@ == spec_encode_push_auth(self@),
    {
        let mut b = ObjBuilder::new();
        b.push_opt_str("credentials", &self.credentials);
        b.push_str_arr("schemes", &self.schemes);
        proof {
            assert(b@ =~= push_auth_entries(self@));
        }
        b.finish()
    }

    /// Decodes a JSON object into this record.
    pub fn from_json(j: &JsonValue) -> (r: Result<
        PushNotificationAuthenticationInfo,
        DecodeError,
    >)
        ensures
            res_deep_view(r) == spec_decode_push_auth(j@),
    {
        let es = match j {
            JsonValue::Obj(es) => es,
            _ => { return Err(mk_err(DecodeErrorKind::ExpectedObject, "authentication")) },
        };
        let schemes = match get_str_arr_req(es, "schemes") {
            Ok(v) => v,
            Err(e) => { return Err(e) },
        };
        let credentials = match get_str_opt(es, "credentials") {
            Ok(v) => v,
            Err(e) => { return Err(e) },
        };
        Ok(PushNotificationAuthenticationInfo { schemes, credentials })
    }
}

/// Decoding an encoded authentication record yields it back.
pub proof fn lemma_push_auth_round_trip(v: SpecPushNotificationAuthenticationInfo)
    ensures
        spec_decode_push_auth(spec_encode_push_auth(v)) == Ok::<
            SpecPushNotificationAuthenticationInfo,
            SpecDecodeError,
        >(v),
{
    broadcast use
        crate::codec::lemma_spec_get_concat,
        crate::codec::lemma_parse_str_arr_rt;

    reveal_with_fuel(spec_get, 3);
    reveal_strlit("credentials");
    reveal_strlit("schemes");
    assert("credentials"@.len() == 11);
    assert("schemes"@.len() == 7);
    let es = push_auth_entries(v);
    assert(spec_get(es, "schemes"@) == Some(SpecJson::Arr(str_arr(v.schemes))));
    assert(spec_get(es, "credentials"@) == match v.credentials {
        Some(s) => Some(SpecJson::Str(s)),
        None => None,
    });
}

/// Configuration for sending asynchronous push notifications about task
/// updates.
#[derive(Debug, Clone, PartialEq, Eq)]
pub struct PushNotificationConfig {
    /// A client-chosen identifier for this configuration.
    pub id: Option<String>,
    /// The callback URL for notifications.
    pub url: String,
    /// A token to validate incoming notifications.
    pub token: Option<String>,
    /// How to authenticate to the callback URL.
    pub authentication: Option<PushNotificationAuthenticationInfo>,
}

/// Mathematical model of a [`PushNotificationConfig`].
#[verifier::ext_equal]
pub struct SpecPushNotificationConfig {
    pub id: Option<Seq<char>>,
    pub url: Seq<char>,
    pub token: Option<Seq<char>>,
    pub authentication: Option<SpecPushNotificationAuthenticationInfo>,
}

impl View for PushNotificationConfig {
    type V = SpecPushNotificationConfig;

    open spec fn view(&self) -> SpecPushNotificationConfig {
        SpecPushNotificationConfig {
            id: self.id.deep_view(),
            url: self.url@,
            token: self.token.deep_view(),
            authentication: self.authentication.deep_view(),
        }
    }
}

impl DeepView for PushNotificationConfig {
    type V = SpecPushNotificationConfig;

    open spec fn deep_view(&self) -> SpecPushNotificationConfig {
        self.view()
    }
}

/// The encoded entries of a [`PushNotificationConfig`], in ascending key
/// order.
pub open spec fn push_config_entries(v: SpecPushNotificationConfig) -> Seq<(Seq<char>, SpecJson)> {
    (match v.authentication {
        Some(a) => val_entry("authentication"@, spec_encode_push_auth(a)),
        None => Seq::empty(),
    }) + opt_str_entry("id"@, v.id) + opt_str_entry("token"@, v.token) + str_entry("url"@, v.url)
}

pub open spec fn spec_encode_push_config(v: SpecPushNotificationConfig) -> SpecJson {
    SpecJson::Obj(push_config_entries(v))
}

pub open spec fn spec_decode_push_config(j: SpecJson) -> Result<
    SpecPushNotificationConfig,
    SpecDecodeError,
> {
    match j {
        SpecJson::Obj(es) => match spec_req_str(es, "url"@) {
            Err(e) => Err(e),
            Ok(url) => match spec_opt_str(es, "id"@) {
                Err(e) => Err(e),
                Ok(id) => match spec_opt_str(es, "token"@) {
                    Err(e) => Err(e),
                    Ok(token) => match spec_get(es, "authentication"@) {
                        None => Ok(
                            SpecPushNotificationConfig { id, url, token, authentication: None },
                        ),
                        Some(SpecJson::Null) => Ok(
                            SpecPushNotificationConfig { id, url, token, authentication: None },
                        ),
                        Some(aj) => match spec_decode_push_auth(aj) {
                            Err(e) => Err(e),
                            Ok(a) => Ok(
                                SpecPushNotificationConfig {
                                    id,
                                    url,
                                    token,
                                    authentication: Some(a),
                                },
                            ),
                        },
                    },
                },
            },
        },
        _ => Err(spec_err(DecodeErrorKind::ExpectedObject, "pushNotificationConfig"@)),
    }
}

impl PushNotificationConfig {
    /// Encodes this record as a JSON object, omitting absent optional
    /// fields entirely.
    pub fn to_json(&self) -> (r: JsonValue)
        ensures
            r@ == spec_encode_push_config(self@),
    {
        let mut b = ObjBuilder::new();
        match &self.authentication {
            Some(a) => b.push_val("authentication", a.to_json()),
            None => (),
        }
        b.push_opt_str("id", &self.id);
        b.push_opt_str("token", &self.token);
        b.push_str("url", self.url.as_str());
        proof {
            assert(b@ =~= push_config_entries(self@));
        }
        b.finish()
    }

    /// Decodes a JSON object into this record.
    pub fn from_json(j: &JsonValue) -> (r: Result<PushNotificationConfig, DecodeError>)
        ensures
            res_deep_view(r) == spec_decode_push_config(j@),
    {
        let es = match j {
            JsonValue::Obj(es) => es,
            _ => { return Err(mk_err(DecodeErrorKind::ExpectedObject, "pushNotificationConfig")) },
        };
        let url = match get_str_req(es, "url") {
            Ok(v) => v,
            Err(e) => { return Err(e) },
        };
        let id = match get_str_opt(es, "id") {
            Ok(v) => v,
            Err(e) => { return Err(e) },
        };
        let token = match get_str_opt(es, "token") {
            Ok(v) => v,
            Err(e) => { return Err(e) },
        };
        let authentication = match get_entry(es, "authentication") {
            None => None,
            Some(JsonValue::Null) => None,
            Some(aj) => match PushNotificationAuthenticationInfo::from_json(aj) {
                Ok(a) => Some(a),
                Err(e) => { return Err(e) },
            },
        };
        Ok(PushNotificationConfig { id, url, token, authentication })
    }
}

/// Decoding an encoded configuration yields it back.
pub proof fn lemma_push_config_round_trip(v: SpecPushNotificationConfig)
    ensures
        spec_decode_push_config(spec_encode_push_config(v)) == Ok::<
            SpecPushNotificationConfig,
            SpecDecodeError,
        >(v),
{
    broadcast use crate::codec::lemma_spec_get_concat;

    reveal_with_fuel(spec_get, 3);
    reveal_strlit("authentication");
    reveal_strlit("id");
    reveal_strlit("token");
    reveal_strlit("url");
    assert("authentication"@.len() == 14);
    assert("id"@.len() == 2);
    assert("token"@.len() == 5);
    assert("url"@.len() == 3);
    let es = push_config_entries(v);
    assert(spec_get(es, "url"@) == Some(SpecJson::Str(v.url)));
    assert(spec_get(es, "id"@) == match v.id {
        Some(s) => Some(SpecJson::Str(s)),
        None => None,
    });
    assert(spec_get(es, "token"@) == match v.token {
        Some(s) => Some(SpecJson::Str(s)),
        None => None,
    });
    assert(spec_get(es, "authentication"@) == match v.authentication {
        Some(a) => Some(spec_encode_push_auth(a)),
        None => None,
    });
    match v.authentication {
        Some(a) => {
            lemma_push_auth_round_trip(a);
            assert(!(spec_encode_push_auth(a) is Null));
        },
        None => (),
    }
}

/// Associates a push-notification configuration with a task.
#[derive(Debug, Clone, PartialEq, Eq)]
pub struct TaskPushNotificationConfig {
    /// The unique identifier of the task.
    pub task_id: String,
    /// The push-notification configuration for the task.
    pub push_notification_config: PushNotificationConfig,
}

/// Mathematical model of a [`TaskPushNotificationConfig`].
#[verifier::ext_equal]
pub struct SpecTaskPushNotificationConfig {
    pub task_id: Seq<char>,
    pub push_notification_config: SpecPushNotificationConfig,
}

impl View for TaskPushNotificationConfig {
    type V = SpecTaskPushNotificationConfig;

    open spec fn view(&self) -> SpecTaskPushNotificationConfig {
        SpecTaskPushNotificationConfig {
            task_id: self.task_id@,
            push_notification_config: self.push_notification_config@,
        }
    }
}

impl DeepView for TaskPushNotificationConfig {
    type V = SpecTaskPushNotificationConfig;

    open spec fn deep_view(&self) -> SpecTaskPushNotificationConfig {
        self.view()
    }
}

/// The encoded entries of a [`TaskPushNotificationConfig`], in ascending
/// key order.
pub open spec fn task_push_config_entries(v: SpecTaskPushNotificationConfig) -> Seq<
    (Seq<char>, SpecJson),
> {
    val_entry("pushNotificationConfig"@, spec_encode_push_config(v.push_notification_config))
        + str_entry("taskId"@, v.task_id)
}

pub open spec fn spec_encode_task_push_config(v: SpecTaskPushNotificationConfig) -> SpecJson {
    SpecJson::Obj(task_push_config_entries(v))
}

pub open spec fn spec_decode_task_push_config(j: SpecJson) -> Result<
    SpecTaskPushNotificationConfig,
    SpecDecodeError,
> {
    match j {
        SpecJson::Obj(es) => match spec_req_str(es, "taskId"@) {
            Err(e) => Err(e),
            Ok(task_id) => match spec_get(es, "pushNotificationConfig"@) {
                None => Err(spec_err(DecodeErrorKind::MissingField, "pushNotificationConfig"@)),
                Some(cj) => match spec_decode_push_config(cj) {
                    Err(e) => Err(e),
                    Ok(push_notification_config) => Ok(
                        SpecTaskPushNotificationConfig { task_id, push_notification_config },
                    ),
                },
            },
        },
        _ => Err(spec_err(DecodeErrorKind::ExpectedObject, "taskPushNotificationConfig"@)),
    }
}

impl TaskPushNotificationConfig {
    /// Encodes this record as a JSON object.
    pub fn to_json(&self) -> (r: JsonValue)
        ensures
            r@ == spec_encode_task_push_config(self@),
    {
        let mut b = ObjBuilder::new();
        b.push_val("pushNotificationConfig", self.push_notification_config.to_json());
        b.push_str("taskId", self.task_id.as_str());
        proof {
            assert(b@ =~= task_push_config_entries(self@));
        }
        b.finish()
    }

    /// Decodes a JSON object into this record.
    pub fn from_json(j: &JsonValue) -> (r: Result<TaskPushNotificationConfig, DecodeError>)
        ensures
            res_deep_view(r) == spec_decode_task_push_config(j@),
    {
        let es = match j {
            JsonValue::Obj(es) => es,
            _ => { return Err(mk_err(DecodeErrorKind::ExpectedObject, "taskPushNotificationConfig")) },
        };
        let task_id = match get_str_req(es, "taskId") {
            Ok(v) => v,
            Err(e) => { return Err(e) },
        };
        let push_notification_config = match get_entry(es, "pushNotificationConfig") {
            None => { return Err(mk_err(DecodeErrorKind::MissingField, "pushNotificationConfig")) },
            Some(cj) => match PushNotificationConfig::from_json(cj) {
                Ok(c) => c,
                Err(e) => { return Err(e) },
            },
        };
        Ok(TaskPushNotificationConfig { task_id, push_notification_config })
    }
}

/// Decoding an encoded association yields it back.
pub proof fn lemma_task_push_config_round_trip(v: SpecTaskPushNotificationConfig)
    ensures
        spec_decode_task_push_config(spec_encode_task_push_config(v)) == Ok::<
            SpecTaskPushNotificationConfig,
            SpecDecodeError,
        >(v),
{
    broadcast use crate::codec::lemma_spec_get_concat;

    reveal_with_fuel(spec_get, 3);
    reveal_strlit("pushNotificationConfig");
    reveal_strlit("taskId");
    assert("pushNotificationConfig"@.len() == 22);
    assert("taskId"@.len() == 6);
    let es = task_push_config_entries(v);
    assert(spec_get(es, "taskId"@) == Some(SpecJson::Str(v.task_id)));
    assert(spec_get(es, "pushNotificationConfig"@) == Some(
        spec_encode_push_config(v.push_notification_config),
    ));
    lemma_push_config_round_trip(v.push_notification_config);
}

} // verus!
