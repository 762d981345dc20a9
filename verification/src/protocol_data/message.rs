//! Messages and their parts: the tagged `Part` union, the untagged
//! file-content union, and the message record itself.

use vstd::prelude::*;

use crate::codec::DecodeError;
use crate::codec::DecodeErrorKind;
use crate::codec::ObjBuilder;
use crate::codec::SpecDecodeError;
use crate::codec::get_entry;
use crate::codec::get_str_opt;
use crate::codec::get_str_req;
use crate::codec::get_strmap_opt;
use crate::codec::get_strmap_req;
use crate::codec::mk_err;
use crate::codec::opt_str_entry;
use crate::codec::opt_strmap_entry;
use crate::codec::res_deep_view;
use crate::codec::spec_err;
use crate::codec::spec_get;
use crate::codec::spec_opt_str;
use crate::codec::spec_opt_strmap;
use crate::codec::spec_req_str;
use crate::codec::spec_req_strmap;
use crate::codec::get_str_arr_opt;
use crate::codec::opt_str_arr_entry;
use crate::codec::spec_opt_str_arr;
use crate::codec::str_arr;
use crate::codec::str_entry;
use crate::codec::strmap_entries;
use crate::codec::strmap_entry;
use crate::codec::val_entry;
use crate::json::JsonValue;
use crate::json::SpecJson;
use crate::json::json_entries_view;
use crate::json::json_seq_view;
use crate::json::json_view;
use crate::json::str_eq;
use crate::util_types::StrMap;

verus! {

broadcast use {vstd::std_specs::vec::group_vec_axioms, crate::json::group_json_view_lemmas};

/// Base properties shared by both file-content alternatives.
#[derive(Debug, Clone, PartialEq, Eq)]
pub struct FileBase {
    /// An optional name for the file.
    pub name: Option<String>,
    /// The optional MIME type of the file content.
    pub mime_type: Option<String>,
}

/// Mathematical model of a [`FileBase`].
#[verifier::ext_equal]
pub struct SpecFileBase {
    pub name: Option<Seq<char>>,
    pub mime_type: Option<Seq<char>>,
}

impl View for FileBase {
    type V = SpecFileBase;

    open spec fn view(&self) -> SpecFileBase {
        SpecFileBase { name: self.name.deep_view(), mime_type: self.mime_type.deep_view() }
    }
}

impl DeepView for FileBase {
    type V = SpecFileBase;

    open spec fn deep_view(&self) -> SpecFileBase {
        self.view()
    }
}

/// File content carried inline, base64-encoded.
#[derive(Debug, Clone, PartialEq, Eq)]
pub struct FileWithBytes {
    pub base: FileBase,
    /// The base64-encoded content of the file.
    pub bytes: String,
}

/// Mathematical model of a [`FileWithBytes`].
#[verifier::ext_equal]
pub struct SpecFileWithBytes {
    pub base: SpecFileBase,
    pub bytes: Seq<char>,
}

impl View for FileWithBytes {
    type V = SpecFileWithBytes;

    open spec fn view(&self) -> SpecFileWithBytes {
        SpecFileWithBytes { base: self.base@, bytes: self.bytes@ }
    }
}

impl DeepView for FileWithBytes {
    type V = SpecFileWithBytes;

    open spec fn deep_view(&self) -> SpecFileWithBytes {
        self.view()
    }
}

/// File content referenced by URI.
#[derive(Debug, Clone, PartialEq, Eq)]
pub struct FileWithUri {
    pub base: FileBase,
    /// A URI pointing to the file's content.
    pub uri: String,
}

/// Mathematical model of a [`FileWithUri`].
#[verifier::ext_equal]
pub struct SpecFileWithUri {
    pub base: SpecFileBase,
    pub uri: Seq<char>,
}

impl View for FileWithUri {
    type V = SpecFileWithUri;

    open spec fn view(&self) -> SpecFileWithUri {
        SpecFileWithUri { base: self.base@, uri: self.uri@ }
    }
}

impl DeepView for FileWithUri {
    type V = SpecFileWithUri;

    open spec fn deep_view(&self) -> SpecFileWithUri {
        self.view()
    }
}

/// File content as either inline bytes or a URI: an untagged union,
/// disambiguated on decode purely by which key is present, `bytes` being
/// tried first.
#[derive(Debug, Clone, PartialEq, Eq)]
pub enum FileWith {
    Bytes(FileWithBytes),
    Uri(FileWithUri),
}

/// Mathematical model of a [`FileWith`].
#[verifier::ext_equal]
pub enum SpecFileWith {
    Bytes(SpecFileWithBytes),
    Uri(SpecFileWithUri),
}

impl View for FileWith {
    type V = SpecFileWith;

    open spec fn view(&self) -> SpecFileWith {
        match self {
            FileWith::Bytes(b) => SpecFileWith::Bytes(b@),
            FileWith::Uri(u) => SpecFileWith::Uri(u@),
        }
    }
}

impl DeepView for FileWith {
    type V = SpecFileWith;

    open spec fn deep_view(&self) -> SpecFileWith {
        self.view()
    }
}

impl Default for FileWith {
    /// The default file content is the URI alternative, with every field
    /// empty or absent.
    fn default() -> (r: FileWith)
        ensures
            r@ == (SpecFileWith::Uri(
                SpecFileWithUri {
                    base: SpecFileBase { name: None, mime_type: None },
                    uri: Seq::empty(),
                },
            )),
    {
        let r = FileWith::Uri(
            FileWithUri { base: FileBase { name: None, mime_type: None }, uri: String::new() },
        );
        proof {
            assert(r@ =~= SpecFileWith::Uri(
                SpecFileWithUri {
                    base: SpecFileBase { name: None, mime_type: None },
                    uri: Seq::empty(),
                },
            ));
        }
        r
    }
}

/// The encoded entries of a [`FileWithBytes`], in ascending key order.
pub open spec fn file_with_bytes_entries(v: SpecFileWithBytes) -> Seq<(Seq<char>, SpecJson)> {
    str_entry("bytes"@, v.bytes) + opt_str_entry("mimeType"@, v.base.mime_type) + opt_str_entry(
        "name"@,
        v.base.name,
    )
}

pub open spec fn spec_encode_file_with_bytes(v: SpecFileWithBytes) -> SpecJson {
    SpecJson::Obj(file_with_bytes_entries(v))
}

pub open spec fn spec_decode_file_with_bytes(j: SpecJson) -> Result<
    SpecFileWithBytes,
    SpecDecodeError,
> {
    match j {
        SpecJson::Obj(es) => match spec_req_str(es, "bytes"@) {
            Err(e) => Err(e),
            Ok(bytes) => match spec_opt_str(es, "mimeType"@) {
                Err(e) => Err(e),
                Ok(mime_type) => match spec_opt_str(es, "name"@) {
                    Err(e) => Err(e),
                    Ok(name) => Ok(
                        SpecFileWithBytes { base: SpecFileBase { name, mime_type }, bytes },
                    ),
                },
            },
        },
        _ => Err(spec_err(DecodeErrorKind::ExpectedObject, "file"@)),
    }
}

/// The encoded entries of a [`FileWithUri`], in ascending key order.
pub open spec fn file_with_uri_entries(v: SpecFileWithUri) -> Seq<(Seq<char>, SpecJson)> {
    opt_str_entry("mimeType"@, v.base.mime_type) + opt_str_entry("name"@, v.base.name) + str_entry(
        "uri"@,
        v.uri,
    )
}

pub open spec fn spec_encode_file_with_uri(v: SpecFileWithUri) -> SpecJson {
    SpecJson::Obj(file_with_uri_entries(v))
}

pub open spec fn spec_decode_file_with_uri(j: SpecJson) -> Result<
    SpecFileWithUri,
    SpecDecodeError,
> {
    match j {
        SpecJson::Obj(es) => match spec_req_str(es, "uri"@) {
            Err(e) => Err(e),
            Ok(uri) => match spec_opt_str(es, "mimeType"@) {
                Err(e) => Err(e),
                Ok(mime_type) => match spec_opt_str(es, "name"@) {
                    Err(e) => Err(e),
                    Ok(name) => Ok(SpecFileWithUri { base: SpecFileBase { name, mime_type }, uri }),
                },
            },
        },
        _ => Err(spec_err(DecodeErrorKind::ExpectedObject, "file"@)),
    }
}

pub open spec fn spec_encode_file_with(v: SpecFileWith) -> SpecJson {
    match v {
        SpecFileWith::Bytes(b) => spec_encode_file_with_bytes(b),
        SpecFileWith::Uri(u) => spec_encode_file_with_uri(u),
    }
}

/// Untagged decoding with the declared trial order: an object with a
/// `bytes` key decodes as the bytes alternative, even if a `uri` key is
/// also present; otherwise a `uri` key selects the URI alternative;
/// otherwise no alternative matches.
pub open spec fn spec_decode_file_with(j: SpecJson) -> Result<SpecFileWith, SpecDecodeError> {
    match j {
        SpecJson::Obj(es) => if spec_get(es, "bytes"@) is Some {
            match spec_decode_file_with_bytes(j) {
                Ok(b) => Ok(SpecFileWith::Bytes(b)),
                Err(e) => Err(e),
            }
        } else if spec_get(es, "uri"@) is Some {
            match spec_decode_file_with_uri(j) {
                Ok(u) => Ok(SpecFileWith::Uri(u)),
                Err(e) => Err(e),
            }
        } else {
            Err(spec_err(DecodeErrorKind::NoVariantMatched, "file"@))
        },
        _ => Err(spec_err(DecodeErrorKind::ExpectedObject, "file"@)),
    }
}

impl FileWithBytes {
    /// Encodes this record as a JSON object, omitting absent optional
    /// fields entirely.
    pub fn to_json(&self) -> (r: JsonValue)
        ensures
            r@ == spec_encode_file_with_bytes(self@),
    {
        let mut b = ObjBuilder::new();
        b.push_str("bytes", self.bytes.as_str());
        b.push_opt_str("mimeType", &self.base.mime_type);
        b.push_opt_str("name", &self.base.name);
        proof {
            assert(b@ =~= file_with_bytes_entries(self@));
        }
        b.finish()
    }

    /// Decodes a JSON object into this record.
    pub fn from_json(j: &JsonValue) -> (r: Result<FileWithBytes, DecodeError>)
        ensures
            res_deep_view(r) == spec_decode_file_with_bytes(j@),
    {
        let es = match j {
            JsonValue::Obj(es) => es,
            _ => { return Err(mk_err(DecodeErrorKind::ExpectedObject, "file")) },
        };
        let bytes = match get_str_req(es, "bytes") {
            Ok(v) => v,
            Err(e) => { return Err(e) },
        };
        let mime_type = match get_str_opt(es, "mimeType") {
            Ok(v) => v,
            Err(e) => { return Err(e) },
        };
        let name = match get_str_opt(es, "name") {
            Ok(v) => v,
            Err(e) => { return Err(e) },
        };
        Ok(FileWithBytes { base: FileBase { name, mime_type }, bytes })
    }
}

impl FileWithUri {
    /// Encodes this record as a JSON object, omitting absent optional
    /// fields entirely.
    pub fn to_json(&self) -> (r: JsonValue)
        ensures
            r@ == spec_encode_file_with_uri(self@),
    {
        let mut b = ObjBuilder::new();
        b.push_opt_str("mimeType", &self.base.mime_type);
        b.push_opt_str("name", &self.base.name);
        b.push_str("uri", self.uri.as_str());
        proof {
            assert(b@ =~= file_with_uri_entries(self@));
        }
        b.finish()
    }

    /// Decodes a JSON object into this record.
    pub fn from_json(j: &JsonValue) -> (r: Result<FileWithUri, DecodeError>)
        ensures
            res_deep_view(r) == spec_decode_file_with_uri(j@),
    {
        let es = match j {
            JsonValue::Obj(es) => es,
            _ => { return Err(mk_err(DecodeErrorKind::ExpectedObject, "file")) },
        };
        let uri = match get_str_req(es, "uri") {
            Ok(v) => v,
            Err(e) => { return Err(e) },
        };
        let mime_type = match get_str_opt(es, "mimeType") {
            Ok(v) => v,
            Err(e) => { return Err(e) },
        };
        let name = match get_str_opt(es, "name") {
            Ok(v) => v,
            Err(e) => { return Err(e) },
        };
        Ok(FileWithUri { base: FileBase { name, mime_type }, uri })
    }
}

impl FileWith {
    /// Encodes the active alternative; the in-memory tag alone decides
    /// which field set is emitted.
    pub fn to_json(&self) -> (r: JsonValue)
        ensures
            r@ == spec_encode_file_with(self@),
    {
        match self {
            FileWith::Bytes(b) => b.to_json(),
            FileWith::Uri(u) => u.to_json(),
        }
    }

    /// Decodes by structural trial order: `bytes` is tried before `uri`;
    /// the decode fails only if neither key is present.
    pub fn from_json(j: &JsonValue) -> (r: Result<FileWith, DecodeError>)
        ensures
            res_deep_view(r) == spec_decode_file_with(j@),
    {
        let es = match j {
            JsonValue::Obj(es) => es,
            _ => { return Err(mk_err(DecodeErrorKind::ExpectedObject, "file")) },
        };
        if get_entry(es, "bytes").is_some() {
            match FileWithBytes::from_json(j) {
                Ok(b) => Ok(FileWith::Bytes(b)),
                Err(e) => Err(e),
            }
        } else if get_entry(es, "uri").is_some() {
            match FileWithUri::from_json(j) {
                Ok(u) => Ok(FileWith::Uri(u)),
                Err(e) => Err(e),
            }
        } else {
            Err(mk_err(DecodeErrorKind::NoVariantMatched, "file"))
        }
    }
}

/// The speaker of a message turn.  Decoding is lenient: an unrecognized
/// token maps to the default `User`.
#[derive(Debug, Clone, Copy, PartialEq, Eq, Structural)]
pub enum MessageRole {
    /// Wire token `"user"`.
    User,
    /// Wire token `"agent"`.
    Agent,
}

/// The wire token of each role.
pub open spec fn role_token(r: MessageRole) -> Seq<char> {
    match r {
        MessageRole::User => "user"@,
        MessageRole::Agent => "agent"@,
    }
}

/// Total decoding of a role token: unrecognized tokens map to `User`.
pub open spec fn spec_role_from_token(s: Seq<char>) -> MessageRole {
    if s == "agent"@ {
        MessageRole::Agent
    } else {
        MessageRole::User
    }
}

impl View for MessageRole {
    type V = MessageRole;

    open spec fn view(&self) -> MessageRole {
        *self
    }
}

impl DeepView for MessageRole {
    type V = MessageRole;

    open spec fn deep_view(&self) -> MessageRole {
        *self
    }
}

impl Default for MessageRole {
    /// The default role is `User`.
    fn default() -> (r: MessageRole)
        ensures
            r == MessageRole::User,
    {
        MessageRole::User
    }
}

impl MessageRole {
    /// The canonical wire token of this role.
    pub fn as_str(&self) -> (r: &str)
        ensures
            r@ == role_token(*self),
    {
        match self {
            MessageRole::User => "user",
            MessageRole::Agent => "agent",
        }
    }

    /// Decodes a wire token; unrecognized tokens yield `User`.
    pub fn from_wire(s: &str) -> (r: MessageRole)
        ensures
            r == spec_role_from_token(s@),
    {
        if crate::json::str_eq(s, "agent") {
            MessageRole::Agent
        } else {
            MessageRole::User
        }
    }
}

/// Encoding a role and decoding the token yields the role back.
pub proof fn lemma_role_round_trip(r: MessageRole)
    ensures
        spec_role_from_token(role_token(r)) == r,
{
    reveal_strlit("user");
    reveal_strlit("agent");
    assert("user"@.len() == 4);
    assert("agent"@.len() == 5);
}

/// Base properties common to all parts.
#[derive(Debug, Clone, PartialEq, Eq)]
pub struct PartBase {
    /// Optional metadata attached to the part.
    pub metadata: Option<StrMap>,
}

/// Mathematical model of a [`PartBase`].
#[verifier::ext_equal]
pub struct SpecPartBase {
    pub metadata: Option<Seq<(Seq<char>, Seq<char>)>>,
}

impl View for PartBase {
    type V = SpecPartBase;

    open spec fn view(&self) -> SpecPartBase {
        SpecPartBase { metadata: self.metadata.deep_view() }
    }
}

impl DeepView for PartBase {
    type V = SpecPartBase;

    open spec fn deep_view(&self) -> SpecPartBase {
        self.view()
    }
}

/// A text segment within a message or artifact.
#[derive(Debug, Clone, PartialEq, Eq)]
pub struct TextPart {
    pub base: PartBase,
    /// The text content.
    pub text: String,
}

/// Mathematical model of a [`TextPart`].
#[verifier::ext_equal]
pub struct SpecTextPart {
    pub base: SpecPartBase,
    pub text: Seq<char>,
}

impl View for TextPart {
    type V = SpecTextPart;

    open spec fn view(&self) -> SpecTextPart {
        SpecTextPart { base: self.base@, text: self.text@ }
    }
}

impl DeepView for TextPart {
    type V = SpecTextPart;

    open spec fn deep_view(&self) -> SpecTextPart {
        self.view()
    }
}

/// A file segment within a message or artifact.
#[derive(Debug, Clone, PartialEq, Eq)]
pub struct FilePart {
    pub base: PartBase,
    /// The file content, inline or by URI.
    pub file: FileWith,
}

/// Mathematical model of a [`FilePart`].
#[verifier::ext_equal]
pub struct SpecFilePart {
    pub base: SpecPartBase,
    pub file: SpecFileWith,
}

impl View for FilePart {
    type V = SpecFilePart;

    open spec fn view(&self) -> SpecFilePart {
        SpecFilePart { base: self.base@, file: self.file@ }
    }
}

impl DeepView for FilePart {
    type V = SpecFilePart;

    open spec fn deep_view(&self) -> SpecFilePart {
        self.view()
    }
}

/// A structured-data segment within a message or artifact.
#[derive(Debug, Clone, PartialEq, Eq)]
pub struct DataPart {
    pub base: PartBase,
    /// The structured content.
    pub data: StrMap,
}

/// Mathematical model of a [`DataPart`].
#[verifier::ext_equal]
pub struct SpecDataPart {
    pub base: SpecPartBase,
    pub data: Seq<(Seq<char>, Seq<char>)>,
}

impl View for DataPart {
    type V = SpecDataPart;

    open spec fn view(&self) -> SpecDataPart {
        SpecDataPart { base: self.base@, data: self.data@ }
    }
}

impl DeepView for DataPart {
    type V = SpecDataPart;

    open spec fn deep_view(&self) -> SpecDataPart {
        self.view()
    }
}

/// A discriminated union representing one part of a message or artifact,
/// selected on the wire by the `kind` discriminator field.
#[derive(Debug, Clone, PartialEq, Eq)]
pub enum Part {
    Text(TextPart),
    File(FilePart),
    Data(DataPart),
}

/// Mathematical model of a [`Part`].
#[verifier::ext_equal]
pub enum SpecPart {
    Text(SpecTextPart),
    File(SpecFilePart),
    Data(SpecDataPart),
}

impl View for Part {
    type V = SpecPart;

    open spec fn view(&self) -> SpecPart {
        match self {
            Part::Text(t) => SpecPart::Text(t@),
            Part::File(f) => SpecPart::File(f@),
            Part::Data(d) => SpecPart::Data(d@),
        }
    }
}

impl DeepView for Part {
    type V = SpecPart;

    open spec fn deep_view(&self) -> SpecPart {
        self.view()
    }
}

impl Default for Part {
    /// The default part is the text variant, with empty text and no
    /// metadata.
    fn default() -> (r: Part)
        ensures
            r@ == (SpecPart::Text(
                SpecTextPart { base: SpecPartBase { metadata: None }, text: Seq::empty() },
            )),
    {
        let r = Part::Text(TextPart { base: PartBase { metadata: None }, text: String::new() });
        proof {
            assert(r@ =~= SpecPart::Text(
                SpecTextPart { base: SpecPartBase { metadata: None }, text: Seq::empty() },
            ));
        }
        r
    }
}

/// A part fit for a lossless round trip: its string maps stand in the
/// canonical ascending key order, as decoding folds them.
pub open spec fn part_wf(p: SpecPart) -> bool {
    match p {
        SpecPart::Text(t) => crate::codec::opt_strmap_wf(t.base.metadata),
        SpecPart::File(f) => crate::codec::opt_strmap_wf(f.base.metadata),
        SpecPart::Data(d) => crate::codec::opt_strmap_wf(d.base.metadata)
            && crate::util_types::strmap_wf(d.data),
    }
}

/// Whether every part of a list is fit for a round trip.
pub open spec fn parts_wf(ps: Seq<SpecPart>) -> bool {
    forall|i: int| 0 <= i < ps.len() ==> part_wf(#[trigger] ps[i])
}

/// A message fit for a lossless round trip: its metadata and its parts'
/// maps stand in the canonical ascending key order.
pub open spec fn message_wf(m: SpecMessage) -> bool {
    crate::codec::opt_strmap_wf(m.metadata) && parts_wf(m.parts)
}

/// The encoded entries of a text part, in ascending key order; the
/// discriminator `kind` carries `"text"`.
pub open spec fn text_part_entries(v: SpecTextPart) -> Seq<(Seq<char>, SpecJson)> {
    str_entry("kind"@, "text"@) + opt_strmap_entry("metadata"@, v.base.metadata) + str_entry(
        "text"@,
        v.text,
    )
}

/// The encoded entries of a file part; the discriminator carries
/// `"file"`.
pub open spec fn file_part_entries(v: SpecFilePart) -> Seq<(Seq<char>, SpecJson)> {
    val_entry("file"@, spec_encode_file_with(v.file)) + str_entry("kind"@, "file"@)
        + opt_strmap_entry("metadata"@, v.base.metadata)
}

/// The encoded entries of a data part; the discriminator carries
/// `"data"`.
pub open spec fn data_part_entries(v: SpecDataPart) -> Seq<(Seq<char>, SpecJson)> {
    strmap_entry("data"@, v.data) + str_entry("kind"@, "data"@) + opt_strmap_entry(
        "metadata"@,
        v.base.metadata,
    )
}

pub open spec fn spec_encode_part(p: SpecPart) -> SpecJson {
    match p {
        SpecPart::Text(t) => SpecJson::Obj(text_part_entries(t)),
        SpecPart::File(f) => SpecJson::Obj(file_part_entries(f)),
        SpecPart::Data(d) => SpecJson::Obj(data_part_entries(d)),
    }
}

/// Tagged decoding: the `kind` discriminator selects the variant; a
/// missing discriminator or one naming no known variant is a hard
/// failure, since the variant's field shape cannot be guessed.
pub open spec fn spec_decode_part(j: SpecJson) -> Result<SpecPart, SpecDecodeError> {
    match j {
        SpecJson::Obj(es) => match spec_req_str(es, "kind"@) {
            Err(e) => Err(e),
            Ok(tag) => if tag == "text"@ {
                match spec_req_str(es, "text"@) {
                    Err(e) => Err(e),
                    Ok(text) => match spec_opt_strmap(es, "metadata"@) {
                        Err(e) => Err(e),
                        Ok(metadata) => Ok(
                            SpecPart::Text(
                                SpecTextPart { base: SpecPartBase { metadata }, text },
                            ),
                        ),
                    },
                }
            } else if tag == "file"@ {
                match spec_get(es, "file"@) {
                    None => Err(spec_err(DecodeErrorKind::MissingField, "file"@)),
                    Some(fj) => match spec_decode_file_with(fj) {
                        Err(e) => Err(e),
                        Ok(file) => match spec_opt_strmap(es, "metadata"@) {
                            Err(e) => Err(e),
                            Ok(metadata) => Ok(
                                SpecPart::File(
                                    SpecFilePart { base: SpecPartBase { metadata }, file },
                                ),
                            ),
                        },
                    },
                }
            } else if tag == "data"@ {
                match spec_req_strmap(es, "data"@) {
                    Err(e) => Err(e),
                    Ok(data) => match spec_opt_strmap(es, "metadata"@) {
                        Err(e) => Err(e),
                        Ok(metadata) => Ok(
                            SpecPart::Data(
                                SpecDataPart { base: SpecPartBase { metadata }, data },
                            ),
                        ),
                    },
                }
            } else {
                Err(spec_err(DecodeErrorKind::UnknownDiscriminator, "kind"@))
            },
        },
        _ => Err(spec_err(DecodeErrorKind::ExpectedObject, "part"@)),
    }
}

impl Part {
    /// Encodes the active variant with its `kind` discriminator; fields
    /// of the other variants never appear.
    pub fn to_json(&self) -> (r: JsonValue)
        ensures
            r@ == spec_encode_part(self@),
    {
        match self {
            Part::Text(t) => {
                let mut b = ObjBuilder::new();
                b.push_str("kind", "text");
                b.push_opt_str_map("metadata", &t.base.metadata);
                b.push_str("text", t.text.as_str());
                proof {
                    assert(b@ =~= text_part_entries(t@));
                }
                b.finish()
            },
            Part::File(f) => {
                let mut b = ObjBuilder::new();
                b.push_val("file", f.file.to_json());
                b.push_str("kind", "file");
                b.push_opt_str_map("metadata", &f.base.metadata);
                proof {
                    assert(b@ =~= file_part_entries(f@));
                }
                b.finish()
            },
            Part::Data(d) => {
                let mut b = ObjBuilder::new();
                b.push_str_map("data", &d.data);
                b.push_str("kind", "data");
                b.push_opt_str_map("metadata", &d.base.metadata);
                proof {
                    assert(b@ =~= data_part_entries(d@));
                }
                b.finish()
            },
        }
    }

    /// Decodes a JSON object by its `kind` discriminator.
    pub fn from_json(j: &JsonValue) -> (r: Result<Part, DecodeError>)
        ensures
            res_deep_view(r) == spec_decode_part(j@),
    {
        let es = match j {
            JsonValue::Obj(es) => es,
            _ => { return Err(mk_err(DecodeErrorKind::ExpectedObject, "part")) },
        };
        let tag = match get_str_req(es, "kind") {
            Ok(v) => v,
            Err(e) => { return Err(e) },
        };
        if str_eq(tag.as_str(), "text") {
            let text = match get_str_req(es, "text") {
                Ok(v) => v,
                Err(e) => { return Err(e) },
            };
            let metadata = match get_strmap_opt(es, "metadata") {
                Ok(v) => v,
                Err(e) => { return Err(e) },
            };
            Ok(Part::Text(TextPart { base: PartBase { metadata }, text }))
        } else if str_eq(tag.as_str(), "file") {
            let fj = match get_entry(es, "file") {
                Some(v) => v,
                None => { return Err(mk_err(DecodeErrorKind::MissingField, "file")) },
            };
            let file = match FileWith::from_json(fj) {
                Ok(v) => v,
                Err(e) => { return Err(e) },
            };
            let metadata = match get_strmap_opt(es, "metadata") {
                Ok(v) => v,
                Err(e) => { return Err(e) },
            };
            Ok(Part::File(FilePart { base: PartBase { metadata }, file }))
        } else if str_eq(tag.as_str(), "data") {
            let data = match get_strmap_req(es, "data") {
                Ok(v) => v,
                Err(e) => { return Err(e) },
            };
            let metadata = match get_strmap_opt(es, "metadata") {
                Ok(v) => v,
                Err(e) => { return Err(e) },
            };
            Ok(Part::Data(DataPart { base: PartBase { metadata }, data }))
        } else {
            Err(mk_err(DecodeErrorKind::UnknownDiscriminator, "kind"))
        }
    }
}

/// Decoding an encoded part yields the part back: the discriminator the
/// encoder writes selects the same variant on decode.
pub proof fn lemma_part_round_trip(p: SpecPart)
    requires
        part_wf(p),
    ensures
        spec_decode_part(spec_encode_part(p)) == Ok::<SpecPart, SpecDecodeError>(p),
{
    broadcast use
        crate::codec::lemma_spec_get_concat,
        crate::codec::lemma_parse_str_map_rt;

    reveal_with_fuel(spec_get, 3);
    reveal_strlit("kind");
    reveal_strlit("text");
    reveal_strlit("file");
    reveal_strlit("data");
    reveal_strlit("metadata");
    assert("kind"@.len() == 4);
    assert("text"@.len() == 4);
    assert("file"@.len() == 4);
    assert("data"@.len() == 4);
    assert("metadata"@.len() == 8);
    assert("kind"@[0] == 'k');
    assert("text"@[0] == 't');
    assert("file"@[0] == 'f');
    assert("data"@[0] == 'd');
    match p {
        SpecPart::Text(t) => {
            let es = text_part_entries(t);
            assert(spec_get(es, "kind"@) == Some(SpecJson::Str("text"@)));
            assert(spec_get(es, "text"@) == Some(SpecJson::Str(t.text)));
            assert(spec_get(es, "metadata"@) == match t.base.metadata {
                Some(m) => Some(SpecJson::Obj(strmap_entries(m))),
                None => None,
            });
        },
        SpecPart::File(f) => {
            let es = file_part_entries(f);
            assert(spec_get(es, "kind"@) == Some(SpecJson::Str("file"@)));
            assert(spec_get(es, "file"@) == Some(spec_encode_file_with(f.file)));
            assert(spec_get(es, "metadata"@) == match f.base.metadata {
                Some(m) => Some(SpecJson::Obj(strmap_entries(m))),
                None => None,
            });
            lemma_file_with_round_trip(f.file);
        },
        SpecPart::Data(d) => {
            let es = data_part_entries(d);
            assert(spec_get(es, "kind"@) == Some(SpecJson::Str("data"@)));
            assert(spec_get(es, "data"@) == Some(SpecJson::Obj(strmap_entries(d.data))));
            assert(spec_get(es, "metadata"@) == match d.base.metadata {
                Some(m) => Some(SpecJson::Obj(strmap_entries(m))),
                None => None,
            });
        },
    }
}

/// The encoded form of a list of parts.
pub open spec fn parts_arr(ps: Seq<SpecPart>) -> Seq<SpecJson> {
    Seq::new(ps.len(), |i: int| spec_encode_part(ps[i]))
}

/// Reads an array whose items must all decode as parts; the first
/// failing item's error is reported.
pub open spec fn spec_parse_parts(items: Seq<SpecJson>) -> Result<Seq<SpecPart>, SpecDecodeError>
    decreases items.len(),
{
    if items.len() == 0 {
        Ok(Seq::empty())
    } else {
        match spec_parse_parts(items.drop_last()) {
            Ok(pre) => match spec_decode_part(items.last()) {
                Ok(p) => Ok(pre.push(p)),
                Err(e) => Err(e),
            },
            Err(e) => Err(e),
        }
    }
}

pub proof fn lemma_parse_parts_err(items: Seq<SpecJson>, i: int)
    requires
        0 <= i < items.len(),
        spec_parse_parts(items.subrange(0, i)) is Ok,
        spec_decode_part(items[i]) is Err,
    ensures
        spec_parse_parts(items) == Err::<Seq<SpecPart>, SpecDecodeError>(
            spec_decode_part(items[i])->Err_0,
        ),
    decreases items.len(),
{
    if i == items.len() - 1 {
        assert(items.subrange(0, i) =~= items.drop_last());
    } else {
        assert(items.drop_last().subrange(0, i) =~= items.subrange(0, i));
        lemma_parse_parts_err(items.drop_last(), i);
    }
}

/// Decoding an encoded list of parts yields the list back.
pub broadcast proof fn lemma_parts_arr_round_trip(ps: Seq<SpecPart>)
    requires
        parts_wf(ps),
    ensures
        #[trigger] spec_parse_parts(parts_arr(ps)) == Ok::<Seq<SpecPart>, SpecDecodeError>(ps),
    decreases ps.len(),
{
    reveal_with_fuel(spec_parse_parts, 2);
    if ps.len() == 0 {
        assert(parts_arr(ps).len() == 0);
        assert(ps =~= Seq::<SpecPart>::empty());
    } else {
        assert(parts_arr(ps).drop_last() =~= parts_arr(ps.drop_last()));
        assert(parts_wf(ps.drop_last())) by {
            assert(forall|i: int|
                0 <= i < ps.drop_last().len() ==> #[trigger] ps.drop_last()[i] == ps[i]);
        }
        lemma_parts_arr_round_trip(ps.drop_last());
        assert(parts_arr(ps).last() == spec_encode_part(ps.last()));
        lemma_part_round_trip(ps.last());
        assert(ps.drop_last().push(ps.last()) =~= ps);
    }
}

/// Encodes a list of parts as a JSON array.
pub fn encode_parts(v: &Vec<Part>) -> (r: JsonValue)
    ensures
        r@ == SpecJson::Arr(parts_arr(v.deep_view())),
{
    let mut out: Vec<JsonValue> = Vec::new();
    let mut i: usize = 0;
    while i < v.len()
        invariant
            i <= v.len(),
            out@.len() == i,
            forall|j: int| 0 <= j < i ==> json_view(out@[j]) == spec_encode_part(v@[j].deep_view()),
        decreases v.len() - i,
    {
        out.push(v[i].to_json());
        i += 1;
    }
    proof {
        assert(json_seq_view(out@) =~= parts_arr(v.deep_view()));
    }
    JsonValue::Arr(out)
}

/// Decodes a JSON array whose items must all be parts.
pub fn parse_parts(items: &Vec<JsonValue>) -> (r: Result<Vec<Part>, DecodeError>)
    ensures
        res_deep_view(r) == spec_parse_parts(json_seq_view(items@)),
{
    let ghost g = json_seq_view(items@);
    let mut out: Vec<Part> = Vec::new();
    let mut i: usize = 0;
    proof {
        assert(g.subrange(0, 0).len() == 0);
        assert(out.deep_view() =~= Seq::<SpecPart>::empty());
    }
    while i < items.len()
        invariant
            i <= items.len(),
            g == json_seq_view(items@),
            g.len() == items@.len(),
            spec_parse_parts(g.subrange(0, i as int)) == Ok::<Seq<SpecPart>, SpecDecodeError>(
                out.deep_view(),
            ),
        decreases items.len() - i,
    {
        let ghost pre = g.subrange(0, i as int);
        let ghost cur = g.subrange(0, i + 1);
        proof {
            assert(cur.drop_last() =~= pre);
            assert(cur.last() == g[i as int]);
            assert(g[i as int] == json_view(items@[i as int]));
        }
        match Part::from_json(&items[i]) {
            Ok(p) => {
                let ghost before = out.deep_view();
                out.push(p);
                proof {
                    assert(out.deep_view() =~= before.push(out@.last().deep_view()));
                }
            },
            Err(e) => {
                proof {
                    lemma_parse_parts_err(g, i as int);
                }
                return Err(e);
            },
        }
        i += 1;
    }
    proof {
        assert(g.subrange(0, items@.len() as int) =~= g);
    }
    Ok(out)
}

/// One conversational turn between a client and an agent.
#[derive(Debug, Clone, PartialEq, Eq)]
pub struct Message {
    /// Who produced the turn.
    pub role: MessageRole,
    /// The ordered content of the turn.
    pub parts: Vec<Part>,
    /// Optional metadata for extensions.
    pub metadata: Option<StrMap>,
    /// Optional URIs of protocol extensions relevant to the turn.
    pub extensions: Option<Vec<String>>,
    /// Optional ids of tasks this turn refers to.
    pub reference_task_ids: Option<Vec<String>>,
    /// The unique identifier of this turn.
    pub message_id: String,
    /// The task this turn belongs to, if any.
    pub task_id: Option<String>,
    /// The conversation context this turn belongs to, if any.
    pub context_id: Option<String>,
    /// The fixed discriminator of a message object: `"message"`.
    pub kind: String,
}

/// Mathematical model of a [`Message`].
#[verifier::ext_equal]
pub struct SpecMessage {
    pub role: MessageRole,
    pub parts: Seq<SpecPart>,
    pub metadata: Option<Seq<(Seq<char>, Seq<char>)>>,
    pub extensions: Option<Seq<Seq<char>>>,
    pub reference_task_ids: Option<Seq<Seq<char>>>,
    pub message_id: Seq<char>,
    pub task_id: Option<Seq<char>>,
    pub context_id: Option<Seq<char>>,
    pub kind: Seq<char>,
}

impl View for Message {
    type V = SpecMessage;

    open spec fn view(&self) -> SpecMessage {
        SpecMessage {
            role: self.role,
            parts: self.parts.deep_view(),
            metadata: self.metadata.deep_view(),
            extensions: self.extensions.deep_view(),
            reference_task_ids: self.reference_task_ids.deep_view(),
            message_id: self.message_id@,
            task_id: self.task_id.deep_view(),
            context_id: self.context_id.deep_view(),
            kind: self.kind@,
        }
    }
}

impl DeepView for Message {
    type V = SpecMessage;

    open spec fn deep_view(&self) -> SpecMessage {
        self.view()
    }
}

/// The encoded entries of a [`Message`], in ascending key order.
pub open spec fn message_entries(v: SpecMessage) -> Seq<(Seq<char>, SpecJson)> {
    opt_str_entry("contextId"@, v.context_id) + opt_str_arr_entry("extensions"@, v.extensions)
        + str_entry("kind"@, v.kind) + str_entry("messageId"@, v.message_id) + opt_strmap_entry(
        "metadata"@,
        v.metadata,
    ) + val_entry("parts"@, SpecJson::Arr(parts_arr(v.parts))) + opt_str_arr_entry(
        "referenceTaskIds"@,
        v.reference_task_ids,
    ) + str_entry("role"@, role_token(v.role)) + opt_str_entry("taskId"@, v.task_id)
}

pub open spec fn spec_encode_message(v: SpecMessage) -> SpecJson {
    SpecJson::Obj(message_entries(v))
}

pub open spec fn spec_decode_message(j: SpecJson) -> Result<SpecMessage, SpecDecodeError> {
    match j {
        SpecJson::Obj(es) => match spec_req_str(es, "role"@) {
            Err(e) => Err(e),
            Ok(role_tok) => match spec_get(es, "parts"@) {
                None => Err(spec_err(DecodeErrorKind::MissingField, "parts"@)),
                Some(SpecJson::Arr(items)) => match spec_parse_parts(items) {
                    Err(e) => Err(e),
                    Ok(parts) => match spec_opt_strmap(es, "metadata"@) {
                        Err(e) => Err(e),
                        Ok(metadata) => match spec_opt_str_arr(es, "extensions"@) {
                            Err(e) => Err(e),
                            Ok(extensions) => match spec_opt_str_arr(es, "referenceTaskIds"@) {
                                Err(e) => Err(e),
                                Ok(reference_task_ids) => match spec_req_str(es, "messageId"@) {
                                    Err(e) => Err(e),
                                    Ok(message_id) => match spec_opt_str(es, "taskId"@) {
                                        Err(e) => Err(e),
                                        Ok(task_id) => match spec_opt_str(es, "contextId"@) {
                                            Err(e) => Err(e),
                                            Ok(context_id) => match spec_req_str(es, "kind"@) {
                                                Err(e) => Err(e),
                                                Ok(kind) => Ok(
                                                    SpecMessage {
                                                        role: spec_role_from_token(role_tok),
                                                        parts,
                                                        metadata,
                                                        extensions,
                                                        reference_task_ids,
                                                        message_id,
                                                        task_id,
                                                        context_id,
                                                        kind,
                                                    },
                                                ),
                                            },
                                        },
                                    },
                                },
                            },
                        },
                    },
                },
                Some(_) => Err(spec_err(DecodeErrorKind::ExpectedArr, "parts"@)),
            },
        },
        _ => Err(spec_err(DecodeErrorKind::ExpectedObject, "message"@)),
    }
}

impl Message {
    /// An empty message carrying the fixed `"message"` discriminator.
    pub fn new() -> (r: Message)
        ensures
            r@ == (SpecMessage {
                role: MessageRole::User,
                parts: Seq::empty(),
                metadata: None,
                extensions: None,
                reference_task_ids: None,
                message_id: ""@,
                task_id: None,
                context_id: None,
                kind: "message"@,
            }),
    {
        let r = Message {
            role: MessageRole::User,
            parts: Vec::new(),
            metadata: None,
            extensions: None,
            reference_task_ids: None,
            message_id: String::new(),
            task_id: None,
            context_id: None,
            kind: String::from_str("message"),
        };
        proof {
            assert(r.parts.deep_view() =~= Seq::<SpecPart>::empty());
            reveal_strlit("");
            assert(""@ =~= Seq::<char>::empty());
        }
        r
    }

    /// Encodes this message as a JSON object, omitting absent optional
    /// fields entirely.
    pub fn to_json(&self) -> (r: JsonValue)
        ensures
            r@ == spec_encode_message(self@),
    {
        let mut b = ObjBuilder::new();
        b.push_opt_str("contextId", &self.context_id);
        b.push_opt_str_arr("extensions", &self.extensions);
        b.push_str("kind", self.kind.as_str());
        b.push_str("messageId", self.message_id.as_str());
        b.push_opt_str_map("metadata", &self.metadata);
        b.push_val("parts", encode_parts(&self.parts));
        b.push_opt_str_arr("referenceTaskIds", &self.reference_task_ids);
        b.push_str("role", self.role.as_str());
        b.push_opt_str("taskId", &self.task_id);
        proof {
            assert(b@ =~= message_entries(self@));
        }
        b.finish()
    }

    /// Decodes a JSON object into a message.
    pub fn from_json(j: &JsonValue) -> (r: Result<Message, DecodeError>)
        ensures
            res_deep_view(r) == spec_decode_message(j@),
    {
        let es = match j {
            JsonValue::Obj(es) => es,
            _ => { return Err(mk_err(DecodeErrorKind::ExpectedObject, "message")) },
        };
        let role_tok = match get_str_req(es, "role") {
            Ok(v) => v,
            Err(e) => { return Err(e) },
        };
        let parts = match get_entry(es, "parts") {
            None => { return Err(mk_err(DecodeErrorKind::MissingField, "parts")) },
            Some(JsonValue::Arr(items)) => match parse_parts(items) {
                Ok(v) => v,
                Err(e) => { return Err(e) },
            },
            Some(_) => { return Err(mk_err(DecodeErrorKind::ExpectedArr, "parts")) },
        };
        let metadata = match get_strmap_opt(es, "metadata") {
            Ok(v) => v,
            Err(e) => { return Err(e) },
        };
        let extensions = match get_str_arr_opt(es, "extensions") {
            Ok(v) => v,
            Err(e) => { return Err(e) },
        };
        let reference_task_ids = match get_str_arr_opt(es, "referenceTaskIds") {
            Ok(v) => v,
            Err(e) => { return Err(e) },
        };
        let message_id = match get_str_req(es, "messageId") {
            Ok(v) => v,
            Err(e) => { return Err(e) },
        };
        let task_id = match get_str_opt(es, "taskId") {
            Ok(v) => v,
            Err(e) => { return Err(e) },
        };
        let context_id = match get_str_opt(es, "contextId") {
            Ok(v) => v,
            Err(e) => { return Err(e) },
        };
        let kind = match get_str_req(es, "kind") {
            Ok(v) => v,
            Err(e) => { return Err(e) },
        };
        Ok(
            Message {
                role: MessageRole::from_wire(role_tok.as_str()),
                parts,
                metadata,
                extensions,
                reference_task_ids,
                message_id,
                task_id,
                context_id,
                kind,
            },
        )
    }
}

/// Decoding an encoded message yields the message back; the required
/// `role` token decodes leniently but the encoder only emits registered
/// tokens, which decode to the role they encode.
pub proof fn lemma_message_round_trip(v: SpecMessage)
    requires
        message_wf(v),
    ensures
        spec_decode_message(spec_encode_message(v)) == Ok::<SpecMessage, SpecDecodeError>(v),
{
    broadcast use
        crate::codec::lemma_spec_get_concat,
        crate::codec::lemma_parse_str_map_rt,
        crate::codec::lemma_parse_str_arr_rt,
        lemma_parts_arr_round_trip;

    reveal_with_fuel(spec_get, 3);
    reveal_strlit("contextId");
    reveal_strlit("extensions");
    reveal_strlit("kind");
    reveal_strlit("messageId");
    reveal_strlit("metadata");
    reveal_strlit("parts");
    reveal_strlit("referenceTaskIds");
    reveal_strlit("role");
    reveal_strlit("taskId");
    assert("contextId"@.len() == 9);
    assert("extensions"@.len() == 10);
    assert("kind"@.len() == 4);
    assert("messageId"@.len() == 9);
    assert("metadata"@.len() == 8);
    assert("parts"@.len() == 5);
    assert("referenceTaskIds"@.len() == 16);
    assert("role"@.len() == 4);
    assert("taskId"@.len() == 6);
    assert("contextId"@[0] == 'c');
    assert("messageId"@[0] == 'm');
    assert("kind"@[0] == 'k');
    assert("role"@[0] == 'r');
    let es = message_entries(v);
    assert(spec_get(es, "role"@) == Some(SpecJson::Str(role_token(v.role))));
    assert(spec_get(es, "parts"@) == Some(SpecJson::Arr(parts_arr(v.parts))));
    assert(spec_get(es, "metadata"@) == match v.metadata {
        Some(m) => Some(SpecJson::Obj(strmap_entries(m))),
        None => None,
    });
    assert(spec_get(es, "extensions"@) == match v.extensions {
        Some(ss) => Some(SpecJson::Arr(str_arr(ss))),
        None => None,
    });
    assert(spec_get(es, "referenceTaskIds"@) == match v.reference_task_ids {
        Some(ss) => Some(SpecJson::Arr(str_arr(ss))),
        None => None,
    });
    assert(spec_get(es, "messageId"@) == Some(SpecJson::Str(v.message_id)));
    assert(spec_get(es, "taskId"@) == match v.task_id {
        Some(s) => Some(SpecJson::Str(s)),
        None => None,
    });
    assert(spec_get(es, "contextId"@) == match v.context_id {
        Some(s) => Some(SpecJson::Str(s)),
        None => None,
    });
    assert(spec_get(es, "kind"@) == Some(SpecJson::Str(v.kind)));
    lemma_role_round_trip(v.role);
}

/// An absent optional field is omitted from the encoding entirely, and a
/// present one appears, even when its value is empty: here, the metadata
/// key exists in an encoded message exactly when the field is set.
pub proof fn lemma_message_metadata_omission(v: SpecMessage)
    ensures
        spec_get(message_entries(v), "metadata"@) == match v.metadata {
            Some(m) => Some(SpecJson::Obj(strmap_entries(m))),
            None => None,
        },
{
    broadcast use crate::codec::group_entry_lookup;

    reveal_strlit("contextId");
    reveal_strlit("extensions");
    reveal_strlit("kind");
    reveal_strlit("messageId");
    reveal_strlit("metadata");
    reveal_strlit("parts");
    reveal_strlit("referenceTaskIds");
    reveal_strlit("role");
    reveal_strlit("taskId");
    assert("contextId"@.len() == 9);
    assert("extensions"@.len() == 10);
    assert("kind"@.len() == 4);
    assert("messageId"@.len() == 9);
    assert("metadata"@.len() == 8);
    assert("parts"@.len() == 5);
    assert("referenceTaskIds"@.len() == 16);
    assert("role"@.len() == 4);
    assert("taskId"@.len() == 6);
    assert("contextId"@[0] == 'c');
    assert("messageId"@[0] == 'm');
    assert("metadata"@[1] == 'e');
    assert("messageId"@[1] == 'e');
    assert("metadata"@[0] == 'm');
}

/// Decoding an encoded bytes-alternative yields the record back.
pub proof fn lemma_file_with_bytes_round_trip(v: SpecFileWithBytes)
    ensures
        spec_decode_file_with_bytes(spec_encode_file_with_bytes(v)) == Ok::<
            SpecFileWithBytes,
            SpecDecodeError,
        >(v),
{
    broadcast use crate::codec::lemma_spec_get_concat;

    reveal_with_fuel(spec_get, 3);
    reveal_strlit("bytes");
    reveal_strlit("mimeType");
    reveal_strlit("name");
    assert("bytes"@.len() == 5);
    assert("mimeType"@.len() == 8);
    assert("name"@.len() == 4);
    let es = file_with_bytes_entries(v);
    assert(spec_get(es, "bytes"@) == Some(SpecJson::Str(v.bytes)));
    assert(spec_get(es, "mimeType"@) == match v.base.mime_type {
        Some(s) => Some(SpecJson::Str(s)),
        None => None,
    });
    assert(spec_get(es, "name"@) == match v.base.name {
        Some(s) => Some(SpecJson::Str(s)),
        None => None,
    });
}

/// Decoding an encoded URI-alternative yields the record back.
pub proof fn lemma_file_with_uri_round_trip(v: SpecFileWithUri)
    ensures
        spec_decode_file_with_uri(spec_encode_file_with_uri(v)) == Ok::<
            SpecFileWithUri,
            SpecDecodeError,
        >(v),
{
    broadcast use crate::codec::lemma_spec_get_concat;

    reveal_with_fuel(spec_get, 3);
    reveal_strlit("uri");
    reveal_strlit("mimeType");
    reveal_strlit("name");
    assert("uri"@.len() == 3);
    assert("mimeType"@.len() == 8);
    assert("name"@.len() == 4);
    let es = file_with_uri_entries(v);
    assert(spec_get(es, "uri"@) == Some(SpecJson::Str(v.uri)));
    assert(spec_get(es, "mimeType"@) == match v.base.mime_type {
        Some(s) => Some(SpecJson::Str(s)),
        None => None,
    });
    assert(spec_get(es, "name"@) == match v.base.name {
        Some(s) => Some(SpecJson::Str(s)),
        None => None,
    });
}

/// Decoding an encoded file-content union yields the same alternative
/// with the same fields: the bytes-alternative always carries a `bytes`
/// key and the URI-alternative never does, so the trial order never picks
/// the wrong alternative.
pub proof fn lemma_file_with_round_trip(v: SpecFileWith)
    ensures
        spec_decode_file_with(spec_encode_file_with(v)) == Ok::<SpecFileWith, SpecDecodeError>(v),
{
    broadcast use crate::codec::lemma_spec_get_concat;

    reveal_with_fuel(spec_get, 3);
    reveal_strlit("bytes");
    reveal_strlit("uri");
    reveal_strlit("mimeType");
    reveal_strlit("name");
    assert("bytes"@.len() == 5);
    assert("uri"@.len() == 3);
    assert("mimeType"@.len() == 8);
    assert("name"@.len() == 4);
    match v {
        SpecFileWith::Bytes(b) => {
            assert(spec_get(file_with_bytes_entries(b), "bytes"@) == Some(SpecJson::Str(b.bytes)));
            lemma_file_with_bytes_round_trip(b);
        },
        SpecFileWith::Uri(u) => {
            assert(spec_get(file_with_uri_entries(u), "bytes"@) is None);
            assert(spec_get(file_with_uri_entries(u), "uri"@) == Some(SpecJson::Str(u.uri)));
            lemma_file_with_uri_round_trip(u);
        },
    }
}

} // verus!
