//! Wire records: the messages as their documents hold them, with every
//! leaf a number, a tag or a string. This is where the schema lives: which
//! keys a document has, in which order, and what is read from each.

use crate::document::{
    distinct_keys, entries_model, json_model, lemma_lookup_first, number_field, number_value,
    object_value, text_field, text_value, value_get, Json,
};
use crate::error::DecodeError;
use crate::tags::{Action, MsgStatus, MsgType, ReType, Status};
use vstd::prelude::*;

verus! {

/// The kind that the `type` field of a document names.
pub open spec fn kind_of(doc: Json) -> Result<ReType, DecodeError> {
    match doc.text_field("type"@) {
        Err(e) => Err(e),
        Ok(s) => match ReType::of_tag(s) {
            None => Err(DecodeError::UnknownTag),
            Some(kind) => Ok(kind),
        },
    }
}

/// Reads the `type` field of a document.
pub fn read_kind(doc: &serde_json::Value) -> (r: Result<ReType, DecodeError>)
    ensures
        r == kind_of(json_model(*doc)),
{
    let s = text_field(doc, "type")?;
    match ReType::from_name(s.as_str()) {
        None => Err(DecodeError::UnknownTag),
        Some(kind) => Ok(kind),
    }
}

/// The action that the `action` field of a document names.
pub open spec fn action_of(doc: Json) -> Result<Action, DecodeError> {
    match doc.text_field("action"@) {
        Err(e) => Err(e),
        Ok(s) => match Action::of_tag(s) {
            None => Err(DecodeError::UnknownTag),
            Some(action) => Ok(action),
        },
    }
}

/// The content type that the `message_type` field of an object names.
pub open spec fn message_type_of(data: Json) -> Result<MsgType, DecodeError> {
    match data.text_field("message_type"@) {
        Err(e) => Err(e),
        Ok(s) => match MsgType::of_tag(s) {
            None => Err(DecodeError::UnknownTag),
            Some(message_type) => Ok(message_type),
        },
    }
}

/// Reads the `action` field of a document.
pub fn read_action(doc: &serde_json::Value) -> (r: Result<Action, DecodeError>)
    ensures
        r == action_of(json_model(*doc)),
{
    let s = text_field(doc, "action")?;
    match Action::from_name(s.as_str()) {
        None => Err(DecodeError::UnknownTag),
        Some(action) => Ok(action),
    }
}

/// Reads the `message_type` field of an object.
pub fn read_message_type(data: &serde_json::Value) -> (r: Result<MsgType, DecodeError>)
    ensures
        r == message_type_of(json_model(*data)),
{
    let s = text_field(data, "message_type")?;
    match MsgType::from_name(s.as_str()) {
        None => Err(DecodeError::UnknownTag),
        Some(message_type) => Ok(message_type),
    }
}

/// A request as its document holds it: the content is still base64 text and
/// the timestamp is still the display string.
#[derive(Clone, Debug, PartialEq, Eq)]
pub struct WireRequest {
    pub action: Action,
    pub message_id: u64,
    pub sender_id: u64,
    pub sender_nickname: String,
    pub message_type: MsgType,
    pub content: String,
    pub receiver: String,
    pub timestamp: String,
}

pub struct WireRequestView {
    pub action: Action,
    pub message_id: u64,
    pub sender_id: u64,
    pub sender_nickname: Seq<char>,
    pub message_type: MsgType,
    pub content: Seq<char>,
    pub receiver: Seq<char>,
    pub timestamp: Seq<char>,
}

impl View for WireRequest {
    type V = WireRequestView;

    open spec fn view(&self) -> WireRequestView {
        WireRequestView {
            action: self.action,
            message_id: self.message_id,
            sender_id: self.sender_id,
            sender_nickname: self.sender_nickname@,
            message_type: self.message_type,
            content: self.content@,
            receiver: self.receiver@,
            timestamp: self.timestamp@,
        }
    }
}

/// The `data` object of a request document.
pub open spec fn request_data(w: WireRequestView) -> Json {
    Json::Object(
        seq![
            ("message_id"@, Json::Number(w.message_id)),
            ("sender_id"@, Json::Number(w.sender_id)),
            ("sender_nickname"@, Json::Text(w.sender_nickname)),
            ("message_type"@, Json::Text(w.message_type.tag())),
            ("content"@, Json::Text(w.content)),
            ("receiver"@, Json::Text(w.receiver)),
            ("timestamp"@, Json::Text(w.timestamp)),
        ],
    )
}

/// The document of a request.
pub open spec fn request_document(w: WireRequestView) -> Json {
    Json::Object(
        seq![
            ("type"@, Json::Text(ReType::Request.tag())),
            ("action"@, Json::Text(w.action.tag())),
            ("data"@, request_data(w)),
        ],
    )
}

/// The request that a `data` object holds, under the action read before.
pub open spec fn request_of_data(action: Action, data: Json) -> Result<
    WireRequestView,
    DecodeError,
> {
    match data.number_field("message_id"@) {
        Err(e) => Err(e),
        Ok(message_id) => match data.number_field("sender_id"@) {
            Err(e) => Err(e),
            Ok(sender_id) => match data.text_field("sender_nickname"@) {
                Err(e) => Err(e),
                Ok(sender_nickname) => match message_type_of(data) {
                    Err(e) => Err(e),
                    Ok(message_type) => match data.text_field("content"@) {
                        Err(e) => Err(e),
                        Ok(content) => match data.text_field("receiver"@) {
                            Err(e) => Err(e),
                            Ok(receiver) => match data.text_field("timestamp"@) {
                                Err(e) => Err(e),
                                Ok(timestamp) => Ok(
                                    WireRequestView {
                                        action,
                                        message_id,
                                        sender_id,
                                        sender_nickname,
                                        message_type,
                                        content,
                                        receiver,
                                        timestamp,
                                    },
                                ),
                            },
                        },
                    },
                },
            },
        },
    }
}

/// The request that a document holds. The fields are read in the order
/// `type`, `action`, `data`, and inside `data` in the order `message_id`,
/// `sender_id`, `sender_nickname`, `message_type`, `content`, `receiver`,
/// `timestamp`; the first one that cannot be read decides the error. Members
/// under other keys are passed over.
pub open spec fn request_of_document(doc: Json) -> Result<WireRequestView, DecodeError> {
    match kind_of(doc) {
        Err(e) => Err(e),
        Ok(ReType::Response) => Err(DecodeError::KindMismatch),
        Ok(ReType::Request) => match action_of(doc) {
            Err(e) => Err(e),
            Ok(action) => match doc.field("data"@) {
                None => Err(DecodeError::MissingField),
                Some(data) => request_of_data(action, data),
            },
        },
    }
}

impl WireRequest {
    /// Builds the document of this request.
    pub fn to_document(&self) -> (doc: serde_json::Value)
        ensures
            json_model(doc) == request_document(self@),
    {
        let mut data: Vec<(String, serde_json::Value)> = Vec::new();
        data.push(("message_id".to_owned(), number_value(self.message_id)));
        data.push(("sender_id".to_owned(), number_value(self.sender_id)));
        data.push(("sender_nickname".to_owned(), text_value(self.sender_nickname.clone())));
        data.push(("message_type".to_owned(), text_value(self.message_type.name().to_owned())));
        data.push(("content".to_owned(), text_value(self.content.clone())));
        data.push(("receiver".to_owned(), text_value(self.receiver.clone())));
        data.push(("timestamp".to_owned(), text_value(self.timestamp.clone())));
        proof {
            lemma_request_keys();
            assert(Json::Object(entries_model(data@)) == request_data(self@)) by {
                assert(entries_model(data@) =~= request_data(self@)->Object_0);
            }
        }
        let mut top: Vec<(String, serde_json::Value)> = Vec::new();
        top.push(("type".to_owned(), text_value(ReType::Request.name().to_owned())));
        top.push(("action".to_owned(), text_value(self.action.name().to_owned())));
        top.push(("data".to_owned(), object_value(data)));
        proof {
            assert(Json::Object(entries_model(top@)) == request_document(self@)) by {
                assert(entries_model(top@) =~= request_document(self@)->Object_0);
            }
        }
        object_value(top)
    }

    /// Reads a request from a document.
    pub fn from_document(doc: &serde_json::Value) -> (r: Result<WireRequest, DecodeError>)
        ensures
            match r {
                Ok(w) => request_of_document(json_model(*doc)) == Ok::<
                    WireRequestView,
                    DecodeError,
                >(w@),
                Err(e) => request_of_document(json_model(*doc)) == Err::<
                    WireRequestView,
                    DecodeError,
                >(e),
            },
    {
        match read_kind(doc)? {
            ReType::Response => { return Err(DecodeError::KindMismatch); },
            ReType::Request => {},
        }
        let action = read_action(doc)?;
        let data = match value_get(doc, "data") {
            None => { return Err(DecodeError::MissingField); },
            Some(data) => data,
        };
        let message_id = number_field(data, "message_id")?;
        let sender_id = number_field(data, "sender_id")?;
        let sender_nickname = text_field(data, "sender_nickname")?;
        let message_type = read_message_type(data)?;
        let content = text_field(data, "content")?;
        let receiver = text_field(data, "receiver")?;
        let timestamp = text_field(data, "timestamp")?;
        Ok(
            WireRequest {
                action,
                message_id,
                sender_id,
                sender_nickname,
                message_type,
                content,
                receiver,
                timestamp,
            },
        )
    }
}

/// The outcome that the `status` field of a document names.
pub open spec fn status_of(doc: Json) -> Result<Status, DecodeError> {
    match doc.text_field("status"@) {
        Err(e) => Err(e),
        Ok(s) => match Status::of_tag(s) {
            None => Err(DecodeError::UnknownTag),
            Some(status) => Ok(status),
        },
    }
}

/// The delivery state that the `message_status` field of an object names.
pub open spec fn message_status_of(data: Json) -> Result<MsgStatus, DecodeError> {
    match data.text_field("message_status"@) {
        Err(e) => Err(e),
        Ok(s) => match MsgStatus::of_tag(s) {
            None => Err(DecodeError::UnknownTag),
            Some(state) => Ok(state),
        },
    }
}

/// Reads the `status` field of a document.
pub fn read_status(doc: &serde_json::Value) -> (r: Result<Status, DecodeError>)
    ensures
        r == status_of(json_model(*doc)),
{
    let s = text_field(doc, "status")?;
    match Status::from_name(s.as_str()) {
        None => Err(DecodeError::UnknownTag),
        Some(status) => Ok(status),
    }
}

/// Reads the `message_status` field of an object.
pub fn read_message_status(data: &serde_json::Value) -> (r: Result<MsgStatus, DecodeError>)
    ensures
        r == message_status_of(json_model(*data)),
{
    let s = text_field(data, "message_status")?;
    match MsgStatus::from_name(s.as_str()) {
        None => Err(DecodeError::UnknownTag),
        Some(state) => Ok(state),
    }
}

/// A response as its document holds it: the timestamp is still the display
/// string.
#[derive(Clone, Debug, PartialEq, Eq)]
pub struct WireResponse {
    pub status: Status,
    pub message_id: u64,
    pub message_status: MsgStatus,
    pub timestamp: String,
}

pub struct WireResponseView {
    pub status: Status,
    pub message_id: u64,
    pub message_status: MsgStatus,
    pub timestamp: Seq<char>,
}

impl View for WireResponse {
    type V = WireResponseView;

    open spec fn view(&self) -> WireResponseView {
        WireResponseView {
            status: self.status,
            message_id: self.message_id,
            message_status: self.message_status,
            timestamp: self.timestamp@,
        }
    }
}

/// The `data` object of a response document.
pub open spec fn response_data(w: WireResponseView) -> Json {
    Json::Object(
        seq![
            ("message_id"@, Json::Number(w.message_id)),
            ("message_status"@, Json::Text(w.message_status.tag())),
            ("timestamp"@, Json::Text(w.timestamp)),
        ],
    )
}

/// The document of a response.
pub open spec fn response_document(w: WireResponseView) -> Json {
    Json::Object(
        seq![
            ("type"@, Json::Text(ReType::Response.tag())),
            ("status"@, Json::Text(w.status.tag())),
            ("data"@, response_data(w)),
        ],
    )
}

/// The response that a `data` object holds, under the outcome read before.
pub open spec fn response_of_data(status: Status, data: Json) -> Result<
    WireResponseView,
    DecodeError,
> {
    match data.number_field("message_id"@) {
        Err(e) => Err(e),
        Ok(message_id) => match message_status_of(data) {
            Err(e) => Err(e),
            Ok(message_status) => match data.text_field("timestamp"@) {
                Err(e) => Err(e),
                Ok(timestamp) => Ok(
                    WireResponseView { status, message_id, message_status, timestamp },
                ),
            },
        },
    }
}

/// The response that a document holds. The fields are read in the order
/// `type`, `status`, `data`, and inside `data` in the order `message_id`,
/// `message_status`, `timestamp`; the first one that cannot be read decides
/// the error. Members under other keys are passed over.
pub open spec fn response_of_document(doc: Json) -> Result<WireResponseView, DecodeError> {
    match kind_of(doc) {
        Err(e) => Err(e),
        Ok(ReType::Request) => Err(DecodeError::KindMismatch),
        Ok(ReType::Response) => match status_of(doc) {
            Err(e) => Err(e),
            Ok(status) => match doc.field("data"@) {
                None => Err(DecodeError::MissingField),
                Some(data) => response_of_data(status, data),
            },
        },
    }
}

impl WireResponse {
    /// Builds the document of this response.
    pub fn to_document(&self) -> (doc: serde_json::Value)
        ensures
            json_model(doc) == response_document(self@),
    {
        let mut data: Vec<(String, serde_json::Value)> = Vec::new();
        data.push(("message_id".to_owned(), number_value(self.message_id)));
        data.push(("message_status".to_owned(), text_value(self.message_status.name().to_owned())));
        data.push(("timestamp".to_owned(), text_value(self.timestamp.clone())));
        proof {
            lemma_response_keys();
            assert(Json::Object(entries_model(data@)) == response_data(self@)) by {
                assert(entries_model(data@) =~= response_data(self@)->Object_0);
            }
        }
        let mut top: Vec<(String, serde_json::Value)> = Vec::new();
        top.push(("type".to_owned(), text_value(ReType::Response.name().to_owned())));
        top.push(("status".to_owned(), text_value(self.status.name().to_owned())));
        top.push(("data".to_owned(), object_value(data)));
        proof {
            assert(Json::Object(entries_model(top@)) == response_document(self@)) by {
                assert(entries_model(top@) =~= response_document(self@)->Object_0);
            }
        }
        object_value(top)
    }

    /// Reads a response from a document.
    pub fn from_document(doc: &serde_json::Value) -> (r: Result<WireResponse, DecodeError>)
        ensures
            match r {
                Ok(w) => response_of_document(json_model(*doc)) == Ok::<
                    WireResponseView,
                    DecodeError,
                >(w@),
                Err(e) => response_of_document(json_model(*doc)) == Err::<
                    WireResponseView,
                    DecodeError,
                >(e),
            },
    {
        match read_kind(doc)? {
            ReType::Request => { return Err(DecodeError::KindMismatch); },
            ReType::Response => {},
        }
        let status = read_status(doc)?;
        let data = match value_get(doc, "data") {
            None => { return Err(DecodeError::MissingField); },
            Some(data) => data,
        };
        let message_id = number_field(data, "message_id")?;
        let message_status = read_message_status(data)?;
        let timestamp = text_field(data, "timestamp")?;
        Ok(WireResponse { status, message_id, message_status, timestamp })
    }
}

/// The keys of a request document differ from one another, level by level.
proof fn lemma_request_keys()
    ensures
        forall|w: WireRequestView| distinct_keys(#[trigger] request_data(w)->Object_0),
        forall|w: WireRequestView| distinct_keys(#[trigger] request_document(w)->Object_0),
{
    reveal_strlit("type");
    reveal_strlit("action");
    reveal_strlit("data");
    reveal_strlit("message_id");
    reveal_strlit("sender_id");
    reveal_strlit("sender_nickname");
    reveal_strlit("message_type");
    reveal_strlit("content");
    reveal_strlit("receiver");
    reveal_strlit("timestamp");
    assert("type"@.len() == 4 && "action"@.len() == 6 && "data"@.len() == 4);
    assert("type"@[0] == 't' && "data"@[0] == 'd');
    assert("message_id"@.len() == 10 && "sender_id"@.len() == 9 && "sender_nickname"@.len() == 15);
    assert("message_type"@.len() == 12 && "content"@.len() == 7 && "receiver"@.len() == 8);
    assert("timestamp"@.len() == 9);
    assert("sender_id"@[0] == 's' && "timestamp"@[0] == 't');
}

/// The document of a request is one that its text carries whole.
pub proof fn lemma_request_document_faithful(w: WireRequestView)
    ensures
        request_document(w).faithful(2),
{
    lemma_request_keys();
    reveal_with_fuel(Json::faithful, 3);
}

/// Reading the document of a request gives the request back.
pub proof fn lemma_request_document_round_trip(w: WireRequestView)
    ensures
        request_of_document(request_document(w)) == Ok::<WireRequestView, DecodeError>(w),
{
    lemma_request_keys();
    let top = request_document(w)->Object_0;
    let data = request_data(w)->Object_0;
    lemma_lookup_first(top, 0);
    lemma_lookup_first(top, 1);
    lemma_lookup_first(top, 2);
    lemma_lookup_first(data, 0);
    lemma_lookup_first(data, 1);
    lemma_lookup_first(data, 2);
    lemma_lookup_first(data, 3);
    lemma_lookup_first(data, 4);
    lemma_lookup_first(data, 5);
    lemma_lookup_first(data, 6);
    ReType::lemma_tag_round_trip(ReType::Request, ReType::Request.tag());
    Action::lemma_tag_round_trip(w.action, w.action.tag());
    MsgType::lemma_tag_round_trip(w.message_type, w.message_type.tag());
}

/// The keys of a response document differ from one another, level by level.
proof fn lemma_response_keys()
    ensures
        forall|w: WireResponseView| distinct_keys(#[trigger] response_data(w)->Object_0),
        forall|w: WireResponseView| distinct_keys(#[trigger] response_document(w)->Object_0),
{
    reveal_strlit("type");
    reveal_strlit("status");
    reveal_strlit("data");
    reveal_strlit("message_id");
    reveal_strlit("message_status");
    reveal_strlit("timestamp");
    assert("type"@.len() == 4 && "status"@.len() == 6 && "data"@.len() == 4);
    assert("type"@[0] == 't' && "data"@[0] == 'd');
    assert("message_id"@.len() == 10 && "message_status"@.len() == 14 && "timestamp"@.len() == 9);
}

/// The document of a response is one that its text carries whole.
pub proof fn lemma_response_document_faithful(w: WireResponseView)
    ensures
        response_document(w).faithful(2),
{
    lemma_response_keys();
    reveal_with_fuel(Json::faithful, 3);
}

/// Reading the document of a response gives the response back.
pub proof fn lemma_response_document_round_trip(w: WireResponseView)
    ensures
        response_of_document(response_document(w)) == Ok::<WireResponseView, DecodeError>(w),
{
    lemma_response_keys();
    let top = response_document(w)->Object_0;
    let data = response_data(w)->Object_0;
    lemma_lookup_first(top, 0);
    lemma_lookup_first(top, 1);
    lemma_lookup_first(top, 2);
    lemma_lookup_first(data, 0);
    lemma_lookup_first(data, 1);
    lemma_lookup_first(data, 2);
    ReType::lemma_tag_round_trip(ReType::Response, ReType::Response.tag());
    Status::lemma_tag_round_trip(w.status, w.status.tag());
    MsgStatus::lemma_tag_round_trip(w.message_status, w.message_status.tag());
}

/// A document whose `type` field holds a string that names neither kind is
/// read neither as a request nor as a response.
pub proof fn lemma_unrecognized_kind_rejected(doc: Json, kind: Seq<char>)
    requires
        doc.field("type"@) == Some(Json::Text(kind)),
        ReType::of_tag(kind) is None,
    ensures
        request_of_document(doc) == Err::<WireRequestView, DecodeError>(DecodeError::UnknownTag),
        response_of_document(doc) == Err::<WireResponseView, DecodeError>(
            DecodeError::UnknownTag,
        ),
{
}

/// A document whose `data` object holds under `message_type` a string that
/// names no content type is not read as a request.
pub proof fn lemma_unknown_message_type_rejected(doc: Json, data: Json, message_type: Seq<char>)
    requires
        doc.field("data"@) == Some(data),
        data.field("message_type"@) == Some(Json::Text(message_type)),
        MsgType::of_tag(message_type) is None,
    ensures
        request_of_document(doc) is Err,
        forall|action: Action| #[trigger] request_of_data(action, data) is Err,
{
}

} // verus!
