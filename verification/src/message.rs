//! The two messages of the protocol and their JSON codec.
//!
//! A message is written in three steps: its content and its timestamp are
//! put into their text forms, the wire record so made becomes a document,
//! and the document is printed. It is read by the same steps in reverse.

use crate::content::{base64_bytes, base64_text, decode_base64, encode_base64};
use crate::document::{json_parse, json_text, parse_document, print_document, Json};
use crate::error::{DecodeError, EncodeError};
use crate::tags::{Action, MsgStatus, MsgType, ReType, Status};
use crate::timestamp::Timestamp;
use crate::wire::{
    lemma_request_document_round_trip, lemma_request_document_faithful,
    lemma_response_document_round_trip, lemma_response_document_faithful,
    lemma_unknown_message_type_rejected, lemma_unrecognized_kind_rejected, request_document,
    request_of_document, response_document, response_of_document, WireRequest, WireRequestView,
    WireResponse, WireResponseView,
};
use vstd::pervasive::unreached;
use vstd::prelude::*;

verus! {

/// The payload of a request.
#[derive(Clone, Debug, PartialEq, Eq)]
pub struct ReqData {
    pub message_id: u64,
    pub sender_id: u64,
    pub sender_nickname: String,
    pub message_type: MsgType,
    pub content: Vec<u8>,
    pub receiver: String,
    pub timestamp: Timestamp,
}

/// A message from a client to the server.
#[derive(Clone, Debug, PartialEq, Eq)]
pub struct Request {
    pub m_type: ReType,
    pub action: Action,
    pub data: ReqData,
}

/// The payload of a response.
#[derive(Clone, Copy, Debug, PartialEq, Eq)]
pub struct ResData {
    pub message_id: u64,
    pub message_status: MsgStatus,
    pub timestamp: Timestamp,
}

/// A message from the server to a client.
#[derive(Clone, Copy, Debug, PartialEq, Eq)]
pub struct Response {
    pub m_type: ReType,
    pub status: Status,
    pub data: ResData,
}

pub struct ReqDataView {
    pub message_id: u64,
    pub sender_id: u64,
    pub sender_nickname: Seq<char>,
    pub message_type: MsgType,
    pub content: Seq<u8>,
    pub receiver: Seq<char>,
    pub timestamp: Timestamp,
}

pub struct RequestView {
    pub m_type: ReType,
    pub action: Action,
    pub data: ReqDataView,
}

impl View for ReqData {
    type V = ReqDataView;

    open spec fn view(&self) -> ReqDataView {
        ReqDataView {
            message_id: self.message_id,
            sender_id: self.sender_id,
            sender_nickname: self.sender_nickname@,
            message_type: self.message_type,
            content: self.content@,
            receiver: self.receiver@,
            timestamp: self.timestamp,
        }
    }
}

impl View for Request {
    type V = RequestView;

    open spec fn view(&self) -> RequestView {
        RequestView { m_type: self.m_type, action: self.action, data: self.data@ }
    }
}

/// The bytes that were read, if any were.
pub open spec fn bytes_read(content: Option<Vec<u8>>) -> Option<Seq<u8>> {
    match content {
        Some(bytes) => Some(bytes@),
        None => None,
    }
}

impl RequestView {
    /// What keeps a request from being written, if anything does.
    pub open spec fn encode_error(self) -> Option<EncodeError> {
        if self.m_type != ReType::Request {
            Some(EncodeError::KindMismatch)
        } else if !self.data.timestamp.valid() {
            Some(EncodeError::TimestampOutOfRange)
        } else {
            None
        }
    }

    /// The request carries the tag of its own kind and a valid timestamp.
    pub open spec fn wf(self) -> bool {
        self.m_type == ReType::Request && self.data.timestamp.valid()
    }

    /// The request as its document holds it.
    pub open spec fn wire(self) -> WireRequestView {
        WireRequestView {
            action: self.action,
            message_id: self.data.message_id,
            sender_id: self.data.sender_id,
            sender_nickname: self.data.sender_nickname,
            message_type: self.data.message_type,
            content: base64_text(self.data.content),
            receiver: self.data.receiver,
            timestamp: self.data.timestamp.text(),
        }
    }

    /// The text of the request.
    pub open spec fn text(self) -> Seq<char> {
        json_text(request_document(self.wire()))
    }

    /// The request that a wire record makes with what was read of its
    /// content and of its timestamp. Unreadable content is found before an
    /// unreadable timestamp.
    pub open spec fn assembled(
        w: WireRequestView,
        content: Option<Seq<u8>>,
        timestamp: Option<Timestamp>,
    ) -> Result<RequestView, DecodeError> {
        match (content, timestamp) {
            (None, _) => Err(DecodeError::BadContent),
            (Some(_), None) => Err(DecodeError::BadTimestamp),
            (Some(content), Some(timestamp)) => Ok(
                RequestView {
                    m_type: ReType::Request,
                    action: w.action,
                    data: ReqDataView {
                        message_id: w.message_id,
                        sender_id: w.sender_id,
                        sender_nickname: w.sender_nickname,
                        message_type: w.message_type,
                        content,
                        receiver: w.receiver,
                        timestamp,
                    },
                },
            ),
        }
    }

    /// The request that a wire record stands for.
    pub open spec fn of_wire(w: WireRequestView) -> Result<RequestView, DecodeError> {
        RequestView::assembled(w, base64_bytes(w.content), Timestamp::of_text(w.timestamp))
    }

    /// The request that a text stands for.
    pub open spec fn of_text(text: Seq<char>) -> Result<RequestView, DecodeError> {
        match json_parse(text) {
            None => Err(DecodeError::Syntax),
            Some(doc) => match request_of_document(doc) {
                Err(e) => Err(e),
                Ok(w) => RequestView::of_wire(w),
            },
        }
    }
}

impl Request {
    /// Whether the request is well formed.
    pub fn is_wf(&self) -> (r: bool)
        ensures
            r == self@.wf(),
    {
        match self.m_type {
            ReType::Request => self.data.timestamp.is_valid(),
            ReType::Response => false,
        }
    }

    /// Puts the request into the form its document holds.
    pub fn to_wire(&self) -> (r: Result<WireRequest, EncodeError>)
        ensures
            match r {
                Ok(w) => self@.wf() && w@ == self@.wire(),
                Err(e) => self@.encode_error() == Some(e),
            },
    {
        match self.m_type {
            ReType::Response => Err(EncodeError::KindMismatch),
            ReType::Request => match self.data.timestamp.to_text() {
                None => Err(EncodeError::TimestampOutOfRange),
                Some(timestamp) => Ok(
                    WireRequest {
                        action: self.action,
                        message_id: self.data.message_id,
                        sender_id: self.data.sender_id,
                        sender_nickname: self.data.sender_nickname.clone(),
                        message_type: self.data.message_type,
                        content: encode_base64(&self.data.content),
                        receiver: self.data.receiver.clone(),
                        timestamp,
                    },
                ),
            },
        }
    }

    /// Puts a request together from its wire record and from what was read
    /// of the record's content and timestamp.
    pub fn assemble(w: WireRequest, content: Option<Vec<u8>>, timestamp: Option<Timestamp>) -> (r:
        Result<Request, DecodeError>)
        ensures
            match r {
                Ok(q) => RequestView::assembled(w@, bytes_read(content), timestamp) == Ok::<
                    RequestView,
                    DecodeError,
                >(q@),
                Err(e) => RequestView::assembled(w@, bytes_read(content), timestamp) == Err::<
                    RequestView,
                    DecodeError,
                >(e),
            },
    {
        match (content, timestamp) {
            (None, _) => Err(DecodeError::BadContent),
            (Some(_), None) => Err(DecodeError::BadTimestamp),
            (Some(content), Some(timestamp)) => Ok(
                Request {
                    m_type: ReType::Request,
                    action: w.action,
                    data: ReqData {
                        message_id: w.message_id,
                        sender_id: w.sender_id,
                        sender_nickname: w.sender_nickname,
                        message_type: w.message_type,
                        content,
                        receiver: w.receiver,
                        timestamp,
                    },
                },
            ),
        }
    }

    /// Reads a request from the form its document holds. The wire form of a
    /// well-formed request is read back as that request.
    pub fn from_wire(w: WireRequest) -> (r: Result<Request, DecodeError>)
        ensures
            match r {
                Ok(q) => RequestView::of_wire(w@) == Ok::<RequestView, DecodeError>(q@) && q@.wf(),
                Err(e) => RequestView::of_wire(w@) == Err::<RequestView, DecodeError>(e),
            },
            forall|v: RequestView|
                v.wf() && w@ == #[trigger] v.wire() ==> (match r {
                    Ok(q) => q@ == v,
                    Err(_) => false,
                }),
    {
        let content = decode_base64(w.content.as_str());
        let timestamp = Timestamp::from_text(w.timestamp.as_str());
        Request::assemble(w, content, timestamp)
    }

    /// Writes the request as a JSON text. Every well-formed request has one;
    /// the error says what keeps another from having one.
    pub fn to_json(&self) -> (r: Result<String, EncodeError>)
        ensures
            match r {
                Ok(s) => self@.wf() && s@ == self@.text(),
                Err(e) => self@.encode_error() == Some(e),
            },
    {
        match self.to_wire() {
            Err(e) => Err(e),
            Ok(wire) => {
                let doc = wire.to_document();
                proof {
                    lemma_request_document_faithful(wire@);
                }
                match print_document(&doc) {
                    Some(s) => Ok(s),
                    None => unreached(),
                }
            },
        }
    }

    /// Reads a request from a JSON text. The text of a well-formed request
    /// is read back as that request.
    pub fn from_json(text: &str) -> (r: Result<Request, DecodeError>)
        ensures
            match r {
                Ok(q) => RequestView::of_text(text@) == Ok::<RequestView, DecodeError>(q@) && q@.wf(),
                Err(e) => RequestView::of_text(text@) == Err::<RequestView, DecodeError>(e),
            },
            forall|v: RequestView|
                v.wf() && text@ == #[trigger] v.text() ==> (match r {
                    Ok(q) => q@ == v,
                    Err(_) => false,
                }),
    {
        proof {
            assert forall|v: RequestView| #[trigger] request_document(v.wire()).faithful(2) by {
                lemma_request_document_faithful(v.wire());
            }
            assert forall|v: RequestView|
                request_of_document(#[trigger] request_document(v.wire())) == Ok::<
                    WireRequestView,
                    DecodeError,
                >(v.wire()) by {
                lemma_request_document_round_trip(v.wire());
            }
        }
        match parse_document(text) {
            None => Err(DecodeError::Syntax),
            Some(doc) => match WireRequest::from_document(&doc) {
                Err(e) => Err(e),
                Ok(wire) => Request::from_wire(wire),
            },
        }
    }
}

impl Response {
    /// What keeps a response from being written, if anything does.
    pub open spec fn encode_error(self) -> Option<EncodeError> {
        if self.m_type != ReType::Response {
            Some(EncodeError::KindMismatch)
        } else if !self.data.timestamp.valid() {
            Some(EncodeError::TimestampOutOfRange)
        } else {
            None
        }
    }

    /// The response carries the tag of its own kind and a valid timestamp.
    pub open spec fn wf(self) -> bool {
        self.m_type == ReType::Response && self.data.timestamp.valid()
    }

    /// The response as its document holds it.
    pub open spec fn wire(self) -> WireResponseView {
        WireResponseView {
            status: self.status,
            message_id: self.data.message_id,
            message_status: self.data.message_status,
            timestamp: self.data.timestamp.text(),
        }
    }

    /// The text of the response.
    pub open spec fn text(self) -> Seq<char> {
        json_text(response_document(self.wire()))
    }

    /// The response that a wire record makes with what was read of its
    /// timestamp.
    pub open spec fn assembled(w: WireResponseView, timestamp: Option<Timestamp>) -> Result<
        Response,
        DecodeError,
    > {
        match timestamp {
            None => Err(DecodeError::BadTimestamp),
            Some(timestamp) => Ok(
                Response {
                    m_type: ReType::Response,
                    status: w.status,
                    data: ResData {
                        message_id: w.message_id,
                        message_status: w.message_status,
                        timestamp,
                    },
                },
            ),
        }
    }

    /// The response that a wire record stands for.
    pub open spec fn of_wire(w: WireResponseView) -> Result<Response, DecodeError> {
        Response::assembled(w, Timestamp::of_text(w.timestamp))
    }

    /// The response that a text stands for.
    pub open spec fn of_text(text: Seq<char>) -> Result<Response, DecodeError> {
        match json_parse(text) {
            None => Err(DecodeError::Syntax),
            Some(doc) => match response_of_document(doc) {
                Err(e) => Err(e),
                Ok(w) => Response::of_wire(w),
            },
        }
    }

    /// Whether the response is well formed.
    pub fn is_wf(&self) -> (r: bool)
        ensures
            r == self.wf(),
    {
        match self.m_type {
            ReType::Response => self.data.timestamp.is_valid(),
            ReType::Request => false,
        }
    }

    /// Puts the response into the form its document holds.
    pub fn to_wire(&self) -> (r: Result<WireResponse, EncodeError>)
        ensures
            match r {
                Ok(w) => self.wf() && w@ == self.wire(),
                Err(e) => self.encode_error() == Some(e),
            },
    {
        match self.m_type {
            ReType::Request => Err(EncodeError::KindMismatch),
            ReType::Response => match self.data.timestamp.to_text() {
                None => Err(EncodeError::TimestampOutOfRange),
                Some(timestamp) => Ok(
                    WireResponse {
                        status: self.status,
                        message_id: self.data.message_id,
                        message_status: self.data.message_status,
                        timestamp,
                    },
                ),
            },
        }
    }

    /// Puts a response together from its wire record and from what was read
    /// of the record's timestamp.
    pub fn assemble(w: WireResponse, timestamp: Option<Timestamp>) -> (r: Result<
        Response,
        DecodeError,
    >)
        ensures
            r == Response::assembled(w@, timestamp),
    {
        match timestamp {
            None => Err(DecodeError::BadTimestamp),
            Some(timestamp) => Ok(
                Response {
                    m_type: ReType::Response,
                    status: w.status,
                    data: ResData {
                        message_id: w.message_id,
                        message_status: w.message_status,
                        timestamp,
                    },
                },
            ),
        }
    }

    /// Reads a response from the form its document holds. The wire form of
    /// a well-formed response is read back as that response.
    pub fn from_wire(w: WireResponse) -> (r: Result<Response, DecodeError>)
        ensures
            r == Response::of_wire(w@),
            r matches Ok(q) ==> q.wf(),
            forall|v: Response|
                v.wf() && w@ == #[trigger] v.wire() ==> r == Ok::<Response, DecodeError>(v),
    {
        let timestamp = Timestamp::from_text(w.timestamp.as_str());
        Response::assemble(w, timestamp)
    }

    /// Writes the response as a JSON text. Every well-formed response has
    /// one; the error says what keeps another from having one.
    pub fn to_json(&self) -> (r: Result<String, EncodeError>)
        ensures
            match r {
                Ok(s) => self.wf() && s@ == self.text(),
                Err(e) => self.encode_error() == Some(e),
            },
    {
        match self.to_wire() {
            Err(e) => Err(e),
            Ok(wire) => {
                let doc = wire.to_document();
                proof {
                    lemma_response_document_faithful(wire@);
                }
                match print_document(&doc) {
                    Some(s) => Ok(s),
                    None => unreached(),
                }
            },
        }
    }

    /// Reads a response from a JSON text. The text of a well-formed response
    /// is read back as that response.
    pub fn from_json(text: &str) -> (r: Result<Response, DecodeError>)
        ensures
            r == Response::of_text(text@),
            r matches Ok(q) ==> q.wf(),
            forall|v: Response| v.wf() && text@ == #[trigger] v.text() ==> r == Ok::<Response, DecodeError>(v),
    {
        proof {
            assert forall|v: Response| #[trigger] response_document(v.wire()).faithful(2) by {
                lemma_response_document_faithful(v.wire());
            }
            assert forall|v: Response|
                response_of_document(#[trigger] response_document(v.wire())) == Ok::<
                    WireResponseView,
                    DecodeError,
                >(v.wire()) by {
                lemma_response_document_round_trip(v.wire());
            }
        }
        match parse_document(text) {
            None => Err(DecodeError::Syntax),
            Some(doc) => match WireResponse::from_document(&doc) {
                Err(e) => Err(e),
                Ok(wire) => Response::from_wire(wire),
            },
        }
    }
}

/// A text that holds a document whose `type` field is a string that names
/// neither kind is read neither as a request nor as a response.
pub proof fn lemma_text_of_unrecognized_kind_rejected(text: Seq<char>)
    ensures
        (json_parse(text) matches Some(doc) && doc.field("type"@) matches Some(Json::Text(kind))
            && ReType::of_tag(kind) is None) ==> RequestView::of_text(text) == Err::<
            RequestView,
            DecodeError,
        >(DecodeError::UnknownTag) && Response::of_text(text) == Err::<Response, DecodeError>(
            DecodeError::UnknownTag,
        ),
{
    if let Some(doc) = json_parse(text) {
        if let Some(Json::Text(kind)) = doc.field("type"@) {
            if ReType::of_tag(kind) is None {
                lemma_unrecognized_kind_rejected(doc, kind);
            }
        }
    }
}

/// A text that holds a document whose `data` object has under `message_type`
/// a string that names no content type is not read as a request.
pub proof fn lemma_text_of_unknown_message_type_rejected(text: Seq<char>)
    ensures
        (json_parse(text) matches Some(doc) && doc.field("data"@) matches Some(data)
            && data.field("message_type"@) matches Some(Json::Text(message_type))
            && MsgType::of_tag(message_type) is None) ==> RequestView::of_text(text) is Err,
{
    if let Some(doc) = json_parse(text) {
        if let Some(data) = doc.field("data"@) {
            if let Some(Json::Text(message_type)) = data.field("message_type"@) {
                if MsgType::of_tag(message_type) is None {
                    lemma_unknown_message_type_rejected(doc, data, message_type);
                }
            }
        }
    }
}

} // verus!
