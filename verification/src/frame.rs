//! Frames as they travel on the bus, and the cache ingestor's decision for
//! each received message.

use vstd::prelude::*;
use crate::json::{doc, parsed, Document};
use crate::json::{as_text, as_unsigned, is_null, member, parse};
use crate::denormalize::{denormalize, denormalized, writes_of, CacheWrite, WriteModel};

verus! {

/// The opcode of a frame that carries a named event.
pub const DISPATCH: u16 = 0;

/// One message of the gateway protocol, as a mathematical value.
pub struct FrameModel {
    pub op: u16,
    pub event_type: Option<Seq<char>>,
    pub data: Document,
}

/// One message of the gateway protocol.
#[derive(Debug, Clone, PartialEq)]
pub struct Frame {
    pub op: u16,
    pub event_type: Option<String>,
    pub data: serde_json::Value,
}

impl View for Frame {
    type V = FrameModel;

    open spec fn view(&self) -> FrameModel {
        FrameModel {
            op: self.op,
            event_type: match self.event_type {
                Some(t) => Some(t@),
                None => None,
            },
            data: doc(self.data),
        }
    }
}

impl FrameModel {
    /// A dispatch frame names its event.
    pub open spec fn well_formed(self) -> bool {
        self.op == DISPATCH ==> self.event_type is Some && self.event_type.unwrap().len() > 0
    }
}

/// Why a message is no frame.
#[derive(Debug, Clone, Copy, PartialEq, Eq)]
pub enum DecodeError {
    /// The text is no JSON document.
    Syntax,
    /// `op` is missing, or no integer from 0 to 65535.
    Opcode,
    /// `t` is neither a string nor null, or a dispatch frame names no event.
    EventType,
    /// `d` is missing.
    Data,
}

/// The opcode that a document carries under `op`.
pub open spec fn opcode_of(d: Document) -> Option<u16> {
    match d.unsigned_field("op"@) {
        Some(n) => if n <= 0xffff {
            Some(n as u16)
        } else {
            None
        },
        None => None,
    }
}

/// The event name that a document carries under `t`: none where the field is
/// missing or null, an error where it is anything but a string.
pub open spec fn event_type_of(d: Document) -> Result<Option<Seq<char>>, DecodeError> {
    match d.field("t"@) {
        None => Ok(None),
        Some(Document::Null) => Ok(None),
        Some(Document::Text(s)) => Ok(Some(s)),
        Some(_) => Err(DecodeError::EventType),
    }
}

/// The frame that a document stands for.
pub open spec fn frame_of(d: Document) -> Result<FrameModel, DecodeError> {
    match opcode_of(d) {
        None => Err(DecodeError::Opcode),
        Some(op) => match event_type_of(d) {
            Err(e) => Err(e),
            Ok(t) => if op == DISPATCH && (t is None || t.unwrap().len() == 0) {
                Err(DecodeError::EventType)
            } else {
                match d.field("d"@) {
                    None => Err(DecodeError::Data),
                    Some(data) => Ok(FrameModel { op, event_type: t, data }),
                }
            },
        },
    }
}

/// The frame that a parsed message stands for.
pub open spec fn decoded(p: Option<Document>) -> Result<FrameModel, DecodeError> {
    match p {
        None => Err(DecodeError::Syntax),
        Some(d) => frame_of(d),
    }
}

/// Reads a frame out of a JSON document: the opcode under `op`, the event
/// name under `t`, the payload under `d`. Other members are ignored.
pub fn frame_from_document(v: &serde_json::Value) -> (r: Result<Frame, DecodeError>)
    ensures
        match r {
            Ok(f) => frame_of(doc(*v)) == Ok::<FrameModel, DecodeError>(f@) && f@.well_formed(),
            Err(e) => frame_of(doc(*v)) == Err::<FrameModel, DecodeError>(e),
        },
{
    let op: u16 = match member(v, "op") {
        Some(x) => match as_unsigned(x) {
            Some(n) => if n <= 0xffff {
                n as u16
            } else {
                return Err(DecodeError::Opcode);
            },
            None => {
                return Err(DecodeError::Opcode);
            },
        },
        None => {
            return Err(DecodeError::Opcode);
        },
    };
    let event_type: Option<String> = match member(v, "t") {
        None => None,
        Some(x) => match as_text(x) {
            Some(s) => Some(s.to_owned()),
            None => if is_null(x) {
                None
            } else {
                return Err(DecodeError::EventType);
            },
        },
    };
    let named = match &event_type {
        Some(t) => t.as_str().unicode_len() > 0,
        None => false,
    };
    if op == DISPATCH && !named {
        return Err(DecodeError::EventType);
    }
    match member(v, "d") {
        None => Err(DecodeError::Data),
        Some(data) => Ok(Frame { op, event_type, data: data.clone() }),
    }
}

/// Decodes one message of the bus as a frame.
pub fn decode_frame(text: &str) -> (r: Result<Frame, DecodeError>)
    ensures
        match r {
            Ok(f) => decoded(parsed(text@)) == Ok::<FrameModel, DecodeError>(f@)
                && f@.well_formed(),
            Err(e) => decoded(parsed(text@)) == Err::<FrameModel, DecodeError>(e),
        },
{
    match parse(text) {
        Ok(v) => frame_from_document(&v),
        Err(_) => Err(DecodeError::Syntax),
    }
}

/// What the ingestor does with one message, as a mathematical value.
pub enum IngestModel {
    Writes(Seq<WriteModel>),
    Unhandled(u16),
    Malformed,
    Undecodable(DecodeError),
}

/// What the ingestor does with one message.
#[derive(Debug, Clone, PartialEq)]
pub enum Ingest {
    /// A dispatched event: its cache writes, to be applied in order.
    Writes(Vec<CacheWrite>),
    /// A frame that is no dispatch; nothing is written.
    Unhandled(u16),
    /// A dispatched event whose payload lacks a field; the event is dropped.
    Malformed,
    /// A message that is no frame; the message is dropped.
    Undecodable(DecodeError),
}

impl View for Ingest {
    type V = IngestModel;

    open spec fn view(&self) -> IngestModel {
        match self {
            Ingest::Writes(ws) => IngestModel::Writes(writes_of(ws@)),
            Ingest::Unhandled(op) => IngestModel::Unhandled(*op),
            Ingest::Malformed => IngestModel::Malformed,
            Ingest::Undecodable(e) => IngestModel::Undecodable(*e),
        }
    }
}

/// The ingestor's decision for a frame: only a dispatch reaches the engine.
pub open spec fn dispatched(f: FrameModel) -> IngestModel {
    if f.op == DISPATCH {
        match f.event_type {
            Some(t) => match denormalized(t, f.data) {
                Some(ws) => IngestModel::Writes(ws),
                None => IngestModel::Malformed,
            },
            None => IngestModel::Malformed,
        }
    } else {
        IngestModel::Unhandled(f.op)
    }
}

/// The ingestor's decision for a parsed message.
pub open spec fn ingested(p: Option<Document>) -> IngestModel {
    match decoded(p) {
        Ok(f) => dispatched(f),
        Err(e) => IngestModel::Undecodable(e),
    }
}

/// Decides what one frame does to the cache.
pub fn handle_dispatch(frame: &Frame) -> (r: Ingest)
    ensures
        r@ == dispatched(frame@),
{
    if frame.op == DISPATCH {
        match &frame.event_type {
            Some(t) => match denormalize(t.as_str(), &frame.data) {
                Ok(ws) => Ingest::Writes(ws),
                Err(_) => Ingest::Malformed,
            },
            None => Ingest::Malformed,
        }
    } else {
        Ingest::Unhandled(frame.op)
    }
}

/// Decides what one message of the bus does to the cache: decodes it as a
/// frame and hands a dispatch to the engine.
pub fn handle_payload(payload: &str) -> (r: Ingest)
    ensures
        r@ == ingested(parsed(payload@)),
{
    match decode_frame(payload) {
        Ok(frame) => handle_dispatch(&frame),
        Err(e) => Ingest::Undecodable(e),
    }
}

} // verus!
