//! The two envelope shapes in which a bridge wraps its answers, and how each is read into a
//! payload or an error.
//!
//! A legacy answer is a single element, a list of elements, or a list of error entries; the
//! JSON decoder picks the first of these that the answer fits. Lists are a compatibility
//! quirk: when one holds several entries, the last one wins. A resource-oriented answer
//! carries a list of errors and a list of data.
use vstd::prelude::*;
use crate::error::HueError;

verus! {

/// The body of a legacy error entry.
#[derive(Debug, Clone)]
pub struct BridgeErrorInner {
    pub address: String,
    pub description: String,
    /// The numeric error code (`type` on the wire).
    pub code: usize,
}

/// A legacy error entry: `{"error": {...}}`.
#[derive(Debug, Clone)]
pub struct ErrorEnvelope {
    pub error: BridgeErrorInner,
}

/// A legacy success entry: `{"success": ...}`.
#[derive(Debug, Clone)]
pub struct SuccessResponse<T> {
    pub success: T,
}

/// What a successful registration hands back.
#[derive(Debug, Clone)]
pub struct Username {
    pub username: String,
}

/// A legacy answer, by shape.
#[derive(Debug)]
pub enum BridgeResponse<T> {
    Element(T),
    List(Vec<T>),
    Errors(Vec<ErrorEnvelope>),
}

/// The message of the protocol error for an empty list.
pub open spec fn empty_list_message() -> Seq<char> {
    "expected non-empty array"@
}

impl<T> BridgeResponse<T> {
    /// The payload of the answer, or the error it reports. The last entry of a list wins;
    /// an empty list is a protocol error.
    pub fn get(self) -> (r: Result<T, HueError>)
        ensures
            match self {
                BridgeResponse::Element(t) => r == Ok::<T, HueError>(t),
                BridgeResponse::List(ts) => if ts@.len() == 0 {
                    r matches Err(HueError::ProtocolError { msg }) && msg@ == empty_list_message()
                } else {
                    r == Ok::<T, HueError>(ts@.last())
                },
                BridgeResponse::Errors(es) => if es@.len() == 0 {
                    r matches Err(HueError::ProtocolError { msg }) && msg@ == empty_list_message()
                } else {
                    r matches Err(HueError::BridgeError { code, msg }) && code
                        == es@.last().error.code && msg == es@.last().error.description
                },
            },
    {
        match self {
            BridgeResponse::Element(t) => Ok(t),
            BridgeResponse::List(mut ts) => match ts.pop() {
                Some(t) => Ok(t),
                None => Err(HueError::protocol_err("expected non-empty array")),
            },
            BridgeResponse::Errors(mut es) => match es.pop() {
                Some(e) => Err(HueError::BridgeError { code: e.error.code, msg: e.error.description }),
                None => Err(HueError::protocol_err("expected non-empty array")),
            },
        }
    }
}

/// An error entry of a resource-oriented answer.
#[derive(Debug, Clone)]
pub struct BridgeErrorV2 {
    pub description: String,
}

/// A resource-oriented answer: `{"errors": [...], "data": [...]}`.
#[derive(Debug)]
pub struct BridgeResponseV2<T> {
    pub errors: Vec<BridgeErrorV2>,
    pub data: Vec<T>,
}

impl<T> BridgeResponseV2<T> {
    /// The data of the answer, or its last error when there is any.
    pub fn get(self) -> (r: Result<Vec<T>, HueError>)
        ensures
            self.errors@.len() == 0 ==> r == Ok::<Vec<T>, HueError>(self.data),
            self.errors@.len() > 0 ==> (r matches Err(HueError::BridgeErrorV2 { description })
                && description == self.errors@.last().description),
    {
        let BridgeResponseV2 { mut errors, data } = self;
        match errors.pop() {
            Some(error) => Err(HueError::BridgeErrorV2 { description: error.description }),
            None => Ok(data),
        }
    }
}

} // verus!
