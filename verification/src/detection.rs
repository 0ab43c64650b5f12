//! The detection gateway: the state of the lazily-constructed backend
//! session, and the validation that turns a raw backend reply into
//! well-formed sentences.
//!
//! The backend itself (an external OCR-and-translation engine) is an opaque
//! collaborator; the session handle's type is a parameter here, and the host
//! that owns the backend performs the actual calls. This module verifies the
//! decisions around them: a session is constructed exactly once, and a reply
//! is accepted only when every reported box is well-formed.

use vstd::prelude::*;
use crate::geometry::{BoundingBox, Sentence};

verus! {

/// Why a detection cycle produced no sentences: the backend session could
/// not be constructed, a call on it failed, or the reply was malformed.
#[derive(Clone, Copy, Debug, PartialEq, Eq, Structural)]
pub enum DetectionError {
    SessionSetupFailed,
    CallFailed,
    MalformedResponse,
}

/// One entry of a raw backend reply: translated text and a box in corner
/// form, exactly as the backend reports it.
pub type RawSentence = (String, (u32, u32, u32, u32));

/// The detection gateway: the fixed backend credential and the one lazily
/// constructed session handle, reused for every call and never torn down.
/// `S` is the host's session type; this crate never looks inside it.
pub struct Detection<S> {
    pub api_key: String,
    pub session: Option<S>,
}

impl<S> Detection<S> {
    pub open spec fn has_session(self) -> bool {
        self.session is Some
    }

    pub open spec fn spec_needs_session(self) -> bool {
        !self.has_session()
    }

    /// A fresh gateway holds the credential and no session yet; the first
    /// call will ask for one.
    pub fn new(api_key: String) -> (r: Detection<S>)
        ensures
            r.api_key@ == api_key@,
            !r.has_session(),
    {
        Detection { api_key, session: None }
    }

    /// The gateway asks for a backend session to be constructed exactly when
    /// none exists yet.
    pub fn needs_session(&self) -> (r: bool)
        ensures
            r == self.spec_needs_session(),
    {
        self.session.is_none()
    }

    /// Store the one constructed session. Callable only while no session
    /// exists, so a second construction is ruled out at the call site.
    pub fn install_session(&mut self, session: S)
        requires
            !old(self).has_session(),
        ensures
            final(self).has_session(),
            final(self).session == Some(session),
            final(self).api_key@ == old(self).api_key@,
    {
        self.session = Some(session);
    }

    /// Borrow the session for one backend call.
    pub fn session_ref(&self) -> (r: &S)
        requires
            self.has_session(),
        ensures
            self.session == Some(*r),
    {
        match &self.session {
            Some(s) => s,
            None => vstd::pervasive::unreached(),
        }
    }
}

/// Construct-once: while a session exists the gateway never asks for
/// another, so the backend constructor runs at most once per process
/// lifetime.
pub proof fn lemma_session_constructed_once<S>(d: Detection<S>)
    requires
        d.has_session(),
    ensures
        !d.spec_needs_session(),
{
}

/// A reported box is acceptable when its corners are ordered.
pub open spec fn raw_box_valid(b: (u32, u32, u32, u32)) -> bool {
    b.0 <= b.2 && b.1 <= b.3
}

pub open spec fn spec_box_of(b: (u32, u32, u32, u32)) -> BoundingBox {
    BoundingBox { min_x: b.0, min_y: b.1, max_x: b.2, max_y: b.3 }
}

pub open spec fn all_boxes_valid(raw: Seq<RawSentence>) -> bool {
    forall|i: int| 0 <= i < raw.len() ==> raw_box_valid(#[trigger] raw[i].1)
}

/// The sentences a reply converts to, entry by entry and in the reply's
/// order: `matches` holds when `out` is exactly that conversion.
pub open spec fn sentences_match_raw(out: Seq<Sentence>, raw: Seq<RawSentence>) -> bool {
    out.len() == raw.len() && forall|i: int|
        0 <= i < raw.len() ==> (#[trigger] out[i]).text@ == raw[i].0@ && out[i].bbox
            == spec_box_of(raw[i].1) && out[i].wf()
}

/// Validate and convert a raw backend reply at the gateway boundary. The
/// reply is accepted, order and texts kept, exactly when every box has
/// ordered corners; one bad box makes the whole reply malformed.
pub fn sentences_from_detection(raw: &Vec<RawSentence>) -> (r: Result<
    Vec<Sentence>,
    DetectionError,
>)
    ensures
        r is Ok <==> all_boxes_valid(raw@),
        r is Ok ==> sentences_match_raw(r->Ok_0@, raw@),
        r is Err ==> r->Err_0 == DetectionError::MalformedResponse,
{
    let mut out: Vec<Sentence> = Vec::new();
    let mut i: usize = 0;
    while i < raw.len()
        invariant
            i <= raw@.len(),
            out@.len() == i,
            forall|j: int| 0 <= j < i ==> raw_box_valid(#[trigger] raw@[j].1),
            forall|j: int|
                0 <= j < i ==> (#[trigger] out@[j]).text@ == raw@[j].0@ && out@[j].bbox
                    == spec_box_of(raw@[j].1) && out@[j].wf(),
        decreases raw@.len() - i,
    {
        let (text, bx) = &raw[i];
        match BoundingBox::from_corners(bx.0, bx.1, bx.2, bx.3) {
            Some(bbox) => {
                out.push(Sentence { text: text.clone(), bbox });
            },
            None => {
                return Err(DetectionError::MalformedResponse);
            },
        }
        i += 1;
    }
    Ok(out)
}

} // verus!
