//! What a command handler decides, and how a decision becomes a response
//! frame.
use vstd::prelude::*;
use crate::icv::{icv_valid, lemma_sealed_is_valid, sealed, seal};
use crate::mi::{MessageType, ResponseStatus};
use crate::model::CommandEffect;

verus! {

/// The outcome of a command handler, as its mathematical value.
pub enum Reply {
    /// Success: these bytes follow the response header.
    Body(Seq<u8>),
    /// Failure reported in a status frame.
    Status(ResponseStatus),
    /// An internal invariant does not hold: no response is sent.
    Refuse,
    /// The application must apply an effect before the command completes.
    Effect(CommandEffect),
}

/// The outcome of a command handler.
pub enum Handled {
    Body(Vec<u8>),
    Status(ResponseStatus),
    Refuse,
    Effect(CommandEffect),
}

impl View for Handled {
    type V = Reply;

    open spec fn view(&self) -> Reply {
        match self {
            Handled::Body(b) => Reply::Body(b@),
            Handled::Status(s) => Reply::Status(*s),
            Handled::Refuse => Reply::Refuse,
            Handled::Effect(e) => Reply::Effect(*e),
        }
    }
}

/// What the transport is asked to do with one inbound message.
pub enum Action {
    /// Send nothing.
    Drop,
    /// Send this frame.
    Respond(Vec<u8>),
    /// Apply an effect, then hand its outcome to `complete`.
    Apply(CommandEffect),
}

/// The outer header of a response: ROR set, NMIMT echoed.
pub open spec fn response_header(t: MessageType) -> Seq<u8> {
    seq![(0x80 + 8 * t.spec_id()) as u8, 0u8, 0u8]
}

/// A response frame carrying `body`.
pub open spec fn reply_frame(t: MessageType, body: Seq<u8>) -> Seq<u8> {
    sealed(response_header(t) + body)
}

/// A response frame reporting a failure status.
pub open spec fn status_frame(t: MessageType, s: ResponseStatus) -> Seq<u8> {
    reply_frame(t, seq![s.spec_id(), 0u8, 0u8, 0u8])
}

pub fn build_frame(t: MessageType, body: &Vec<u8>) -> (r: Vec<u8>)
    ensures
        r@ == reply_frame(t, body@),
        icv_valid(r@),
{
    proof {
        lemma_sealed_is_valid(response_header(t) + body@);
    }
    let mut v: Vec<u8> = Vec::new();
    v.push(0x80 + 8 * t.id());
    v.push(0);
    v.push(0);
    crate::wire::push_bytes(&mut v, body.as_slice());
    assert(v@ =~= response_header(t) + body@);
    seal(v)
}

pub fn build_status_frame(t: MessageType, s: ResponseStatus) -> (r: Vec<u8>)
    ensures
        r@ == status_frame(t, s),
        icv_valid(r@),
{
    let mut body: Vec<u8> = Vec::new();
    body.push(s.id());
    body.push(0);
    body.push(0);
    body.push(0);
    assert(body@ =~= seq![s.spec_id(), 0u8, 0u8, 0u8]);
    build_frame(t, &body)
}

/// The action that a handler's outcome calls for.
pub open spec fn action_for(t: MessageType, h: Reply) -> ActionView {
    match h {
        Reply::Body(b) => ActionView::Respond(reply_frame(t, b)),
        Reply::Status(s) => ActionView::Respond(status_frame(t, s)),
        Reply::Refuse => ActionView::Drop,
        Reply::Effect(e) => ActionView::Apply(e),
    }
}

/// The mathematical value of an `Action`.
pub enum ActionView {
    Drop,
    Respond(Seq<u8>),
    Apply(CommandEffect),
}

impl View for Action {
    type V = ActionView;

    open spec fn view(&self) -> ActionView {
        match self {
            Action::Drop => ActionView::Drop,
            Action::Respond(f) => ActionView::Respond(f@),
            Action::Apply(e) => ActionView::Apply(*e),
        }
    }
}

pub fn finish(t: MessageType, h: Handled) -> (r: Action)
    ensures
        r@ == action_for(t, h@),
        r@ matches ActionView::Respond(f) ==> icv_valid(f),
{
    match h {
        Handled::Body(b) => Action::Respond(build_frame(t, &b)),
        Handled::Status(s) => Action::Respond(build_status_frame(t, s)),
        Handled::Refuse => Action::Drop,
        Handled::Effect(e) => Action::Apply(e),
    }
}

} // verus!
