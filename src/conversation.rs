//! The conversation bridge: native-style batches of prompts and notices are
//! dispatched, in order, to a handler, and its answers are collected into one
//! response per message, or the whole batch fails with nothing handed back.

use vstd::prelude::*;
use vstd::utf8::{valid_utf8, decode_utf8};
use crate::protocol::{AuthMessageType, ParentToSessionChild, SessionChildToParent};
use crate::text::has_nul;

verus! {

/// The style tag of a native conversation message.
#[derive(Clone, Copy, Debug, PartialEq, Eq, Structural)]
pub enum MessageStyle {
    /// A prompt whose answer is echoed.
    PromptEchoOn,
    /// A prompt whose answer is hidden.
    PromptEchoOff,
    ErrorMsg,
    TextInfo,
}

/// One native conversation message: its style and its text as raw bytes,
/// without the terminating NUL.
#[derive(Clone, Debug, PartialEq, Eq)]
pub struct NativeMessage {
    pub style: MessageStyle,
    pub text: Vec<u8>,
}

/// The capabilities that a conversation handler offers. Each may fail, for
/// instance when the handler cannot reach the parent.
pub trait Converse {
    fn prompt_echo(&self, msg: &str) -> Result<String, ()>;

    fn prompt_blind(&self, msg: &str) -> Result<String, ()>;

    fn info(&self, msg: &str) -> Result<(), ()>;

    fn error(&self, msg: &str) -> Result<(), ()>;
}

/// The handler bound to one native transaction.
pub struct PamConvHandlerWrapper<C: Converse> {
    pub handler: C,
}

/// Why a conversation batch failed.
#[derive(Clone, Copy, Debug, PartialEq, Eq, Structural)]
pub enum ConvFailure {
    /// A message's text is not valid UTF-8.
    BadText,
    /// The handler reported a failure.
    HandlerFailed,
    /// An answer holds a NUL character and cannot become a native string.
    BadResponse,
}

/// The failure of a conversation batch, at the message with index `index`.
#[derive(Clone, Copy, Debug, PartialEq, Eq, Structural)]
pub struct ConvError {
    pub index: usize,
    pub cause: ConvFailure,
}

pub open spec fn is_prompt(style: MessageStyle) -> bool {
    style is PromptEchoOn || style is PromptEchoOff
}

pub open spec fn holds_nul(s: Seq<char>) -> bool {
    exists|i: int| 0 <= i < s.len() && s[i] == '\0'
}

/// What `msgs` asks of a successful batch `resp`: one entry per message, an
/// answer exactly for the prompts, every text decodable, no answer with a NUL.
pub open spec fn complete_batch(msgs: Seq<NativeMessage>, resp: Seq<Option<String>>) -> bool {
    &&& resp.len() == msgs.len()
    &&& forall|i: int| 0 <= i < msgs.len() ==> valid_utf8(#[trigger] msgs[i].text@)
    &&& forall|i: int| 0 <= i < msgs.len() ==> (#[trigger] resp[i] is Some <==> is_prompt(msgs[i].style))
    &&& forall|i: int| 0 <= i < msgs.len() && #[trigger] resp[i] is Some ==> !holds_nul(resp[i]->0@)
}

/// Message `m` decoded, and its handler outcome `out` was accepted as `entry`.
pub open spec fn entry_fits(m: NativeMessage, out: Result<Option<String>, ()>, entry: Option<String>) -> bool {
    valid_utf8(m.text@) && accepted_entry(capability_of(m.style), out) == Ok::<Option<String>, ConvFailure>(entry)
}

/// The handler capability that serves a message of style `style`.
#[derive(Clone, Copy, Debug, PartialEq, Eq, Structural)]
pub enum Capability {
    PromptEcho,
    PromptBlind,
    NotifyError,
    NotifyInfo,
}

pub open spec fn capability_of(style: MessageStyle) -> Capability {
    match style {
        MessageStyle::PromptEchoOn => Capability::PromptEcho,
        MessageStyle::PromptEchoOff => Capability::PromptBlind,
        MessageStyle::ErrorMsg => Capability::NotifyError,
        MessageStyle::TextInfo => Capability::NotifyInfo,
    }
}

pub open spec fn asks(cap: Capability) -> bool {
    cap is PromptEcho || cap is PromptBlind
}

/// The entry that a handler outcome `out` of capability `cap` gives: for a
/// prompt, its answer where that can become a native string; for a notice,
/// no answer. A failed call fails the batch.
pub open spec fn accepted_entry(cap: Capability, out: Result<Option<String>, ()>) -> Result<
    Option<String>,
    ConvFailure,
> {
    if out is Err {
        Err(ConvFailure::HandlerFailed)
    } else if asks(cap) {
        if out->Ok_0 is None {
            Err(ConvFailure::HandlerFailed)
        } else if holds_nul(out->Ok_0->0@) {
            Err(ConvFailure::BadResponse)
        } else {
            Ok(out->Ok_0)
        }
    } else {
        Ok(None)
    }
}

/// `r` is the result of the batch `msgs` whose handler calls returned `outs`,
/// in order: the messages are taken in order, each decoded and handed to its
/// capability; the first undecodable text or refused outcome ends the batch,
/// with no handler call after it; otherwise each entry is the accepted
/// outcome of its message.
pub open spec fn batch_from(
    msgs: Seq<NativeMessage>,
    outs: Seq<Result<Option<String>, ()>>,
    r: Result<Vec<Option<String>>, ConvError>,
) -> bool {
    match r {
        Ok(v) => {
            &&& outs.len() == msgs.len()
            &&& v@.len() == msgs.len()
            &&& forall|i: int| 0 <= i < msgs.len() ==> valid_utf8(#[trigger] msgs[i].text@)
                && accepted_entry(capability_of(msgs[i].style), outs[i]) == Ok::<
                Option<String>,
                ConvFailure,
            >(v@[i])
        },
        Err(e) => {
            &&& e.index < msgs.len()
            &&& forall|j: int| 0 <= j < e.index ==> valid_utf8(#[trigger] msgs[j].text@)
                && accepted_entry(capability_of(msgs[j].style), outs[j]) is Ok
            &&& if e.cause is BadText {
                !valid_utf8(msgs[e.index as int].text@) && outs.len() == e.index
            } else {
                &&& valid_utf8(msgs[e.index as int].text@)
                &&& outs.len() == e.index + 1
                &&& accepted_entry(capability_of(msgs[e.index as int].style), outs[e.index as int])
                    == Err::<Option<String>, ConvFailure>(e.cause)
            }
        },
    }
}

/// Relies on std::str::from_utf8: it accepts exactly the valid UTF-8 byte
/// sequences, and the text it gives is what they encode.
#[verifier::external_body]
fn decode_text(b: &Vec<u8>) -> (r: Option<String>)
    ensures
        r is Some <==> valid_utf8(b@),
        r is Some ==> r->0@ == decode_utf8(b@),
{
    std::str::from_utf8(b.as_slice()).ok().map(|s| s.to_string())
}

/// What message `m` asks of the handler: the capability for its style and
/// its decoded text, or `BadText` where the text is not valid UTF-8.
pub fn request_for(m: &NativeMessage) -> (r: Result<(Capability, String), ConvFailure>)
    ensures
        r is Ok <==> valid_utf8(m.text@),
        r is Ok ==> r->Ok_0.0 == capability_of(m.style) && r->Ok_0.1@ == decode_utf8(m.text@),
        r is Err ==> r->Err_0 is BadText,
{
    let cap = match m.style {
        MessageStyle::PromptEchoOn => Capability::PromptEcho,
        MessageStyle::PromptEchoOff => Capability::PromptBlind,
        MessageStyle::ErrorMsg => Capability::NotifyError,
        MessageStyle::TextInfo => Capability::NotifyInfo,
    };
    match decode_text(&m.text) {
        Some(text) => Ok((cap, text)),
        None => Err(ConvFailure::BadText),
    }
}

/// The batch entry for the outcome `out` of a handler call of capability
/// `cap`.
pub fn accept_entry(cap: Capability, out: Result<Option<String>, ()>) -> (r: Result<
    Option<String>,
    ConvFailure,
>)
    ensures
        r == accepted_entry(cap, out),
{
    match out {
        Err(()) => Err(ConvFailure::HandlerFailed),
        Ok(answer) => {
            if cap == Capability::PromptEcho || cap == Capability::PromptBlind {
                match answer {
                    None => Err(ConvFailure::HandlerFailed),
                    Some(s) => {
                        if has_nul(s.as_str()) {
                            Err(ConvFailure::BadResponse)
                        } else {
                            Ok(Some(s))
                        }
                    },
                }
            } else {
                Ok(None)
            }
        },
    }
}

/// Hands `text` to the capability `cap` of `handler`; a prompt's answer
/// comes back as `Some`, a notice's acknowledgement as `None`.
fn dispatch<C: Converse>(handler: &C, cap: Capability, text: &str) -> Result<Option<String>, ()> {
    match cap {
        Capability::PromptEcho => match handler.prompt_echo(text) {
            Ok(s) => Ok(Some(s)),
            Err(()) => Err(()),
        },
        Capability::PromptBlind => match handler.prompt_blind(text) {
            Ok(s) => Ok(Some(s)),
            Err(()) => Err(()),
        },
        Capability::NotifyError => match handler.error(text) {
            Ok(()) => Ok(None),
            Err(()) => Err(()),
        },
        Capability::NotifyInfo => match handler.info(text) {
            Ok(()) => Ok(None),
            Err(()) => Err(()),
        },
    }
}

/// Runs one native conversation batch through the bound handler, in order,
/// stopping at the first failure. On success the result holds exactly one
/// entry per message, an answer for each prompt and none for each notice; on
/// failure nothing is handed back.
pub fn converse<C: Converse>(wrapper: &PamConvHandlerWrapper<C>, msgs: &Vec<NativeMessage>) -> (r:
    Result<Vec<Option<String>>, ConvError>)
    ensures
        exists|outs: Seq<Result<Option<String>, ()>>| #[trigger] batch_from(msgs@, outs, r),
        r is Ok ==> complete_batch(msgs@, r->Ok_0@),
        (exists|i: int| 0 <= i < msgs@.len() && !valid_utf8(#[trigger] msgs@[i].text@)) ==> r is Err,
        msgs@.len() == 0 ==> r is Ok,
{
    let mut resp: Vec<Option<String>> = Vec::new();
    let ghost mut outs: Seq<Result<Option<String>, ()>> = Seq::empty();
    let mut i: usize = 0;
    while i < msgs.len()
        invariant
            i <= msgs@.len(),
            resp@.len() == i,
            outs.len() == i,
            forall|j: int| 0 <= j < i ==> #[trigger] entry_fits(msgs@[j], outs[j], resp@[j]),
        decreases msgs@.len() - i,
    {
        let (cap, text) = match request_for(&msgs[i]) {
            Ok(req) => req,
            Err(cause) => {
                let r = Err(ConvError { index: i, cause });
                assert(batch_from(msgs@, outs, r)) by {
                    assert forall|j: int| 0 <= j < i implies valid_utf8(#[trigger] msgs@[j].text@)
                        && accepted_entry(capability_of(msgs@[j].style), outs[j]) is Ok by {
                        assert(entry_fits(msgs@[j], outs[j], resp@[j]));
                    }
                }
                return r;
            },
        };
        let out = dispatch(&wrapper.handler, cap, text.as_str());
        let ghost outs_before = outs;
        proof {
            outs = outs.push(out);
        }
        let entry = match accept_entry(cap, out) {
            Ok(entry) => entry,
            Err(cause) => {
                let r = Err(ConvError { index: i, cause });
                assert(batch_from(msgs@, outs, r)) by {
                    assert forall|j: int| 0 <= j < i implies valid_utf8(#[trigger] msgs@[j].text@)
                        && accepted_entry(capability_of(msgs@[j].style), outs[j]) is Ok by {
                        assert(entry_fits(msgs@[j], outs_before[j], resp@[j]));
                    }
                }
                return r;
            },
        };
        let ghost before = resp@;
        resp.push(entry);
        proof {
            assert(entry_fits(msgs@[i as int], outs[i as int], resp@[i as int]));
            assert forall|j: int| 0 <= j < i + 1 implies #[trigger] entry_fits(msgs@[j], outs[j], resp@[j]) by {
                if j < i {
                    assert(entry_fits(msgs@[j], outs_before[j], before[j]));
                }
            }
        }
        i = i + 1;
    }
    proof {
        assert forall|j: int| 0 <= j < msgs@.len() implies (#[trigger] resp@[j] is Some <==> is_prompt(
            msgs@[j].style,
        )) && (resp@[j] is Some ==> !holds_nul(resp@[j]->0@)) && valid_utf8(msgs@[j].text@) by {
            assert(entry_fits(msgs@[j], outs[j], resp@[j]));
        }
    }
    let r = Ok(resp);
    assert(batch_from(msgs@, outs, r)) by {
        assert forall|j: int| 0 <= j < msgs@.len() implies valid_utf8(#[trigger] msgs@[j].text@)
            && accepted_entry(capability_of(msgs@[j].style), outs[j]) == Ok::<Option<String>, ConvFailure>(
            resp@[j],
        ) by {
            assert(entry_fits(msgs@[j], outs[j], resp@[j]));
        }
    }
    r
}

/// The notice that forwards a conversation message of style `style` to the
/// parent.
pub fn notice_for(style: AuthMessageType, msg: String) -> (r: SessionChildToParent)
    ensures
        r == (SessionChildToParent::PamMessage { style, msg }),
{
    SessionChildToParent::PamMessage { style, msg }
}

/// The handler's answer to a prompt, taken from the parent's reply: the text of
/// a `PamResponse` that carries one; any other reply fails the prompt.
pub fn answer_from(reply: ParentToSessionChild) -> (r: Result<String, ()>)
    ensures
        (reply is PamResponse && reply->PamResponse_resp is Some) ==> r == Ok::<String, ()>(
            reply->PamResponse_resp->0,
        ),
        !(reply is PamResponse && reply->PamResponse_resp is Some) ==> r is Err,
{
    match reply {
        ParentToSessionChild::PamResponse { resp: Some(s) } => Ok(s),
        _ => Err(()),
    }
}

} // verus!
