//! Outbound messages: how console input becomes messages, and what the
//! outbound queue holds after a sequence of inputs.

use vstd::prelude::*;
use crate::text::trim_str;
use crate::text::trimmed;

verus! {

/// The status code of a normal WebSocket closure.
pub const NORMAL_CLOSE: u16 = 1000;

/// An outbound message bound for the server.
pub enum Outbound {
    /// A chat text frame.
    Text(String),
    /// A close frame: status code and reason.
    Close(u16, String),
}

/// The mathematical model of an outbound message.
pub enum MsgModel {
    /// A chat text frame.
    Text(Seq<char>),
    /// A close frame: status code and reason.
    Close(u16, Seq<char>),
}

impl View for Outbound {
    type V = MsgModel;

    open spec fn view(&self) -> MsgModel {
        match self {
            Outbound::Text(t) => MsgModel::Text(t@),
            Outbound::Close(c, r) => MsgModel::Close(*c, r@),
        }
    }
}

/// The local disconnect command, as typed (before trimming).
pub open spec fn dc_chars() -> Seq<char> {
    seq!['/', 'd', 'c']
}

/// The reason text carried by a user-initiated close frame.
pub open spec fn finished_chars() -> Seq<char> {
    seq!['f', 'i', 'n', 'i', 's', 'h', 'e', 'd']
}

/// The message that one chunk of console input produces: none for blank
/// input, a close frame for the disconnect command, a trimmed text frame
/// for anything else.
pub open spec fn outbound_of(line: Seq<char>) -> Option<MsgModel> {
    let t = trimmed(line);
    if t.len() == 0 {
        None
    } else if t == dc_chars() {
        Some(MsgModel::Close(NORMAL_CLOSE, finished_chars()))
    } else {
        Some(MsgModel::Text(t))
    }
}

fn is_dc(t: &str) -> (r: bool)
    ensures
        r == (t@ == dc_chars()),
{
    let n = t.unicode_len();
    if n == 3 {
        let r = t.get_char(0) == '/' && t.get_char(1) == 'd' && t.get_char(2) == 'c';
        proof {
            assert(dc_chars()[0] == '/' && dc_chars()[1] == 'd' && dc_chars()[2] == 'c');
            if r {
                assert(t@ =~= dc_chars());
            }
        }
        r
    } else {
        proof {
            assert(dc_chars().len() == 3);
        }
        false
    }
}

/// Turn one chunk of console input into its outbound message, if any:
/// `None` for input that trims to nothing, a close frame with reason
/// `finished` for the `/dc` command, and a trimmed text message otherwise.
pub fn classify_input(chunk: &str) -> (r: Option<Outbound>)
    ensures
        match r {
            Some(m) => outbound_of(chunk@) == Some(m@),
            None => outbound_of(chunk@) is None,
        },
{
    let t = trim_str(chunk);
    if t.unicode_len() == 0 {
        None
    } else if is_dc(t) {
        proof {
            reveal_strlit("finished");
            assert("finished"@ =~= finished_chars());
        }
        Some(Outbound::Close(NORMAL_CLOSE, String::from_str("finished")))
    } else {
        Some(Outbound::Text(String::from_str(t)))
    }
}

/// The messages one input chunk adds to the queue: one or none.
pub open spec fn msgs_of(line: Seq<char>) -> Seq<MsgModel> {
    match outbound_of(line) {
        Some(m) => seq![m],
        None => Seq::<MsgModel>::empty(),
    }
}

/// Everything the queue has carried after a sequence of input chunks,
/// in arrival order.
pub open spec fn queue_of(chunks: Seq<Seq<char>>) -> Seq<MsgModel>
    decreases chunks.len(),
{
    if chunks.len() == 0 {
        Seq::<MsgModel>::empty()
    } else {
        queue_of(chunks.drop_last()) + msgs_of(chunks.last())
    }
}

/// Messages keep the order of the inputs that produced them: the queue of a
/// concatenation is the concatenation of the queues, so every message of an
/// earlier input stands before every message of a later one.
pub proof fn lemma_queue_concat(c1: Seq<Seq<char>>, c2: Seq<Seq<char>>)
    ensures
        queue_of(c1 + c2) == queue_of(c1) + queue_of(c2),
    decreases c2.len(),
{
    if c2.len() == 0 {
        assert(c1 + c2 =~= c1);
        assert(queue_of(c1) + queue_of(c2) =~= queue_of(c1));
    } else {
        lemma_queue_concat(c1, c2.drop_last());
        assert((c1 + c2).drop_last() =~= c1 + c2.drop_last());
        assert((c1 + c2).last() == c2.last());
        assert(queue_of(c1 + c2) =~= queue_of(c1) + queue_of(c2));
    }
}

/// A non-blank input that is not the disconnect command enqueues exactly one
/// text message, holding the trimmed input, after every earlier message.
pub proof fn lemma_text_input_enqueued(chunks: Seq<Seq<char>>, line: Seq<char>)
    requires
        trimmed(line).len() > 0,
        trimmed(line) != dc_chars(),
    ensures
        queue_of(chunks.push(line)) == queue_of(chunks).push(MsgModel::Text(trimmed(line))),
{
    assert(chunks.push(line).drop_last() =~= chunks);
    assert(chunks.push(line).last() == line);
    assert(queue_of(chunks.push(line)) =~= queue_of(chunks).push(MsgModel::Text(trimmed(line))));
}

/// An input that trims to nothing enqueues nothing: the queue is unchanged.
pub proof fn lemma_blank_input_ignored(chunks: Seq<Seq<char>>, line: Seq<char>)
    requires
        trimmed(line).len() == 0,
    ensures
        queue_of(chunks.push(line)) == queue_of(chunks),
{
    assert(chunks.push(line).drop_last() =~= chunks);
    assert(chunks.push(line).last() == line);
    assert(queue_of(chunks.push(line)) =~= queue_of(chunks));
}

/// An input that trims to the disconnect command enqueues exactly one close
/// message, with the normal-closure code and the reason `finished`, and no
/// text message.
pub proof fn lemma_disconnect_input(chunks: Seq<Seq<char>>, line: Seq<char>)
    requires
        trimmed(line) == dc_chars(),
    ensures
        queue_of(chunks.push(line)) == queue_of(chunks).push(
            MsgModel::Close(NORMAL_CLOSE, finished_chars()),
        ),
{
    assert(chunks.push(line).drop_last() =~= chunks);
    assert(chunks.push(line).last() == line);
    assert(trimmed(line).len() == 3);
    assert(queue_of(chunks.push(line)) =~= queue_of(chunks).push(
        MsgModel::Close(NORMAL_CLOSE, finished_chars()),
    ));
}

/// All messages a session writes to the network, in order: the greeting
/// text first, then whatever the input queue produced.
pub open spec fn session_wire(greeting: Seq<char>, chunks: Seq<Seq<char>>) -> Seq<MsgModel> {
    seq![MsgModel::Text(greeting)] + queue_of(chunks)
}

/// The first message sent on a session is always the greeting text,
/// whatever input was queued.
pub proof fn lemma_greeting_first(greeting: Seq<char>, chunks: Seq<Seq<char>>)
    ensures
        session_wire(greeting, chunks).len() >= 1,
        session_wire(greeting, chunks)[0] == MsgModel::Text(greeting),
{
}

} // verus!
