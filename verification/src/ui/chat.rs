//! The chat panel: when a question may be sent, what sending it adds to the
//! conversation, and how an answer, whole or streamed, enters it.
use vstd::prelude::*;
use vstd::string::StringExecFns;

use crate::actor::protocol::ChatOpts;
use crate::domain::chat::{ChatMessage, ChatRole};
use crate::error::{user_message_of, AppError};
use crate::text::{trim, trim_spec};

verus! {

/// A question may be sent when no answer is streaming and it is not blank.
pub open spec fn sendable(input: Seq<char>, streaming: bool) -> bool {
    !streaming && trim_spec(input).len() > 0
}

/// Whether the question in the input may be sent.
pub fn can_send(input: &str, streaming: bool) -> (r: bool)
    ensures
        r == sendable(input@, streaming),
{
    !streaming && trim(input).unicode_len() > 0
}

/// The peer to answer as, from its field: none when the field is empty.
pub fn target_from_input(text: &str) -> (r: Option<String>)
    ensures
        text@.len() == 0 ==> r is None,
        text@.len() > 0 ==> (r matches Some(t) && t@ == text@),
{
    if text.unicode_len() == 0 {
        None
    } else {
        Some(String::from_str(text))
    }
}

/// The request that sending a question makes.
#[derive(Clone, Debug)]
pub enum ChatRequest {
    /// Ask for the whole answer at once.
    Ask { query: String, opts: ChatOpts },
    /// Ask for the answer in pieces as it is written.
    Stream { query: String, opts: ChatOpts },
}

/// A message written by `role` now, with no token count.
pub open spec fn is_new_message(
    m: ChatMessage,
    peer_id: Seq<char>,
    content: Seq<char>,
    role: ChatRole,
    created_at: String,
) -> bool {
    m.peer_id@ == peer_id && m.content@ == content && m.role == role && m.created_at
        == created_at && m.token_count == 0
}

fn new_message(peer_id: &str, content: &str, role: ChatRole, created_at: String) -> (r:
    ChatMessage)
    ensures
        is_new_message(r, peer_id@, content@, role, created_at),
{
    ChatMessage {
        peer_id: String::from_str(peer_id),
        content: String::from_str(content),
        role,
        created_at,
        token_count: 0,
    }
}

/// Sends the question in `input` to `peer_id`: when it may be sent, it joins
/// the conversation as the user's message and the request for the answer is
/// returned, whole or streamed as `non_stream` says; else nothing happens.
pub fn submit(
    history: &mut Vec<ChatMessage>,
    input: &str,
    streaming: bool,
    peer_id: &str,
    target: Option<String>,
    non_stream: bool,
    created_at: String,
) -> (r: Option<ChatRequest>)
    ensures
        !sendable(input@, streaming) ==> r is None && final(history)@ == old(history)@,
        sendable(input@, streaming) ==> {
            &&& final(history)@.len() == old(history)@.len() + 1
            &&& final(history)@.drop_last() == old(history)@
            &&& is_new_message(final(history)@.last(), peer_id@, input@, ChatRole::User, created_at)
            &&& match r {
                Some(ChatRequest::Ask { query, opts }) => non_stream && query@ == input@
                    && opts.session_id is None && opts.peer_target == target,
                Some(ChatRequest::Stream { query, opts }) => !non_stream && query@ == input@
                    && opts.session_id is None && opts.peer_target == target,
                None => false,
            }
        },
{
    if !can_send(input, streaming) {
        return None;
    }
    history.push(new_message(peer_id, input, ChatRole::User, created_at));
    assert(history@.drop_last() =~= old(history)@);
    let opts = ChatOpts { session_id: None, peer_target: target };
    let query = String::from_str(input);
    if non_stream {
        Some(ChatRequest::Ask { query, opts })
    } else {
        Some(ChatRequest::Stream { query, opts })
    }
}

/// Takes the whole answer to a question: a text joins the conversation as the
/// peer's message, no text changes nothing, and a failure, or an answer that
/// never came (`None`), gives the error to show.
pub fn on_answer(
    history: &mut Vec<ChatMessage>,
    reply: Option<Result<Option<String>, AppError>>,
    peer_id: &str,
    created_at: String,
) -> (r: Option<String>)
    ensures
        match reply {
            Some(Ok(Some(text))) => r is None && final(history)@.len() == old(history)@.len() + 1
                && final(history)@.drop_last() == old(history)@ && is_new_message(
                final(history)@.last(),
                peer_id@,
                text@,
                ChatRole::Assistant,
                created_at,
            ),
            Some(Ok(None)) => r is None && final(history)@ == old(history)@,
            Some(Err(e)) => r matches Some(m) && m@ == user_message_of(e) && final(history)@
                == old(history)@,
            None => r matches Some(m) && m@ == "Chat reply channel closed"@ && final(history)@
                == old(history)@,
        },
{
    match reply {
        Some(Ok(Some(text))) => {
            history.push(new_message(peer_id, text.as_str(), ChatRole::Assistant, created_at));
            assert(history@.drop_last() =~= old(history)@);
            None
        },
        Some(Ok(None)) => None,
        Some(Err(e)) => Some(e.user_message()),
        None => Some(String::from_str("Chat reply channel closed")),
    }
}

/// What the panel shows of a message: its peer, its text, its author, when
/// it was written, and its token count.
pub open spec fn message_view(m: ChatMessage) -> (Seq<char>, Seq<char>, ChatRole, Seq<char>, u64) {
    (m.peer_id@, m.content@, m.role, m.created_at@, m.token_count)
}

/// What the panel shows of a conversation.
pub open spec fn conversation_view(h: Seq<ChatMessage>) -> Seq<
    (Seq<char>, Seq<char>, ChatRole, Seq<char>, u64),
> {
    h.map_values(|m: ChatMessage| message_view(m))
}

/// One piece of a streamed answer taken into a conversation, given the text
/// received before it and whether the conversation ends with the message that
/// shows the answer: the text grows by the piece; the answering message shows
/// the new text, and is added, written by `peer` at `at`, if there was none.
pub open spec fn chunk_step(
    h: Seq<(Seq<char>, Seq<char>, ChatRole, Seq<char>, u64)>,
    text: Seq<char>,
    answering: bool,
    chunk: Seq<char>,
    peer: Seq<char>,
    at: Seq<char>,
) -> (Seq<(Seq<char>, Seq<char>, ChatRole, Seq<char>, u64)>, Seq<char>, bool) {
    let t = text + chunk;
    if answering {
        if h.len() > 0 {
            let l = h.last();
            (h.update(h.len() - 1, (l.0, t, l.2, l.3, l.4)), t, true)
        } else {
            (h, t, true)
        }
    } else {
        (h.push((peer, t, ChatRole::Assistant, at, 0u64)), t, true)
    }
}

/// The pieces of an answer joined in order.
pub open spec fn joined(chunks: Seq<Seq<char>>) -> Seq<char>
    decreases chunks.len(),
{
    if chunks.len() == 0 {
        Seq::empty()
    } else {
        joined(chunks.drop_last()) + chunks.last()
    }
}

/// The pieces of an answer taken in order, the `i`-th received at `ats[i]`.
pub open spec fn stream_all(
    h: Seq<(Seq<char>, Seq<char>, ChatRole, Seq<char>, u64)>,
    text: Seq<char>,
    answering: bool,
    chunks: Seq<Seq<char>>,
    peer: Seq<char>,
    ats: Seq<Seq<char>>,
) -> (Seq<(Seq<char>, Seq<char>, ChatRole, Seq<char>, u64)>, Seq<char>, bool)
    decreases chunks.len(),
{
    if chunks.len() == 0 {
        (h, text, answering)
    } else {
        let prev = stream_all(h, text, answering, chunks.drop_last(), peer, ats);
        chunk_step(prev.0, prev.1, prev.2, chunks.last(), peer, ats[chunks.len() - 1])
    }
}

/// Collects a streamed answer: the pieces received so far, and whether the
/// conversation already ends with the peer's message that shows them.
pub struct StreamCollector {
    text: String,
    answering: bool,
}

impl StreamCollector {
    /// The pieces received so far, joined.
    pub closed spec fn text(&self) -> Seq<char> {
        self.text@
    }

    /// Whether the last message of the conversation is the one that shows
    /// the answer.
    pub closed spec fn answering(&self) -> bool {
        self.answering
    }

    /// A collector for a conversation that is about to receive a streamed
    /// answer; if it already ends with a message of the peer, that message
    /// shows the answer.
    pub fn new(history: &Vec<ChatMessage>) -> (r: Self)
        ensures
            r.text() == Seq::<char>::empty(),
            r.answering() == (history@.len() > 0 && history@.last().role == ChatRole::Assistant),
    {
        let n = history.len();
        let answering = n > 0 && history[n - 1].role == ChatRole::Assistant;
        StreamCollector { text: String::new(), answering }
    }

    /// Takes one piece of the answer, received at `created_at`.
    pub fn on_chunk(
        &mut self,
        history: &mut Vec<ChatMessage>,
        chunk: &str,
        peer_id: &str,
        created_at: String,
    )
        ensures
            (conversation_view(final(history)@), final(self).text(), final(self).answering())
                == chunk_step(
                conversation_view(old(history)@),
                old(self).text(),
                old(self).answering(),
                chunk@,
                peer_id@,
                created_at@,
            ),
    {
        self.text.append(chunk);
        let ghost before = conversation_view(old(history)@);
        if self.answering {
            let n = history.len();
            if n > 0 {
                let last = history.pop().unwrap();
                let ChatMessage { peer_id: p, role, created_at: at, token_count, .. } = last;
                history.push(
                    ChatMessage { peer_id: p, content: self.text.clone(), role, created_at: at, token_count },
                );
                assert(conversation_view(history@) =~= before.update(
                    before.len() - 1,
                    (before.last().0, self.text@, before.last().2, before.last().3, before.last().4),
                ));
            }
        } else {
            history.push(new_message(peer_id, self.text.as_str(), ChatRole::Assistant, created_at));
            assert(conversation_view(history@) =~= before.push(
                (peer_id@, self.text@, ChatRole::Assistant, created_at@, 0u64),
            ));
            self.answering = true;
        }
    }

    /// Takes the end of the stream: a non-empty final text replaces the text
    /// of the conversation's last message.
    pub fn on_done(&self, history: &mut Vec<ChatMessage>, final_text: String)
        ensures
            (final_text@.len() == 0 || old(history)@.len() == 0) ==> final(history)@ == old(
                history,
            )@,
            (final_text@.len() > 0 && old(history)@.len() > 0) ==> {
                let v = conversation_view(old(history)@);
                let l = v.last();
                conversation_view(final(history)@) == v.update(
                    v.len() - 1,
                    (l.0, final_text@, l.2, l.3, l.4),
                )
            },
    {
        let n = history.len();
        let ghost before = conversation_view(old(history)@);
        if final_text.as_str().unicode_len() > 0 && n > 0 {
            let last = history.pop().unwrap();
            let ChatMessage { peer_id: p, role, created_at: at, token_count, .. } = last;
            let ghost ft = final_text@;
            history.push(ChatMessage { peer_id: p, content: final_text, role, created_at: at, token_count });
            assert(conversation_view(history@) =~= before.update(
                before.len() - 1,
                (before.last().0, ft, before.last().2, before.last().3, before.last().4),
            ));
        }
    }
}

/// Streaming an answer of one or more pieces into a conversation that does
/// not end with the peer's answering message adds exactly one message: the
/// peer's, written when the first piece came, showing all pieces in order.
pub proof fn lemma_stream_shows_all_pieces(
    h: Seq<(Seq<char>, Seq<char>, ChatRole, Seq<char>, u64)>,
    chunks: Seq<Seq<char>>,
    peer: Seq<char>,
    ats: Seq<Seq<char>>,
)
    requires
        chunks.len() >= 1,
        ats.len() >= chunks.len(),
    ensures
        stream_all(h, Seq::empty(), false, chunks, peer, ats) == (
            h.push((peer, joined(chunks), ChatRole::Assistant, ats[0], 0u64)),
            joined(chunks),
            true,
        ),
    decreases chunks.len(),
{
    if chunks.len() == 1 {
        assert(chunks.drop_last() =~= Seq::<Seq<char>>::empty());
        assert(stream_all(h, Seq::empty(), false, chunks.drop_last(), peer, ats) == (
            h,
            Seq::<char>::empty(),
            false,
        ));
        assert(joined(chunks.drop_last()) == Seq::<char>::empty());
        assert(joined(chunks) =~= Seq::<char>::empty() + chunks[0]);
        assert(Seq::<char>::empty() + chunks[0] =~= chunks[0]);
    } else {
        lemma_stream_shows_all_pieces(h, chunks.drop_last(), peer, ats);
        let hp = h.push((peer, joined(chunks.drop_last()), ChatRole::Assistant, ats[0], 0u64));
        assert(hp.update(hp.len() - 1, (peer, joined(chunks), ChatRole::Assistant, ats[0], 0u64))
            =~= h.push((peer, joined(chunks), ChatRole::Assistant, ats[0], 0u64)));
    }
}

} // verus!
