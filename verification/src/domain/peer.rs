//! The context the server assembles for a peer, and how it reads as the
//! system prompt of a chat completion.
use vstd::prelude::*;
use vstd::string::StringExecFns;

verus! {

/// The context of a peer: its representation and its card.
#[derive(Debug, Clone, PartialEq, Eq)]
pub struct PeerContextView {
    pub peer_id: String,
    pub target_id: Option<String>,
    pub representation: Option<String>,
    pub peer_card: Option<Vec<String>>,
}

/// The texts of `parts` joined with `sep` between consecutive ones.
pub open spec fn join_texts(parts: Seq<Seq<char>>, sep: Seq<char>) -> Seq<char>
    decreases parts.len(),
{
    if parts.len() == 0 {
        Seq::empty()
    } else if parts.len() == 1 {
        parts[0]
    } else {
        join_texts(parts.drop_last(), sep) + sep + parts.last()
    }
}

/// The views of a list of strings.
pub open spec fn texts_of(v: Seq<String>) -> Seq<Seq<char>> {
    v.map_values(|s: String| s@)
}

/// The card line: `Peer card: [` then the entries joined by `, ` then `]`.
pub open spec fn card_line(card: Seq<Seq<char>>) -> Seq<char> {
    "Peer card: ["@ + join_texts(card, ", "@) + "]"@
}

/// The paragraphs of the system prompt: the representation if there is one,
/// then the card line if there is a card.
pub open spec fn system_parts(view: PeerContextView) -> Seq<Seq<char>> {
    let first: Seq<Seq<char>> = match view.representation {
        Some(r) => seq![r@],
        None => Seq::empty(),
    };
    match view.peer_card {
        Some(card) => first.push(card_line(texts_of(card@))),
        None => first,
    }
}

/// The system prompt: its paragraphs separated by a blank line.
pub open spec fn system_content(view: PeerContextView) -> Seq<char> {
    join_texts(system_parts(view), "\n\n"@)
}

/// Joins `parts` with `sep`.
pub fn join_strings(parts: &Vec<String>, sep: &str) -> (r: String)
    ensures
        r@ == join_texts(texts_of(parts@), sep@),
{
    let mut out = String::new();
    let ghost all = texts_of(parts@);
    let n = parts.len();
    let mut i: usize = 0;
    while i < n
        invariant
            n == parts@.len(),
            all == texts_of(parts@),
            i <= n,
            out@ == join_texts(all.take(i as int), sep@),
        decreases n - i,
    {
        assert(all.take(i + 1).drop_last() =~= all.take(i as int));
        if i > 0 {
            out.append(sep);
        }
        out.append(parts[i].as_str());
        proof {
            if i == 0 {
                assert(out@ =~= all.take(1)[0]);
            }
        }
        i = i + 1;
    }
    assert(all.take(n as int) =~= all);
    out
}

impl PeerContextView {
    /// The system prompt that this context gives a chat completion.
    pub fn build_system_content(&self) -> (r: String)
        ensures
            r@ == system_content(*self),
    {
        let mut parts: Vec<String> = Vec::new();
        match &self.representation {
            Some(repr) => parts.push(repr.clone()),
            None => {},
        }
        match &self.peer_card {
            Some(card) => {
                let card_text = join_strings(card, ", ");
                let mut line = String::from_str("Peer card: [");
                line.append(card_text.as_str());
                line.append("]");
                parts.push(line);
            },
            None => {},
        }
        proof {
            assert(texts_of(parts@) =~= system_parts(*self));
        }
        if parts.len() == 0 {
            String::new()
        } else {
            join_strings(&parts, "\n\n")
        }
    }
}

/// One message of a chat-completion request preview.
#[derive(Debug, Clone, PartialEq, Eq)]
pub struct PreviewMessage {
    pub role: String,
    pub content: String,
}

impl PeerContextView {
    /// The messages of an OpenAI-style request that carries this context: none
    /// when the system prompt is empty, else one `system` message with it.
    pub fn openai_preview_messages(&self) -> (r: Vec<PreviewMessage>)
        ensures
            system_content(*self).len() == 0 ==> r@.len() == 0,
            system_content(*self).len() > 0 ==> r@.len() == 1 && r@[0].role@ == "system"@
                && r@[0].content@ == system_content(*self),
    {
        let content = self.build_system_content();
        let mut messages: Vec<PreviewMessage> = Vec::new();
        if content.as_str().is_empty() {
            return messages;
        }
        messages.push(PreviewMessage { role: String::from_str("system"), content });
        messages
    }

    /// The system prompt and the messages of an Anthropic-style request that
    /// carries this context: an empty prompt and no messages when the system
    /// prompt is empty, else the prompt and one placeholder `user` message.
    pub fn anthropic_preview_request(&self) -> (r: (String, Vec<PreviewMessage>))
        ensures
            r.0@ == system_content(*self),
            system_content(*self).len() == 0 ==> r.1@.len() == 0,
            system_content(*self).len() > 0 ==> r.1@.len() == 1 && r.1@[0].role@ == "user"@
                && r.1@[0].content@ == "..."@,
    {
        let content = self.build_system_content();
        let mut messages: Vec<PreviewMessage> = Vec::new();
        if !content.as_str().is_empty() {
            messages.push(
                PreviewMessage { role: String::from_str("user"), content: String::from_str("...") },
            );
        }
        (content, messages)
    }
}

proof fn lemma_join_two(a: Seq<char>, b: Seq<char>, sep: Seq<char>)
    ensures
        join_texts(seq![a], sep) == a,
        join_texts(seq![a, b], sep) == a + sep + b,
{
    assert(seq![a, b].drop_last() =~= seq![a]);
    assert(join_texts(seq![a], sep) == a);
    assert(seq![a, b].last() == b);
}

/// Joining nothing gives the empty text, joining one part gives that part, and
/// joining one more part appends a separator and then that part: every part
/// shows in the joined text, in order, one separator between neighbours.
pub proof fn lemma_join_appends(parts: Seq<Seq<char>>, x: Seq<char>, sep: Seq<char>)
    ensures
        join_texts(Seq::<Seq<char>>::empty(), sep) == Seq::<char>::empty(),
        join_texts(seq![x], sep) == x,
        parts.len() > 0 ==> join_texts(parts.push(x), sep) == join_texts(parts, sep) + sep + x,
{
    assert(seq![x][0] == x);
    if parts.len() > 0 {
        assert(parts.push(x).drop_last() =~= parts);
        assert(parts.push(x).last() == x);
    }
}

/// The card line lists the card's entries between `Peer card: [` and `]`, a
/// comma and a space between neighbours; an empty card shows as
/// `Peer card: []`.
pub proof fn lemma_card_line_lists_entries(card: Seq<Seq<char>>, x: Seq<char>)
    ensures
        card_line(Seq::<Seq<char>>::empty()) == "Peer card: []"@,
        card_line(seq![x]) == "Peer card: ["@ + x + "]"@,
        card.len() > 0 ==> card_line(card.push(x)) == "Peer card: ["@ + join_texts(card, ", "@)
            + ", "@ + x + "]"@,
{
    lemma_join_appends(card, x, ", "@);
    reveal_strlit("Peer card: [");
    reveal_strlit("]");
    reveal_strlit("Peer card: []");
    assert(card_line(Seq::<Seq<char>>::empty()) =~= "Peer card: []"@);
    if card.len() > 0 {
        assert(card_line(card.push(x)) =~= "Peer card: ["@ + join_texts(card, ", "@) + ", "@ + x
            + "]"@);
    }
}

/// The system prompt is empty exactly when there is no card and no (or an
/// empty) representation; a card always shows, after the representation.
pub proof fn lemma_system_content_cases(view: PeerContextView)
    ensures
        system_content(view).len() == 0 <==> view.peer_card is None && match view.representation {
            Some(r) => r@.len() == 0,
            None => true,
        },
        view.peer_card is None ==> system_content(view) == match view.representation {
            Some(r) => r@,
            None => Seq::<char>::empty(),
        },
        view.peer_card matches Some(card) ==> system_content(view) == match view.representation {
            Some(r) => r@ + "\n\n"@ + card_line(texts_of(card@)),
            None => card_line(texts_of(card@)),
        },
{
    reveal_strlit("Peer card: [");
    match view.representation {
        Some(r) => {
            match view.peer_card {
                Some(card) => {
                    lemma_join_two(r@, card_line(texts_of(card@)), "\n\n"@);
                    assert(system_parts(view) =~= seq![r@, card_line(texts_of(card@))]);
                },
                None => {
                    lemma_join_two(r@, r@, "\n\n"@);
                    assert(system_parts(view) =~= seq![r@]);
                },
            }
        },
        None => {
            match view.peer_card {
                Some(card) => {
                    let c = card_line(texts_of(card@));
                    lemma_join_two(c, c, "\n\n"@);
                    assert(system_parts(view) =~= seq![c]);
                },
                None => {
                    assert(system_parts(view) =~= Seq::<Seq<char>>::empty());
                },
            }
        },
    }
}

} // verus!
