//! Folding an over-long conversation window back into a bounded one.
//!
//! The window splits into a fixed preamble — the first two entries, the
//! system-role setup — and a tail. The tail's texts, joined with newlines,
//! go to the completion client as the summarisation payload; the client's
//! single summarising reply then replaces the whole tail. The preamble is
//! never altered, and the compressed window always has exactly
//! `PREAMBLE_LEN + 1` entries, whatever length the input had.

use vstd::prelude::*;
use crate::messages::{Content, Message, Role, content_text_spec};
use crate::text::{join_spec, join_all};

verus! {

/// How many leading entries of a window are preserved verbatim.
pub const PREAMBLE_LEN: usize = 2;

/// The texts of the window entries after the preamble.
pub open spec fn tail_texts(ms: Seq<Message>) -> Seq<Seq<char>> {
    ms.skip(PREAMBLE_LEN as int).map_values(|m: Message| content_text_spec(m.content))
}

/// The text sent to the completion client for summarisation: the content of
/// every entry after the preamble, joined with newlines.
pub fn compression_payload(messages: &Vec<Message>) -> (r: String)
    requires
        messages@.len() >= PREAMBLE_LEN,
    ensures
        r@ == join_spec(tail_texts(messages@), "\n"@),
{
    let n: usize = messages.len();
    let mut texts: Vec<String> = Vec::new();
    let mut i: usize = PREAMBLE_LEN;
    while i < n
        invariant
            PREAMBLE_LEN <= i <= n,
            n == messages@.len(),
            texts.deep_view() == tail_texts(messages@).take(i - PREAMBLE_LEN),
        decreases n - i,
    {
        texts.push(messages[i].content_to_string());
        proof {
            let tt = tail_texts(messages@);
            assert(tt[i - PREAMBLE_LEN] == content_text_spec(messages@[i as int].content));
            assert(tt.take(i + 1 - PREAMBLE_LEN) =~= tt.take(i - PREAMBLE_LEN).push(
                tt[i - PREAMBLE_LEN],
            ));
            assert(texts.deep_view() =~= tt.take(i + 1 - PREAMBLE_LEN));
        }
        i = i + 1;
    }
    proof {
        assert(tail_texts(messages@).take(n - PREAMBLE_LEN) =~= tail_texts(messages@));
    }
    join_all(&texts, "\n")
}

/// Replaces everything after the preamble with the single summarising reply.
/// The result always has exactly `PREAMBLE_LEN + 1` entries, its preamble is
/// the input's preamble unchanged, and its last entry is a user-role message
/// holding the summary — whatever length the input window had.
pub fn apply_compression(window: Vec<Message>, summary: String) -> (r: Vec<Message>)
    requires
        window@.len() >= PREAMBLE_LEN,
    ensures
        r@.len() == PREAMBLE_LEN + 1,
        forall|i: int| 0 <= i < PREAMBLE_LEN ==> r@[i] == window@[i],
        r@[PREAMBLE_LEN as int].role == Role::User,
        r@[PREAMBLE_LEN as int].name is None,
        r@[PREAMBLE_LEN as int].content matches Content::Text(t) && t == summary,
{
    let mut w = window;
    w.truncate(PREAMBLE_LEN);
    w.push(Message { content: Content::Text(summary), name: None, role: Role::User });
    w
}

} // verus!
