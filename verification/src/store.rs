//! The records the persistence collaborator stores: one row of the group
//! chat table, and one row of the agent table. The collaborator itself — a
//! database, or an in-memory stub in tests — lives outside this crate and
//! reads and writes these as plain values.

use vstd::prelude::*;
use vstd::string::*;

verus! {

/// One message row: who said it, its content and role label, a token count,
/// and who is to speak next.
pub struct GroupChat {
    pub agent_name: String,
    pub message_content: String,
    pub message_role: String,
    pub tokens_count: u16,
    pub next_speaker: String,
}

/// One agent row: name, description, the current system prompt, the tool
/// metadata, and the most recent instruction addressed to it.
pub struct AgentStore {
    pub agent_name: String,
    pub agent_description: String,
    pub current_system_prompt: String,
    pub tools_map_meta: String,
    pub recent_instruction: String,
}

/// The number of whitespace-separated words in `s`, counted over the suffix
/// from `i` with `prev_space` saying whether a word boundary precedes it.
pub open spec fn words_from(s: Seq<char>, prev_space: bool) -> nat
    decreases s.len(),
{
    if s.len() == 0 {
        0
    } else {
        (if !crate::text::is_space(s[0]) && prev_space {
            1nat
        } else {
            0nat
        }) + words_from(s.skip(1), crate::text::is_space(s[0]))
    }
}

/// The number of whitespace-separated words in `s` — the token count a
/// message row records.
pub open spec fn word_count_spec(s: Seq<char>) -> nat {
    words_from(s, true)
}

/// Counts the whitespace-separated words of a message.
pub fn count_words(s: &str) -> (r: usize)
    ensures
        r == word_count_spec(s@),
{
    let n: usize = s.unicode_len();
    let mut count: usize = 0;
    let mut prev_space: bool = true;
    let mut i: usize = 0;
    proof {
        assert(s@.skip(0) =~= s@);
    }
    while i < n
        invariant
            0 <= i <= n,
            n == s@.len(),
            count <= i,
            word_count_spec(s@) == count + words_from(s@.skip(i as int), prev_space),
        decreases n - i,
    {
        let c = s.get_char(i);
        proof {
            assert(s@.skip(i as int)[0] == s@[i as int]);
            assert(s@.skip(i as int).skip(1) =~= s@.skip(i + 1));
        }
        if !crate::text::is_space_char(c) && prev_space {
            count = count + 1;
        }
        prev_space = crate::text::is_space_char(c);
        i = i + 1;
    }
    proof {
        assert(s@.skip(n as int).len() == 0);
    }
    count
}

} // verus!
