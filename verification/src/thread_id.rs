//! The identifiers of stored threads.

use crate::config::text_outcome;
use vstd::prelude::*;

verus! {

/// What [`read_thread_id`] makes of a text: the identifier as it is written
/// out, or why there is none.
pub uninterp spec fn thread_id_in(text: Seq<char>) -> Result<Seq<char>, Seq<char>>;

/// `codex_protocol::ConversationId::from_string`: the thread identifier that a
/// text stands for, written out, or the written reason why it stands for none.
/// Both depend on the text alone. Which texts stand for one is left open.
#[verifier::external_body]
pub(crate) fn read_thread_id(text: &String) -> (id: Result<String, String>)
    ensures
        text_outcome(id) == thread_id_in(text@),
{
    match codex_protocol::ConversationId::from_string(text.as_str()) {
        Ok(id) => Ok(id.to_string()),
        Err(error) => Err(error.to_string()),
    }
}

} // verus!
