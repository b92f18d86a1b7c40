//! How an error becomes a line of text for the panel.

use crate::bounded::{StatusText, MAX_TEXT_BYTES};
use crate::text::{byte_len, lemma_truncated_fits, truncated};
use vstd::prelude::*;
use vstd::string::*;

verus! {

/// The full line for an error: the prefix, a colon and a space, the description.
pub open spec fn error_line(prefix: Seq<char>, description: Seq<char>) -> Seq<char> {
    prefix + seq![':', ' '] + description
}

/// The line for an error as the panel shows it: cut to the bytes that a status
/// text has room for.
pub open spec fn error_text(prefix: Seq<char>, description: Seq<char>) -> Seq<char> {
    truncated(error_line(prefix, description), MAX_TEXT_BYTES as nat)
}

/// Turns an error into the text shown for it: `prefix`, `": "` and
/// `description`, cut to `MAX_TEXT_BYTES` bytes at a character boundary.
///
/// The result is made of whole characters of the line only, and it is the
/// longest such beginning of the line that fits.
pub fn format_error(prefix: &str, description: &str) -> (text: StatusText)
    ensures
        text@ == error_text(prefix@, description@),
        byte_len(text@) <= MAX_TEXT_BYTES,
        text@.len() <= error_line(prefix@, description@).len(),
        text@ == error_line(prefix@, description@).take(text@.len() as int),
        byte_len(error_line(prefix@, description@)) <= MAX_TEXT_BYTES ==> text@ == error_line(
            prefix@,
            description@,
        ),
{
    let mut line = String::from_str(prefix);
    line.append(": ");
    line.append(description);
    proof {
        reveal_strlit(": ");
        assert(": "@ =~= seq![':', ' ']);
        assert(line@ =~= error_line(prefix@, description@));
        lemma_truncated_fits(line@, MAX_TEXT_BYTES as nat);
    }
    StatusText::truncated_from(line.as_str())
}

} // verus!
