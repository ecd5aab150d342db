//! Account keys handed out by the administrator as files in the key store.
use vstd::prelude::*;

use crate::models::AccountKey;
use crate::text::{after_last_char, byte_len, last_segment_is};

verus! {

/// The longest key, in bytes, that the key store accepts.
pub const MAX_KEY_LEN: usize = 32;

/// Whether a file of the key store holds a key: its name ends in `.ggkey`
/// (what follows the last `.` is `ggkey`; a name without `.` is taken whole).
pub fn is_key_file(name: &str) -> (r: bool)
    ensures
        r == (after_last_char(name@, '.') == "ggkey"@),
{
    last_segment_is(name, '.', "ggkey")
}

/// The key that a key file holds, unused; `None` when the file holds more
/// than 32 bytes, which leaves the file where it is.
pub fn key_from_file(contents: String) -> (r: Option<AccountKey>)
    ensures
        byte_len(contents@) > MAX_KEY_LEN ==> r is None,
        byte_len(contents@) <= MAX_KEY_LEN ==> r == Some(AccountKey { key: contents, used: false }),
{
    if contents.as_str().len() > MAX_KEY_LEN {
        None
    } else {
        Some(AccountKey::new(contents))
    }
}

} // verus!
