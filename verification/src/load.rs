//! From what a read of the manifest gave to the pack or the failure.

use vstd::prelude::*;
use crate::error::CurseError;
use crate::pack::CursePack;
use crate::record::{from_text, read_as, Record};

verus! {

/// The pack in a manifest, from the outcome of reading the manifest's file:
/// the text, or why there is none.
///
/// A read that failed gives `Io` with the cause as it came. A text that is no
/// JSON, or lacks a member of a pack, gives `Parse`. Every other text gives
/// the pack, its files in the manifest's order.
pub fn pack_from_read(read: Result<String, String>) -> (r: Result<CursePack, CurseError>)
    ensures
        match read {
            Err(cause) => r == Err::<CursePack, CurseError>(CurseError::Io(cause)),
            Ok(text) => match read_as::<CursePack>(text@) {
                Some(m) => r matches Ok(pack) && pack.model() == m,
                None => r matches Err(e) && e is Parse,
            },
        },
{
    match read {
        Err(cause) => Err(CurseError::Io(cause)),
        Ok(text) => from_text::<CursePack>(text.as_str()),
    }
}

} // verus!
