//! What the name of a log file and the link of an uploaded log tell.

use crate::text::{same_bytes, spec_same_bytes, str_eq};
use vstd::prelude::*;

verus! {

/// The length of a log's id, which is the time of the fight as arcdps
/// writes it into the file name: `20200407-185643`.
pub const ID_LEN: usize = 15;

/// Where in a link to an uploaded log the id of the log stands:
/// `https://dps.report/P8NN-20200407-185643_arkk`.
pub const LINK_ID_AT: usize = 24;

/// Whether a file with this extension is a log.
pub fn is_log_extension(extension: &str) -> (r: bool)
    ensures
        r == (extension@ == "zevtc"@ || extension@ == "evtc"@),
{
    str_eq(extension, "zevtc") || str_eq(extension, "evtc")
}

/// Whether `link` is the link of the log whose file name, without its
/// extension, is `id`: whether the id in the link is the first `ID_LEN`
/// bytes of `id`.
pub open spec fn spec_same_as(id: Seq<char>, link: Seq<char>) -> bool {
    spec_same_bytes(id, 0, link, LINK_ID_AT as int, ID_LEN as int)
}

pub fn same_as(id: &str, link: &str) -> (r: bool)
    ensures
        r == spec_same_as(id@, link@),
{
    same_bytes(id, 0, link, LINK_ID_AT, ID_LEN)
}

} // verus!
