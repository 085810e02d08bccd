//! Where messages are sent.

use crate::text::{spec_starts_with, starts_with};
use vstd::prelude::*;
use vstd::utf8::encode_utf8;

verus! {

/// How long the URL of a Discord webhook is, in bytes.
pub const WEBHOOK_URL_LEN: usize = 123;

/// Whether `url` has the shape of the URL of a Discord webhook: its
/// length, and its beginning up to the id of the webhook.
pub open spec fn spec_validate_url(url: Seq<char>) -> bool {
    encode_utf8(url).len() == WEBHOOK_URL_LEN && spec_starts_with(
        url,
        "https://discordapp.com/api/webhooks"@,
    )
}

pub fn validate_url(url: &str) -> (r: bool)
    ensures
        r == spec_validate_url(url@),
{
    url.as_bytes().len() == WEBHOOK_URL_LEN && starts_with(
        url,
        "https://discordapp.com/api/webhooks",
    )
}

} // verus!
