//! The TikTok provider.

use vstd::prelude::*;
use vstd::string::*;
use crate::pattern::{find_first, first_match, pattern_compiles};
use crate::providers::Provider;

verus! {

/// The regular expression of a TikTok link: an optional `www.` or `vm.`,
/// then `tiktok.com` and at least one character that is not white space.
pub const TIKTOK_PATTERN: &'static str = "(?:(?:www|vm)\\.)?tiktok\\.com\\S+";

/// What a matched link is prefixed with to point at the proxy.
pub const TIKTOK_PROXY: &'static str = "https://tiktok.sauce.sh/?url=https://";

/// The first TikTok link in `text`, if the pattern is accepted and matches.
pub open spec fn tiktok_link(text: Seq<char>) -> Option<Seq<char>> {
    if pattern_compiles(TIKTOK_PATTERN@) {
        first_match(TIKTOK_PATTERN@, text)
    } else {
        None
    }
}

/// Recognises links to TikTok and rewrites them to go through the proxy.
#[derive(Clone, Copy, Debug)]
pub struct TiktokProvider;

impl Provider for TiktokProvider {
    open spec fn name_spec(&self) -> Seq<char> {
        "tiktok"@
    }

    open spec fn match_spec(&self, text: Seq<char>) -> Option<Seq<char>> {
        tiktok_link(text)
    }

    open spec fn message_spec(&self, url: Seq<char>) -> Seq<char> {
        TIKTOK_PROXY@ + url
    }

    fn name(&self) -> (res: String) {
        String::from_str("tiktok")
    }

    fn match_url<'a>(&self, text: &'a str) -> (res: Option<&'a str>) {
        match find_first(TIKTOK_PATTERN, text) {
            Ok(found) => found,
            Err(_) => None,
        }
    }

    fn new_message(&self, url: &str) -> (res: String) {
        String::from_str(TIKTOK_PROXY).concat(url)
    }
}

} // verus!
