//! Content providers: named matchers that claim a link in a message and
//! rewrite it into the text that is posted in its place.

use vstd::prelude::*;
use crate::pattern::is_piece_of;

pub mod tiktok;

verus! {

/// A content provider. Each method has a mathematical counterpart that the
/// rest of the library reasons with; an implementation proves that its code
/// computes it.
pub trait Provider: Sync {
    /// The provider's identifier, as used in configuration and listings.
    spec fn name_spec(&self) -> Seq<char>;

    /// The first link of this provider in `text`, if there is one.
    spec fn match_spec(&self, text: Seq<char>) -> Option<Seq<char>>;

    /// The text posted in place of the matched link `url`.
    spec fn message_spec(&self, url: Seq<char>) -> Seq<char>;

    /// The provider's identifier.
    fn name(&self) -> (res: String)
        ensures
            res@ == self.name_spec(),
    ;

    /// The first link of this provider in `text`: a piece of `text`, or
    /// `None` if there is no such link.
    fn match_url<'a>(&self, text: &'a str) -> (res: Option<&'a str>)
        ensures
            match res {
                Some(url) => self.match_spec(text@) == Some(url@) && is_piece_of(url@, text@),
                None => self.match_spec(text@) is None,
            },
    ;

    /// The text to post in place of the matched link `url`.
    fn new_message(&self, url: &str) -> (res: String)
        ensures
            res@ == self.message_spec(url@),
    ;
}

/// The names of `providers`, in registration order.
pub open spec fn provider_names(providers: Seq<&dyn Provider>) -> Seq<Seq<char>> {
    providers.map_values(|provider: &dyn Provider| provider.name_spec())
}

} // verus!
