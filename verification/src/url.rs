//! What every entity of the graph has: an address on the web.

use vstd::prelude::*;

verus! {

/// An entity that has a canonical page.
pub trait HasUrl {
    /// The characters of the entity's URL.
    spec fn url_spec(&self) -> Seq<char>;

    /// The entity's URL.
    fn url(&self) -> (r: String)
        ensures
            r@ == self.url_spec(),
    ;
}

/// The host of the web pages, with its scheme and the slash that ends it.
pub open spec fn boards_host() -> Seq<char> {
    "https://boards.4chan.org/"@
}

/// The host of the API, with its scheme and the slash that ends it.
pub open spec fn api_host() -> Seq<char> {
    "http://a.4cdn.org/"@
}

} // verus!
