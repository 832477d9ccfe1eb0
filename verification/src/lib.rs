//! A client-side model of a public imageboard's read-only JSON API.
//!
//! The library holds the typed entity graph (the site, its boards, their
//! threads, posts and attached files), the mapping from the API's wire
//! records to that graph, and the URLs derived from it.
//!
//! It performs no I/O. An operation that needs the network takes the
//! response as an argument: called without one, it answers with the endpoint
//! to fetch, and is called again with what came back.

pub mod board;
pub mod chan;
pub mod error;
pub mod post;
pub mod text;
pub mod thread;
pub mod url;
pub mod wire;

pub use board::FourchanBoard;
pub use chan::Fourchan;
pub use error::ChanError;
pub use error::Response;
pub use error::Step;
pub use post::map_post;
pub use post::setup_post;
pub use post::FilenameType;
pub use post::FourchanFile;
pub use post::FourchanPost;
pub use post::OpStatus;
pub use post::SpoilerType;
pub use post::UrlType;
pub use thread::FourchanThread;
pub use url::HasUrl;
pub use wire::NativeBoard;
pub use wire::NativeBoards;
pub use wire::NativeCatalogSection;
pub use wire::NativeIndex;
pub use wire::NativePost;
pub use wire::NativeThread;
pub use wire::NativeThreadDescription;
pub use wire::NativeThreadSection;
