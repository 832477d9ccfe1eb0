//! The wire records: plain data that mirrors the JSON that the API serves.
//! Every field that the API may leave out is an `Option`.

use vstd::prelude::*;
use vstd::string::*;

verus! {

/// One post as the API serves it, in a thread or as a catalog entry.
#[derive(Debug)]
pub struct NativePost {
    pub no: u64,
    pub resto: u64,
    pub sticky: Option<u8>,
    pub closed: Option<u8>,
    pub now: String,
    pub time: u32,
    pub name: Option<String>,
    pub trip: Option<String>,
    pub id: Option<String>,
    pub capcode: Option<String>,
    pub country: Option<String>,
    pub sub: Option<String>,
    pub com: Option<String>,
    pub tim: Option<u64>,
    pub filename: Option<String>,
    pub ext: Option<String>,
    pub fsize: Option<u32>,
    pub md5: Option<String>,
    pub w: Option<u16>,
    pub h: Option<u16>,
    pub tn_w: Option<u8>,
    pub tn_h: Option<u8>,
    pub filedeleted: Option<u8>,
    pub spoiler: Option<u8>,
    pub custom_spoiler: Option<u8>,
    pub replies: Option<u32>,
    pub images: Option<u32>,
    pub bumplimit: Option<u8>,
    pub imagelimit: Option<u8>,
    pub last_modified: Option<u32>,
}

/// The content of one thread: its posts, the opening post first.
#[derive(Debug)]
pub struct NativeThread {
    pub posts: Vec<NativePost>,
}

/// One entry of the legacy thread index.
#[derive(Debug)]
pub struct NativeThreadDescription {
    pub no: u64,
    pub last_modified: u32,
}

/// One page of the legacy thread index.
#[derive(Debug)]
pub struct NativeThreadSection {
    pub page: u8,
    pub threads: Vec<NativeThreadDescription>,
}

/// One page of the catalog: the opening post of each thread on it.
#[derive(Debug)]
pub struct NativeCatalogSection {
    pub page: u8,
    pub threads: Vec<NativePost>,
}

/// One entry of the board directory.
#[derive(Debug)]
pub struct NativeBoard {
    pub board: String,
    pub title: String,
    pub ws_board: u8,
    pub per_page: u8,
    pub pages: u8,
}

/// The board directory.
#[derive(Debug)]
pub struct NativeBoards {
    pub boards: Vec<NativeBoard>,
}

/// The thread index of a board, in the one or the other of its two formats.
#[derive(Debug)]
pub enum NativeIndex {
    /// The pages of `catalog.json`.
    Catalog(Vec<NativeCatalogSection>),
    /// The pages of `threads.json`.
    Threads(Vec<NativeThreadSection>),
}

/// A copy of an optional string.
fn copy_text(s: &Option<String>) -> (r: Option<String>)
    ensures
        r == *s,
{
    match s {
        Some(s) => Some(s.clone()),
        None => None,
    }
}

impl Clone for NativePost {
    fn clone(&self) -> (r: Self)
        ensures
            r == *self,
    {
        NativePost {
            no: self.no,
            resto: self.resto,
            sticky: self.sticky,
            closed: self.closed,
            now: self.now.clone(),
            time: self.time,
            name: copy_text(&self.name),
            trip: copy_text(&self.trip),
            id: copy_text(&self.id),
            capcode: copy_text(&self.capcode),
            country: copy_text(&self.country),
            sub: copy_text(&self.sub),
            com: copy_text(&self.com),
            tim: self.tim,
            filename: copy_text(&self.filename),
            ext: copy_text(&self.ext),
            fsize: self.fsize,
            md5: copy_text(&self.md5),
            w: self.w,
            h: self.h,
            tn_w: self.tn_w,
            tn_h: self.tn_h,
            filedeleted: self.filedeleted,
            spoiler: self.spoiler,
            custom_spoiler: self.custom_spoiler,
            replies: self.replies,
            images: self.images,
            bumplimit: self.bumplimit,
            imagelimit: self.imagelimit,
            last_modified: self.last_modified,
        }
    }
}

impl NativePost {
    /// Whether the record has an attachment: the API says so by sending `ext`.
    pub open spec fn has_file(&self) -> bool {
        self.ext is Some
    }

    /// Whether the record holds all that a post is made from: a country code,
    /// where there is one, of two characters or more, and, where there is an
    /// attachment, every field that describes it.
    pub open spec fn complete(&self) -> bool {
        &&& self.country matches Some(c) ==> c@.len() >= 2
        &&& self.has_file() ==> {
            &&& self.tim is Some
            &&& self.filename is Some
            &&& self.fsize is Some
            &&& self.md5 is Some
            &&& self.w is Some
            &&& self.h is Some
            &&& self.tn_w is Some
            &&& self.tn_h is Some
        }
    }

    /// Tests `complete`.
    pub fn is_complete(&self) -> (r: bool)
        ensures
            r == self.complete(),
    {
        let country_ok = match &self.country {
            Some(c) => c.as_str().unicode_len() >= 2,
            None => true,
        };
        let file_ok = self.ext.is_none() || (self.tim.is_some() && self.filename.is_some()
            && self.fsize.is_some() && self.md5.is_some() && self.w.is_some() && self.h.is_some()
            && self.tn_w.is_some() && self.tn_h.is_some());
        country_ok && file_ok
    }
}

/// Whether every record of `posts` is complete.
pub open spec fn all_complete(posts: Seq<NativePost>) -> bool {
    forall|i: int| 0 <= i < posts.len() ==> (#[trigger] posts[i]).complete()
}

/// Tests `all_complete`.
pub fn are_complete(posts: &Vec<NativePost>) -> (r: bool)
    ensures
        r == all_complete(posts@),
{
    let mut i: usize = 0;
    while i < posts.len()
        invariant
            i <= posts.len(),
            forall|j: int| 0 <= j < i ==> (#[trigger] posts@[j]).complete(),
        decreases posts.len() - i,
    {
        if !posts[i].is_complete() {
            return false;
        }
        i += 1;
    }
    true
}

} // verus!
