//! Posts and their attached files, and the mapping that makes them from
//! wire records.

use vstd::prelude::*;
use vstd::string::*;
use crate::error::ChanError;
use crate::error::malformed;
use crate::text::decimal;
use crate::text::push_decimal;
use crate::text::decimal_string;
use crate::url::HasUrl;
use crate::url::boards_host;
use crate::wire::NativePost;
use crate::wire::all_complete;

verus! {

/// Whether a post opens its thread, and if not, which thread it answers.
#[derive(Debug, Clone, Copy)]
pub enum OpStatus {
    /// The post opens its thread.
    Yes,
    /// The post is a reply in the thread of this number.
    No(u64),
}

/// Which of a file's two images a URL is asked for.
#[derive(Debug)]
pub enum UrlType {
    /// The file as it was uploaded.
    Full,
    /// The thumbnail that the server made of it.
    Thumb,
}

/// Which of a file's two names is asked for.
#[derive(Debug)]
pub enum FilenameType {
    /// The identifier that the server gave the file.
    Renamed,
    /// The name under which the file was uploaded.
    Original,
}

/// Whether a file is hidden behind a spoiler image.
#[derive(Debug)]
pub enum SpoilerType {
    /// It is; with the number of the board's custom spoiler image, if it has
    /// one.
    Yes(Option<u8>),
    /// It is not.
    No,
}

/// A file attached to a post.
#[derive(Debug)]
pub struct FourchanFile {
    board: String,
    renamed: String,
    filename: String,
    extension: String,
    size: u32,
    md5: String,
    w: u16,
    h: u16,
    thumb_w: u8,
    thumb_h: u8,
    deleted: bool,
    spoiler: bool,
    custom_spoiler: Option<u8>,
}

/// What a `FourchanFile` holds.
pub struct FileView {
    pub board: Seq<char>,
    pub renamed: Seq<char>,
    pub filename: Seq<char>,
    pub extension: Seq<char>,
    pub size: u32,
    pub md5: Seq<char>,
    pub w: u16,
    pub h: u16,
    pub thumb_w: u8,
    pub thumb_h: u8,
    pub deleted: bool,
    pub spoiler: bool,
    pub custom_spoiler: Option<u8>,
}

/// A post: the opening post of a thread, or a reply.
#[derive(Debug)]
pub struct FourchanPost {
    board: String,
    no: u64,
    op: OpStatus,
    sticky: bool,
    closed: bool,
    timestamp: u32,
    name: Option<String>,
    trip: Option<String>,
    id: Option<String>,
    capcode: Option<String>,
    country: Option<[char; 2]>,
    subject: String,
    comment: String,
    files: Vec<FourchanFile>,
}

/// What a `FourchanPost` holds.
pub struct PostView {
    pub board: Seq<char>,
    pub no: u64,
    pub op: OpStatus,
    pub sticky: bool,
    pub closed: bool,
    pub timestamp: u32,
    pub name: Option<Seq<char>>,
    pub trip: Option<Seq<char>>,
    pub id: Option<Seq<char>>,
    pub capcode: Option<Seq<char>>,
    pub country: Option<Seq<char>>,
    pub subject: Seq<char>,
    pub comment: Seq<char>,
    pub files: Seq<FileView>,
}

/// The characters of an optional string.
pub open spec fn text(s: Option<String>) -> Option<Seq<char>> {
    match s {
        Some(s) => Some(s@),
        None => None,
    }
}

/// The characters of an optional string, and none where there is no string.
pub open spec fn text_or_empty(s: Option<String>) -> Seq<char> {
    match s {
        Some(s) => s@,
        None => Seq::empty(),
    }
}

/// The characters of an optional country code.
pub open spec fn code(c: Option<[char; 2]>) -> Option<Seq<char>> {
    match c {
        Some(c) => Some(c@),
        None => None,
    }
}

/// Whether an optional wire flag is there and set.
pub open spec fn flag_set(f: Option<u8>) -> bool {
    f matches Some(v) && v > 0
}

/// What each file of a list holds.
pub open spec fn file_views(files: Seq<FourchanFile>) -> Seq<FileView> {
    files.map_values(|f: FourchanFile| f@)
}

/// What each post of a list holds.
pub open spec fn post_views(posts: Seq<FourchanPost>) -> Seq<PostView> {
    posts.map_values(|p: FourchanPost| p@)
}

/// The file that the record `native`, found on the board `board`, describes.
/// It has a meaning where the record has an attachment and is complete.
pub open spec fn file_model(board: Seq<char>, native: NativePost) -> FileView {
    FileView {
        board,
        renamed: decimal(native.tim.unwrap() as nat),
        filename: native.filename.unwrap()@,
        extension: native.ext.unwrap()@,
        size: native.fsize.unwrap(),
        md5: native.md5.unwrap()@,
        w: native.w.unwrap(),
        h: native.h.unwrap(),
        thumb_w: native.tn_w.unwrap(),
        thumb_h: native.tn_h.unwrap(),
        deleted: flag_set(native.filedeleted),
        spoiler: flag_set(native.spoiler),
        custom_spoiler: native.custom_spoiler,
    }
}

/// The post that the record `native`, found on the board `board`, describes.
/// It has a meaning where the record is complete.
pub open spec fn post_model(board: Seq<char>, native: NativePost) -> PostView {
    PostView {
        board,
        no: native.no,
        op: if native.resto == 0 {
            OpStatus::Yes
        } else {
            OpStatus::No(native.resto)
        },
        sticky: native.sticky is Some,
        closed: native.closed is Some,
        timestamp: native.time,
        name: text(native.name),
        trip: text(native.trip),
        id: text(native.id),
        capcode: text(native.capcode),
        country: match native.country {
            Some(c) => Some(c@.subrange(0, 2)),
            None => None,
        },
        subject: text_or_empty(native.sub),
        comment: text_or_empty(native.com),
        files: if native.has_file() {
            seq![file_model(board, native)]
        } else {
            Seq::empty()
        },
    }
}

/// The posts that the records `natives`, found on the board `board`,
/// describe, in their order.
pub open spec fn posts_model(board: Seq<char>, natives: Seq<NativePost>) -> Seq<PostView> {
    natives.map_values(|n: NativePost| post_model(board, n))
}

/// The URL of a file's image of the kind `full`, or of its thumbnail.
pub open spec fn file_url(f: FileView, full: bool) -> Seq<char> {
    if full {
        "https://i.4cdn.org/"@ + f.board + "/"@ + f.renamed + f.extension
    } else {
        "https://t.4cdn.org/"@ + f.board + "/"@ + f.renamed + "s.jpg"@
    }
}

/// The number of the thread in which a post stands.
pub open spec fn thread_of(p: PostView) -> u64 {
    match p.op {
        OpStatus::Yes => p.no,
        OpStatus::No(thread) => thread,
    }
}

/// The URL of a post: the page of its thread, with the post as the fragment.
pub open spec fn post_url(p: PostView) -> Seq<char> {
    boards_host() + p.board + "/thread/"@ + decimal(thread_of(p) as nat) + "#p"@ + decimal(
        p.no as nat,
    )
}

impl View for FourchanFile {
    type V = FileView;

    closed spec fn view(&self) -> FileView {
        FileView {
            board: self.board@,
            renamed: self.renamed@,
            filename: self.filename@,
            extension: self.extension@,
            size: self.size,
            md5: self.md5@,
            w: self.w,
            h: self.h,
            thumb_w: self.thumb_w,
            thumb_h: self.thumb_h,
            deleted: self.deleted,
            spoiler: self.spoiler,
            custom_spoiler: self.custom_spoiler,
        }
    }
}

impl Clone for FourchanFile {
    fn clone(&self) -> (r: Self)
        ensures
            r@ == self@,
    {
        FourchanFile {
            board: self.board.clone(),
            renamed: self.renamed.clone(),
            filename: self.filename.clone(),
            extension: self.extension.clone(),
            size: self.size,
            md5: self.md5.clone(),
            w: self.w,
            h: self.h,
            thumb_w: self.thumb_w,
            thumb_h: self.thumb_h,
            deleted: self.deleted,
            spoiler: self.spoiler,
            custom_spoiler: self.custom_spoiler,
        }
    }
}

impl FourchanFile {
    /// The URL of the file's image, or of its thumbnail. The thumbnail is
    /// always a JPEG, named by the server's identifier and an `s`.
    pub fn url(&self, url_type: UrlType) -> (r: String)
        ensures
            r@ == file_url(self@, url_type is Full),
    {
        match url_type {
            UrlType::Thumb => {
                let mut r = "https://t.4cdn.org/".to_owned();
                r.append(self.board.as_str());
                r.append("/");
                r.append(self.renamed.as_str());
                r.append("s.jpg");
                r
            },
            UrlType::Full => {
                let mut r = "https://i.4cdn.org/".to_owned();
                r.append(self.board.as_str());
                r.append("/");
                r.append(self.renamed.as_str());
                r.append(self.extension.as_str());
                r
            },
        }
    }

    /// The server's identifier of the file, or the name under which it was
    /// uploaded.
    pub fn filename(&self, filename_type: FilenameType) -> (r: &String)
        ensures
            r@ == (if filename_type is Renamed {
                self@.renamed
            } else {
                self@.filename
            }),
    {
        match filename_type {
            FilenameType::Renamed => &self.renamed,
            FilenameType::Original => &self.filename,
        }
    }

    /// The board on which the file was posted.
    pub fn board(&self) -> (r: &str)
        ensures
            r@ == self@.board,
    {
        self.board.as_str()
    }

    /// The file's extension, with its dot.
    pub fn extension(&self) -> (r: &String)
        ensures
            r@ == self@.extension,
    {
        &self.extension
    }

    /// The file's size in bytes.
    pub fn size(&self) -> (r: &u32)
        ensures
            *r == self@.size,
    {
        &self.size
    }

    /// The MD5 hash of the file, as the server sends it.
    pub fn md5(&self) -> (r: &String)
        ensures
            r@ == self@.md5,
    {
        &self.md5
    }

    /// The image's width.
    pub fn width(&self) -> (r: &u16)
        ensures
            *r == self@.w,
    {
        &self.w
    }

    /// The image's height.
    pub fn height(&self) -> (r: &u16)
        ensures
            *r == self@.h,
    {
        &self.h
    }

    /// The thumbnail's width.
    pub fn thumb_width(&self) -> (r: &u8)
        ensures
            *r == self@.thumb_w,
    {
        &self.thumb_w
    }

    /// The thumbnail's height.
    pub fn thumb_height(&self) -> (r: &u8)
        ensures
            *r == self@.thumb_h,
    {
        &self.thumb_h
    }

    /// Whether the file was deleted from the post.
    pub fn deleted(&self) -> (r: &bool)
        ensures
            *r == self@.deleted,
    {
        &self.deleted
    }

    /// Whether the file is a spoiler, and with which custom image.
    pub fn spoiler(&self) -> (r: SpoilerType)
        ensures
            self@.spoiler ==> r == SpoilerType::Yes(self@.custom_spoiler),
            !self@.spoiler ==> r == SpoilerType::No,
    {
        if self.spoiler {
            SpoilerType::Yes(self.custom_spoiler)
        } else {
            SpoilerType::No
        }
    }
}

impl View for FourchanPost {
    type V = PostView;

    closed spec fn view(&self) -> PostView {
        PostView {
            board: self.board@,
            no: self.no,
            op: self.op,
            sticky: self.sticky,
            closed: self.closed,
            timestamp: self.timestamp,
            name: text(self.name),
            trip: text(self.trip),
            id: text(self.id),
            capcode: text(self.capcode),
            country: code(self.country),
            subject: self.subject@,
            comment: self.comment@,
            files: file_views(self.files@),
        }
    }
}

/// A copy of an optional string.
fn clone_text(s: &Option<String>) -> (r: Option<String>)
    ensures
        text(r) == text(*s),
{
    match s {
        Some(s) => Some(s.clone()),
        None => None,
    }
}

/// A copy of a list of files.
fn clone_files(files: &Vec<FourchanFile>) -> (r: Vec<FourchanFile>)
    ensures
        file_views(r@) == file_views(files@),
{
    let mut r: Vec<FourchanFile> = Vec::new();
    let mut i: usize = 0;
    while i < files.len()
        invariant
            i <= files.len(),
            r@.len() == i,
            forall|j: int| 0 <= j < i ==> (#[trigger] r@[j])@ == files@[j]@,
        decreases files.len() - i,
    {
        r.push(files[i].clone());
        i += 1;
    }
    assert(file_views(r@) =~= file_views(files@));
    r
}

/// A copy of a list of posts.
pub(crate) fn clone_posts(posts: &Vec<FourchanPost>) -> (r: Vec<FourchanPost>)
    ensures
        post_views(r@) == post_views(posts@),
{
    let mut r: Vec<FourchanPost> = Vec::new();
    let mut i: usize = 0;
    while i < posts.len()
        invariant
            i <= posts.len(),
            r@.len() == i,
            forall|j: int| 0 <= j < i ==> (#[trigger] r@[j])@ == posts@[j]@,
        decreases posts.len() - i,
    {
        r.push(posts[i].clone());
        i += 1;
    }
    assert(post_views(r@) =~= post_views(posts@));
    r
}

impl Clone for FourchanPost {
    fn clone(&self) -> (r: Self)
        ensures
            r@ == self@,
    {
        proof {
            use_type_invariant(self);
        }
        let files = clone_files(&self.files);
        assert(files@.len() == file_views(files@).len());
        assert(self.files@.len() == file_views(self.files@).len());
        FourchanPost {
            board: self.board.clone(),
            no: self.no,
            op: self.op,
            sticky: self.sticky,
            closed: self.closed,
            timestamp: self.timestamp,
            name: clone_text(&self.name),
            trip: clone_text(&self.trip),
            id: clone_text(&self.id),
            capcode: clone_text(&self.capcode),
            country: self.country,
            subject: self.subject.clone(),
            comment: self.comment.clone(),
            files,
        }
    }
}

impl HasUrl for FourchanPost {
    open spec fn url_spec(&self) -> Seq<char> {
        post_url(self@)
    }

    /// The page of the post's thread, with the post as the fragment. A reply
    /// stands under its thread's number, not under its own.
    fn url(&self) -> (r: String) {
        let thread = match self.op {
            OpStatus::No(op) => op,
            OpStatus::Yes => self.no,
        };
        let mut r = "https://boards.4chan.org/".to_owned();
        r.append(self.board.as_str());
        r.append("/thread/");
        push_decimal(&mut r, thread);
        r.append("#p");
        push_decimal(&mut r, self.no);
        r
    }
}

impl FourchanPost {
    /// A post holds one file at most.
    #[verifier::type_invariant]
    spec fn at_most_one_file(self) -> bool {
        self.files@.len() <= 1
    }

    /// The board on which the post stands.
    pub fn board(&self) -> (r: &str)
        ensures
            r@ == self@.board,
    {
        self.board.as_str()
    }

    /// The post's number.
    pub fn no(&self) -> (r: &u64)
        ensures
            *r == self@.no,
    {
        &self.no
    }

    /// Whether the post opens its thread.
    pub fn op(&self) -> (r: &OpStatus)
        ensures
            *r == self@.op,
    {
        &self.op
    }

    /// Whether the thread is pinned to the top of its board. It has a
    /// meaning for an opening post.
    pub fn sticky(&self) -> (r: &bool)
        ensures
            *r == self@.sticky,
    {
        &self.sticky
    }

    /// Whether the thread takes no more replies. It has a meaning for an
    /// opening post.
    pub fn closed(&self) -> (r: &bool)
        ensures
            *r == self@.closed,
    {
        &self.closed
    }

    /// When the post was made, in seconds of Unix time.
    pub fn timestamp(&self) -> (r: &u32)
        ensures
            *r == self@.timestamp,
    {
        &self.timestamp
    }

    /// The name that the poster gave.
    pub fn name(&self) -> (r: &Option<String>)
        ensures
            text(*r) == self@.name,
    {
        &self.name
    }

    /// The poster's tripcode.
    pub fn tripcode(&self) -> (r: &Option<String>)
        ensures
            text(*r) == self@.trip,
    {
        &self.trip
    }

    /// The poster's identifier within the thread.
    pub fn id(&self) -> (r: &Option<String>)
        ensures
            text(*r) == self@.id,
    {
        &self.id
    }

    /// The poster's capcode.
    pub fn capcode(&self) -> (r: &Option<String>)
        ensures
            text(*r) == self@.capcode,
    {
        &self.capcode
    }

    /// The two letters of the poster's country.
    pub fn country(&self) -> (r: &Option<[char; 2]>)
        ensures
            code(*r) == self@.country,
    {
        &self.country
    }

    /// The post's subject; empty where it has none.
    pub fn subject(&self) -> (r: &String)
        ensures
            r@ == self@.subject,
    {
        &self.subject
    }

    /// The post's comment; empty where it has none.
    pub fn comment(&self) -> (r: &String)
        ensures
            r@ == self@.comment,
    {
        &self.comment
    }

    /// The files attached to the post: one, or none.
    pub fn files(&self) -> (r: &Vec<FourchanFile>)
        ensures
            file_views(r@) == self@.files,
            r@.len() <= 1,
    {
        proof {
            use_type_invariant(self);
        }
        &self.files
    }
}

/// Makes the post that a wire record describes.
///
/// A flag of the thread (`sticky`, `closed`) is set where the record holds
/// the field, whatever its value. A flag of the file (`filedeleted`,
/// `spoiler`) is set where the record holds the field with a value above
/// zero. The fields of the attachment are read only where `ext` is there.
pub fn setup_post(board: String, native: NativePost) -> (post: FourchanPost)
    requires
        native.complete(),
    ensures
        post@ == post_model(board@, native),
        native.resto == 0 ==> post@.op == OpStatus::Yes,
        native.resto > 0 ==> post@.op == OpStatus::No(native.resto),
        native.sub is None ==> post@.subject == Seq::<char>::empty(),
        native.com is None ==> post@.comment == Seq::<char>::empty(),
        native.ext is None ==> post@.files.len() == 0,
        native.ext is Some ==> post@.files.len() == 1 && post@.files[0] == file_model(
            board@,
            native,
        ),
{
    let op = if native.resto == 0 {
        OpStatus::Yes
    } else {
        OpStatus::No(native.resto)
    };
    let country = match &native.country {
        Some(c) => {
            let c = c.as_str();
            let pair = [c.get_char(0), c.get_char(1)];
            assert(pair@ =~= c@.subrange(0, 2));
            Some(pair)
        },
        None => None,
    };
    let subject = match native.sub {
        None => "".to_owned(),
        Some(res) => res,
    };
    let comment = match native.com {
        None => "".to_owned(),
        Some(res) => res,
    };
    let mut files: Vec<FourchanFile> = Vec::new();
    if native.ext.is_some() {
        let deleted = match native.filedeleted {
            Some(v) => v > 0,
            None => false,
        };
        let spoiler = match native.spoiler {
            Some(v) => v > 0,
            None => false,
        };
        files.push(
            FourchanFile {
                board: board.clone(),
                renamed: decimal_string(native.tim.unwrap()),
                filename: native.filename.unwrap(),
                extension: native.ext.unwrap(),
                size: native.fsize.unwrap(),
                md5: native.md5.unwrap(),
                w: native.w.unwrap(),
                h: native.h.unwrap(),
                thumb_w: native.tn_w.unwrap(),
                thumb_h: native.tn_h.unwrap(),
                deleted,
                spoiler,
                custom_spoiler: native.custom_spoiler,
            },
        );
    }
    proof {
        reveal_strlit("");
        assert(file_views(files@) =~= post_model(board@, native).files);
    }
    let post = FourchanPost {
        board,
        no: native.no,
        op,
        sticky: native.sticky.is_some(),
        closed: native.closed.is_some(),
        timestamp: native.time,
        name: native.name,
        trip: native.trip,
        id: native.id,
        capcode: native.capcode,
        country,
        subject,
        comment,
        files,
    };
    proof {
        assert(post@.subject == text_or_empty(native.sub));
        assert(post@.comment == text_or_empty(native.com));
    }
    post
}

/// Makes the post that a wire record describes, where the record is complete,
/// and reports the record as undecodable where it is not.
pub fn map_post(board: String, native: NativePost) -> (r: Result<FourchanPost, ChanError>)
    ensures
        native.complete() ==> (r matches Ok(post) && post@ == post_model(board@, native)),
        !native.complete() ==> (r matches Err(ChanError::JSON(_))),
{
    if native.is_complete() {
        Ok(setup_post(board, native))
    } else {
        Err(malformed("the post is incomplete"))
    }
}

/// Makes the posts that a list of wire records describes, in their order.
pub(crate) fn setup_posts(board: &str, natives: Vec<NativePost>) -> (posts: Vec<FourchanPost>)
    requires
        all_complete(natives@),
    ensures
        post_views(posts@) == posts_model(board@, natives@),
{
    let ghost records = natives@;
    let mut posts: Vec<FourchanPost> = Vec::new();
    for native in it: natives
        invariant
            it.seq() == records,
            all_complete(records),
            posts@.len() == it.index(),
            forall|j: int|
                0 <= j < it.index() ==> (#[trigger] posts@[j])@ == post_model(board@, records[j]),
    {
        posts.push(setup_post(board.to_owned(), native));
    }
    assert(post_views(posts@) =~= posts_model(board@, records));
    posts
}

} // verus!
