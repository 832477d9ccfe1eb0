//! Boards: a stub that is known from the directory, or the list of its
//! threads as one of the two indexes gave it.

use vstd::prelude::*;
use vstd::string::*;
use crate::error::ChanError;
use crate::error::Response;
use crate::error::Step;
use crate::error::malformed;
use crate::post::post_model;
use crate::post::setup_post;
use crate::thread::FourchanThread;
use crate::thread::ThreadView;
use crate::thread::clone_threads;
use crate::thread::thread_views;
use crate::url::HasUrl;
use crate::url::api_host;
use crate::url::boards_host;
use crate::wire::NativeBoard;
use crate::wire::NativeCatalogSection;
use crate::wire::NativeIndex;
use crate::wire::NativePost;
use crate::wire::NativeThreadDescription;
use crate::wire::NativeThreadSection;
use crate::wire::all_complete;
use crate::wire::are_complete;

verus! {

/// A board of the site.
#[derive(Debug)]
pub struct FourchanBoard {
    shortcode: String,
    title: String,
    work_safe: bool,
    per_page: u8,
    pages: u8,
    using_catalog: bool,
    threads: Option<Vec<FourchanThread>>,
}

/// What a `FourchanBoard` holds. A stub is not populated and has no threads.
pub struct BoardView {
    pub shortcode: Seq<char>,
    pub title: Seq<char>,
    pub work_safe: bool,
    pub per_page: u8,
    pub pages: u8,
    pub using_catalog: bool,
    pub populated: bool,
    pub threads: Seq<ThreadView>,
}

/// The threads that one page of a catalog shows on the board `board`: a
/// stub for each entry, in the page's order, with the entry as its opening
/// post.
pub open spec fn catalog_page(board: Seq<char>, entries: Seq<NativePost>) -> Seq<ThreadView> {
    entries.map_values(|n: NativePost| ThreadView::stub(board, n.no, Some(post_model(board, n))))
}

/// The threads that a catalog shows: those of its first page, then those of
/// the next, to the last.
pub open spec fn catalog_threads(board: Seq<char>, pages: Seq<NativeCatalogSection>) -> Seq<
    ThreadView,
>
    decreases pages.len(),
{
    if pages.len() == 0 {
        Seq::empty()
    } else {
        catalog_threads(board, pages.drop_last()) + catalog_page(board, pages.last().threads@)
    }
}

/// Whether every entry of every page of a catalog is complete.
pub open spec fn catalog_complete(pages: Seq<NativeCatalogSection>) -> bool {
    forall|i: int| 0 <= i < pages.len() ==> all_complete((#[trigger] pages[i]).threads@)
}

/// The threads that one page of a legacy index shows on the board `board`:
/// a stub for each entry, in the page's order, without an opening post.
pub open spec fn legacy_page(board: Seq<char>, entries: Seq<NativeThreadDescription>) -> Seq<
    ThreadView,
> {
    entries.map_values(|d: NativeThreadDescription| ThreadView::stub(board, d.no, None))
}

/// The threads that a legacy index shows: those of its first page, then
/// those of the next, to the last.
pub open spec fn legacy_threads(board: Seq<char>, pages: Seq<NativeThreadSection>) -> Seq<
    ThreadView,
>
    decreases pages.len(),
{
    if pages.len() == 0 {
        Seq::empty()
    } else {
        legacy_threads(board, pages.drop_last()) + legacy_page(board, pages.last().threads@)
    }
}

impl BoardView {
    /// The board that an entry of the directory describes: a stub, which
    /// reads the legacy index.
    pub open spec fn stub(entry: NativeBoard) -> BoardView {
        BoardView {
            shortcode: entry.board@,
            title: entry.title@,
            work_safe: entry.ws_board > 0,
            per_page: entry.per_page,
            pages: entry.pages,
            using_catalog: false,
            populated: false,
            threads: Seq::empty(),
        }
    }

    /// The board after an index was fetched: populated, with `threads` and
    /// no others.
    pub open spec fn filled(self, threads: Seq<ThreadView>) -> BoardView {
        BoardView { populated: true, threads, ..self }
    }

    /// The board's page.
    pub open spec fn url(self) -> Seq<char> {
        boards_host() + self.shortcode + "/"@
    }

    /// The endpoint of the API that serves the board's index, in the format
    /// that the board reads.
    pub open spec fn endpoint(self) -> Seq<char> {
        if self.using_catalog {
            api_host() + self.shortcode + "/"@ + "catalog.json"@
        } else {
            api_host() + self.shortcode + "/"@ + "threads.json"@
        }
    }

    /// Whether `index` is one that the board can take: in the format that
    /// the board reads, and with complete entries.
    pub open spec fn accepts(self, index: NativeIndex) -> bool {
        match index {
            NativeIndex::Catalog(pages) => self.using_catalog && catalog_complete(pages@),
            NativeIndex::Threads(_) => !self.using_catalog,
        }
    }

    /// The threads that `index` shows on the board.
    pub open spec fn indexed(self, index: NativeIndex) -> Seq<ThreadView> {
        match index {
            NativeIndex::Catalog(pages) => catalog_threads(self.shortcode, pages@),
            NativeIndex::Threads(pages) => legacy_threads(self.shortcode, pages@),
        }
    }

    /// What `update` does: `next` and `answer` are the board and the answer
    /// after `update` was called on the board `self` with `response`.
    pub open spec fn updates(
        self,
        response: Option<Response<NativeIndex>>,
        next: BoardView,
        answer: Step<Vec<FourchanThread>>,
    ) -> bool {
        match response {
            None => {
                &&& next == self
                &&& answer matches Step::Fetch(url)
                &&& url@ == self.endpoint()
            },
            Some(Response::Failed(e)) => {
                &&& next == self
                &&& answer == Step::<Vec<FourchanThread>>::Done(Err(ChanError::HTTP(e)))
            },
            Some(Response::Rejected(e)) => {
                &&& next == self
                &&& answer == Step::<Vec<FourchanThread>>::Done(Err(ChanError::JSON(e)))
            },
            Some(Response::Decoded(index)) => if self.accepts(index) {
                &&& next == self.filled(self.indexed(index))
                &&& answer matches Step::Done(Ok(threads))
                &&& thread_views(threads@) == next.threads
            } else {
                &&& next == self
                &&& answer matches Step::Done(Err(ChanError::JSON(_)))
            },
        }
    }

    /// What `threads` does: a populated board answers with the threads it
    /// holds and stays as it is, whatever `response` is; a stub does what
    /// `update` does.
    pub open spec fn lists(
        self,
        response: Option<Response<NativeIndex>>,
        next: BoardView,
        answer: Step<Vec<FourchanThread>>,
    ) -> bool {
        if self.populated {
            &&& next == self
            &&& answer matches Step::Done(Ok(threads))
            &&& thread_views(threads@) == self.threads
        } else {
            self.updates(response, next, answer)
        }
    }
}

/// What each board of a list holds.
pub open spec fn board_views(boards: Seq<FourchanBoard>) -> Seq<BoardView> {
    boards.map_values(|b: FourchanBoard| b@)
}

impl View for FourchanBoard {
    type V = BoardView;

    closed spec fn view(&self) -> BoardView {
        BoardView {
            shortcode: self.shortcode@,
            title: self.title@,
            work_safe: self.work_safe,
            per_page: self.per_page,
            pages: self.pages,
            using_catalog: self.using_catalog,
            populated: self.threads is Some,
            threads: match self.threads {
                Some(threads) => thread_views(threads@),
                None => Seq::empty(),
            },
        }
    }
}

impl Clone for FourchanBoard {
    fn clone(&self) -> (r: Self)
        ensures
            r@ == self@,
    {
        FourchanBoard {
            shortcode: self.shortcode.clone(),
            title: self.title.clone(),
            work_safe: self.work_safe,
            per_page: self.per_page,
            pages: self.pages,
            using_catalog: self.using_catalog,
            threads: match &self.threads {
                Some(threads) => Some(clone_threads(threads)),
                None => None,
            },
        }
    }
}

impl HasUrl for FourchanBoard {
    open spec fn url_spec(&self) -> Seq<char> {
        self@.url()
    }

    /// The board's page.
    fn url(&self) -> (r: String) {
        let mut r = "https://boards.4chan.org/".to_owned();
        r.append(self.shortcode.as_str());
        r.append("/");
        r
    }
}

/// Tests `catalog_complete`.
fn catalog_is_complete(pages: &Vec<NativeCatalogSection>) -> (r: bool)
    ensures
        r == catalog_complete(pages@),
{
    let mut i: usize = 0;
    while i < pages.len()
        invariant
            i <= pages.len(),
            forall|j: int| 0 <= j < i ==> all_complete((#[trigger] pages@[j]).threads@),
        decreases pages.len() - i,
    {
        if !are_complete(&pages[i].threads) {
            return false;
        }
        i += 1;
    }
    true
}

/// Appends to `threads` the stubs of one page of a catalog.
fn push_catalog_page(board: &str, threads: &mut Vec<FourchanThread>, entries: Vec<NativePost>)
    requires
        all_complete(entries@),
    ensures
        thread_views(final(threads)@) == thread_views(old(threads)@) + catalog_page(
            board@,
            entries@,
        ),
{
    let ghost before = thread_views(threads@);
    let ghost records = entries@;
    assert(thread_views(threads@) =~= before + catalog_page(board@, records.take(0)));
    for entry in it: entries
        invariant
            it.seq() == records,
            all_complete(records),
            thread_views(threads@) == before + catalog_page(board@, records.take(it.index() as int)),
    {
        let ghost held = threads@;
        let no = entry.no;
        let op = setup_post(board.to_owned(), entry);
        threads.push(FourchanThread::stub(board.to_owned(), no, Some(op)));
        proof {
            let i = it.index() as int;
            assert(records.take(i + 1) =~= records.take(i).push(records[i]));
            assert(thread_views(threads@) =~= thread_views(held).push(threads@.last()@));
            assert(thread_views(threads@) =~= before + catalog_page(board@, records.take(i + 1)));
        }
    }
    assert(records.take(records.len() as int) =~= records);
}

/// Appends to `threads` the stubs of one page of a legacy index.
fn push_legacy_page(
    board: &str,
    threads: &mut Vec<FourchanThread>,
    entries: Vec<NativeThreadDescription>,
)
    ensures
        thread_views(final(threads)@) == thread_views(old(threads)@) + legacy_page(board@, entries@),
{
    let ghost before = thread_views(threads@);
    let ghost records = entries@;
    assert(thread_views(threads@) =~= before + legacy_page(board@, records.take(0)));
    for entry in it: entries
        invariant
            it.seq() == records,
            thread_views(threads@) == before + legacy_page(board@, records.take(it.index() as int)),
    {
        let ghost held = threads@;
        threads.push(FourchanThread::stub(board.to_owned(), entry.no, None));
        proof {
            let i = it.index() as int;
            assert(records.take(i + 1) =~= records.take(i).push(records[i]));
            assert(thread_views(threads@) =~= thread_views(held).push(threads@.last()@));
            assert(thread_views(threads@) =~= before + legacy_page(board@, records.take(i + 1)));
        }
    }
    assert(records.take(records.len() as int) =~= records);
}

/// The stubs of all the threads of a catalog, page after page.
fn flatten_catalog(board: &str, pages: Vec<NativeCatalogSection>) -> (threads: Vec<FourchanThread>)
    requires
        catalog_complete(pages@),
    ensures
        thread_views(threads@) == catalog_threads(board@, pages@),
{
    let ghost records = pages@;
    let mut threads: Vec<FourchanThread> = Vec::new();
    assert(thread_views(threads@) =~= catalog_threads(board@, records.take(0)));
    for page in it: pages
        invariant
            it.seq() == records,
            catalog_complete(records),
            thread_views(threads@) == catalog_threads(board@, records.take(it.index() as int)),
    {
        proof {
            let i = it.index() as int;
            assert(records.take(i + 1).drop_last() =~= records.take(i));
            assert(records.take(i + 1).last() == records[i]);
        }
        push_catalog_page(board, &mut threads, page.threads);
    }
    assert(records.take(records.len() as int) =~= records);
    threads
}

/// The stubs of all the threads of a legacy index, page after page.
fn flatten_legacy(board: &str, pages: Vec<NativeThreadSection>) -> (threads: Vec<FourchanThread>)
    ensures
        thread_views(threads@) == legacy_threads(board@, pages@),
{
    let ghost records = pages@;
    let mut threads: Vec<FourchanThread> = Vec::new();
    assert(thread_views(threads@) =~= legacy_threads(board@, records.take(0)));
    for page in it: pages
        invariant
            it.seq() == records,
            thread_views(threads@) == legacy_threads(board@, records.take(it.index() as int)),
    {
        proof {
            let i = it.index() as int;
            assert(records.take(i + 1).drop_last() =~= records.take(i));
            assert(records.take(i + 1).last() == records[i]);
        }
        push_legacy_page(board, &mut threads, page.threads);
    }
    assert(records.take(records.len() as int) =~= records);
    threads
}

impl FourchanBoard {
    /// The board that an entry of the directory describes: a stub. It reads
    /// the legacy index, for the directory does not say which boards have a
    /// catalog.
    pub fn stub(entry: NativeBoard) -> (b: Self)
        ensures
            b@ == BoardView::stub(entry),
    {
        FourchanBoard {
            shortcode: entry.board,
            title: entry.title,
            work_safe: entry.ws_board > 0,
            per_page: entry.per_page,
            pages: entry.pages,
            using_catalog: false,
            threads: None,
        }
    }

    /// The same board, set to read the catalog (`on`) or the legacy index.
    pub fn with_catalog(self, on: bool) -> (b: Self)
        ensures
            b@ == (BoardView { using_catalog: on, ..self@ }),
    {
        FourchanBoard {
            shortcode: self.shortcode,
            title: self.title,
            work_safe: self.work_safe,
            per_page: self.per_page,
            pages: self.pages,
            using_catalog: on,
            threads: self.threads,
        }
    }

    /// Whether the board reads the catalog.
    pub fn using_catalog(&self) -> (r: bool)
        ensures
            r == self@.using_catalog,
    {
        self.using_catalog
    }

    /// The board's short name, which identifies it.
    pub fn shortcode(&self) -> (r: &str)
        ensures
            r@ == self@.shortcode,
    {
        self.shortcode.as_str()
    }

    /// The board's title.
    pub fn title(&self) -> (r: &str)
        ensures
            r@ == self@.title,
    {
        self.title.as_str()
    }

    /// Whether the board is safe for work.
    pub fn work_safe(&self) -> (r: &bool)
        ensures
            *r == self@.work_safe,
    {
        &self.work_safe
    }

    /// How many threads a page of the board shows.
    pub fn per_page(&self) -> (r: &u8)
        ensures
            *r == self@.per_page,
    {
        &self.per_page
    }

    /// How many pages the board has.
    pub fn pages(&self) -> (r: &u8)
        ensures
            *r == self@.pages,
    {
        &self.pages
    }

    /// The endpoint of the API that serves the board's index.
    pub fn endpoint(&self) -> (r: String)
        ensures
            r@ == self@.endpoint(),
    {
        let mut r = "http://a.4cdn.org/".to_owned();
        r.append(self.shortcode.as_str());
        r.append("/");
        if self.using_catalog {
            r.append("catalog.json");
        } else {
            r.append("threads.json");
        }
        r
    }

    /// Fetches the board's index again, whatever the board holds.
    ///
    /// Without a response the answer is the request to perform. With a
    /// decoded index in the format that the board reads, the board becomes
    /// populated and holds a stub for each thread of the index, page after
    /// page and each page in its order, in place of what it held; the answer
    /// is a copy of them. A thread from a catalog holds its opening post; one
    /// from the legacy index holds none. With a failure of the transport or of
    /// the decoder, with an index in the other format, or with a catalog of
    /// which an entry is incomplete, the board stays as it was and the answer
    /// is the error.
    pub fn update(&mut self, response: Option<Response<NativeIndex>>) -> (r: Step<
        Vec<FourchanThread>,
    >)
        ensures
            old(self)@.updates(response, final(self)@, r),
    {
        match response {
            None => Step::Fetch(self.endpoint()),
            Some(Response::Failed(e)) => Step::Done(Err(ChanError::HTTP(e))),
            Some(Response::Rejected(e)) => Step::Done(Err(ChanError::JSON(e))),
            Some(Response::Decoded(NativeIndex::Catalog(pages))) => {
                if !self.using_catalog {
                    return Step::Done(Err(malformed("a catalog, where the thread index was asked for")));
                }
                if !catalog_is_complete(&pages) {
                    return Step::Done(Err(malformed("a post of the catalog is incomplete")));
                }
                let threads = flatten_catalog(self.shortcode.as_str(), pages);
                let copy = clone_threads(&threads);
                self.threads = Some(threads);
                Step::Done(Ok(copy))
            },
            Some(Response::Decoded(NativeIndex::Threads(pages))) => {
                if self.using_catalog {
                    return Step::Done(Err(malformed("a thread index, where the catalog was asked for")));
                }
                let threads = flatten_legacy(self.shortcode.as_str(), pages);
                let copy = clone_threads(&threads);
                self.threads = Some(threads);
                Step::Done(Ok(copy))
            },
        }
    }

    /// The board's threads.
    ///
    /// A populated board answers with the threads it holds, and neither reads
    /// `response` nor changes. A stub answers as `update` does.
    pub fn threads(&mut self, response: Option<Response<NativeIndex>>) -> (r: Step<
        Vec<FourchanThread>,
    >)
        ensures
            old(self)@.lists(response, final(self)@, r),
    {
        match &self.threads {
            Some(threads) => Step::Done(Ok(clone_threads(threads))),
            None => self.update(response),
        }
    }
}

/// Reading is idempotent. A board that answered with its threads answers
/// with the same threads when it is asked again, whatever response comes
/// with the question: it asks for no request and does not change.
pub proof fn lemma_threads_repeatable(
    board: BoardView,
    first: Option<Response<NativeIndex>>,
    between: BoardView,
    first_answer: Step<Vec<FourchanThread>>,
    second: Option<Response<NativeIndex>>,
    after: BoardView,
    second_answer: Step<Vec<FourchanThread>>,
)
    requires
        board.lists(first, between, first_answer),
        first_answer matches Step::Done(Ok(_)),
        between.lists(second, after, second_answer),
    ensures
        after == between,
        first_answer matches Step::Done(Ok(before)) && second_answer matches Step::Done(Ok(again))
            && thread_views(again@) == thread_views(before@),
{
}

/// A catalog is read page after page, and each page in its order: the entry
/// `entry` of the page `page` stands behind all the entries of the pages
/// before it and behind the entries before it on its own page. Its thread is a
/// stub that holds the entry as its opening post.
pub proof fn lemma_catalog_order(
    board: Seq<char>,
    pages: Seq<NativeCatalogSection>,
    page: int,
    entry: int,
)
    requires
        0 <= page < pages.len(),
        0 <= entry < pages[page].threads@.len(),
    ensures
        ({
            let threads = catalog_threads(board, pages);
            let at = catalog_threads(board, pages.take(page)).len() + entry;
            let native = pages[page].threads@[entry];
            &&& at < threads.len()
            &&& threads[at] == ThreadView::stub(board, native.no, Some(post_model(board, native)))
            &&& !threads[at].populated
            &&& threads[at].op is Some
        }),
    decreases pages.len(),
{
    let front = pages.drop_last();
    if page == pages.len() - 1 {
        assert(pages.take(page) =~= front);
    } else {
        assert(front.take(page) =~= pages.take(page));
        lemma_catalog_order(board, front, page, entry);
    }
}

/// A legacy index is read page after page, and each page in its order: the
/// entry `entry` of the page `page` stands behind all the entries of the
/// pages before it and behind the entries before it on its own page. Its
/// thread is a stub without an opening post.
pub proof fn lemma_legacy_order(
    board: Seq<char>,
    pages: Seq<NativeThreadSection>,
    page: int,
    entry: int,
)
    requires
        0 <= page < pages.len(),
        0 <= entry < pages[page].threads@.len(),
    ensures
        ({
            let threads = legacy_threads(board, pages);
            let at = legacy_threads(board, pages.take(page)).len() + entry;
            &&& at < threads.len()
            &&& threads[at] == ThreadView::stub(board, pages[page].threads@[entry].no, None)
            &&& !threads[at].populated
            &&& threads[at].op is None
        }),
    decreases pages.len(),
{
    let front = pages.drop_last();
    if page == pages.len() - 1 {
        assert(pages.take(page) =~= front);
    } else {
        assert(front.take(page) =~= pages.take(page));
        lemma_legacy_order(board, front, page, entry);
    }
}

} // verus!
