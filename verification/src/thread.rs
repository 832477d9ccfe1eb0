//! Threads: a stub that is known by its number, or the list of its posts.

use vstd::prelude::*;
use vstd::string::*;
use crate::error::ChanError;
use crate::error::Response;
use crate::error::Step;
use crate::error::malformed;
use crate::post::FourchanPost;
use crate::post::PostView;
use crate::post::clone_posts;
use crate::post::post_views;
use crate::post::posts_model;
use crate::post::setup_posts;
use crate::text::decimal;
use crate::text::push_decimal;
use crate::url::HasUrl;
use crate::url::api_host;
use crate::url::boards_host;
use crate::wire::NativePost;
use crate::wire::NativeThread;
use crate::wire::all_complete;
use crate::wire::are_complete;

verus! {

/// A thread of a board.
#[derive(Debug)]
pub struct FourchanThread {
    op: Option<FourchanPost>,
    board: String,
    no: u64,
    last_modified: Option<u32>,
    posts: Option<Vec<FourchanPost>>,
}

/// What a `FourchanThread` holds. A stub is not populated and has no posts.
pub struct ThreadView {
    pub op: Option<PostView>,
    pub board: Seq<char>,
    pub no: u64,
    pub last_modified: Option<u32>,
    pub populated: bool,
    pub posts: Seq<PostView>,
}

impl ThreadView {
    /// The thread `no` of the board `board` as an index shows it: a stub,
    /// with its opening post where the index holds it.
    pub open spec fn stub(board: Seq<char>, no: u64, op: Option<PostView>) -> ThreadView {
        ThreadView {
            op,
            board,
            no,
            last_modified: None,
            populated: false,
            posts: Seq::empty(),
        }
    }

    /// The thread after its content `natives` was fetched: populated, with
    /// the posts that `natives` describes and no others.
    pub open spec fn filled(self, natives: Seq<NativePost>) -> ThreadView {
        ThreadView { populated: true, posts: posts_model(self.board, natives), ..self }
    }

    /// The thread's page.
    pub open spec fn url(self) -> Seq<char> {
        boards_host() + self.board + "/thread/"@ + decimal(self.no as nat)
    }

    /// The endpoint of the API that serves the thread's content.
    pub open spec fn endpoint(self) -> Seq<char> {
        api_host() + self.board + "/thread/"@ + decimal(self.no as nat) + ".json"@
    }

    /// What `update` does: `next` and `answer` are the thread and the answer
    /// after `update` was called on the thread `self` with `response`.
    pub open spec fn updates(
        self,
        response: Option<Response<NativeThread>>,
        next: ThreadView,
        answer: Step<Vec<FourchanPost>>,
    ) -> bool {
        match response {
            None => {
                &&& next == self
                &&& answer matches Step::Fetch(url)
                &&& url@ == self.endpoint()
            },
            Some(Response::Failed(e)) => {
                &&& next == self
                &&& answer == Step::<Vec<FourchanPost>>::Done(Err(ChanError::HTTP(e)))
            },
            Some(Response::Rejected(e)) => {
                &&& next == self
                &&& answer == Step::<Vec<FourchanPost>>::Done(Err(ChanError::JSON(e)))
            },
            Some(Response::Decoded(content)) => if all_complete(content.posts@) {
                &&& next == self.filled(content.posts@)
                &&& answer matches Step::Done(Ok(posts))
                &&& post_views(posts@) == next.posts
            } else {
                &&& next == self
                &&& answer matches Step::Done(Err(ChanError::JSON(_)))
            },
        }
    }

    /// What `posts` does: a populated thread answers with the posts it holds
    /// and stays as it is, whatever `response` is; a stub does what `update`
    /// does.
    pub open spec fn reads(
        self,
        response: Option<Response<NativeThread>>,
        next: ThreadView,
        answer: Step<Vec<FourchanPost>>,
    ) -> bool {
        if self.populated {
            &&& next == self
            &&& answer matches Step::Done(Ok(posts))
            &&& post_views(posts@) == self.posts
        } else {
            self.updates(response, next, answer)
        }
    }
}

/// What each thread of a list holds.
pub open spec fn thread_views(threads: Seq<FourchanThread>) -> Seq<ThreadView> {
    threads.map_values(|t: FourchanThread| t@)
}

impl View for FourchanThread {
    type V = ThreadView;

    closed spec fn view(&self) -> ThreadView {
        ThreadView {
            op: match self.op {
                Some(p) => Some(p@),
                None => None,
            },
            board: self.board@,
            no: self.no,
            last_modified: self.last_modified,
            populated: self.posts is Some,
            posts: match self.posts {
                Some(posts) => post_views(posts@),
                None => Seq::empty(),
            },
        }
    }
}

impl Clone for FourchanThread {
    fn clone(&self) -> (r: Self)
        ensures
            r@ == self@,
    {
        FourchanThread {
            op: match &self.op {
                Some(p) => Some(p.clone()),
                None => None,
            },
            board: self.board.clone(),
            no: self.no,
            last_modified: self.last_modified,
            posts: match &self.posts {
                Some(posts) => Some(clone_posts(posts)),
                None => None,
            },
        }
    }
}

/// A copy of a list of threads.
pub(crate) fn clone_threads(threads: &Vec<FourchanThread>) -> (r: Vec<FourchanThread>)
    ensures
        thread_views(r@) == thread_views(threads@),
{
    let mut r: Vec<FourchanThread> = Vec::new();
    let mut i: usize = 0;
    while i < threads.len()
        invariant
            i <= threads.len(),
            r@.len() == i,
            forall|j: int| 0 <= j < i ==> (#[trigger] r@[j])@ == threads@[j]@,
        decreases threads.len() - i,
    {
        r.push(threads[i].clone());
        i += 1;
    }
    assert(thread_views(r@) =~= thread_views(threads@));
    r
}

impl HasUrl for FourchanThread {
    open spec fn url_spec(&self) -> Seq<char> {
        self@.url()
    }

    /// The thread's page.
    fn url(&self) -> (r: String) {
        let mut r = "https://boards.4chan.org/".to_owned();
        r.append(self.board.as_str());
        r.append("/thread/");
        push_decimal(&mut r, self.no);
        r
    }
}

impl FourchanThread {
    /// The thread `no` of the board `board`, not yet fetched, with the
    /// opening post `op` where the index gave it.
    pub fn stub(board: String, no: u64, op: Option<FourchanPost>) -> (t: Self)
        ensures
            t@ == ThreadView::stub(
                board@,
                no,
                match op {
                    Some(p) => Some(p@),
                    None => None,
                },
            ),
    {
        FourchanThread { op, board, no, last_modified: None, posts: None }
    }

    /// The thread's number, which is the number of its opening post.
    pub fn no(&self) -> (r: &u64)
        ensures
            *r == self@.no,
    {
        &self.no
    }

    /// The board on which the thread stands.
    pub fn board(&self) -> (r: &str)
        ensures
            r@ == self@.board,
    {
        self.board.as_str()
    }

    /// When the thread was last changed, where that is known.
    pub fn last_modified(&self) -> (r: &Option<u32>)
        ensures
            *r == self@.last_modified,
    {
        &self.last_modified
    }

    /// The opening post, where the thread came from a catalog.
    pub fn op(&self) -> (r: &Option<FourchanPost>)
        ensures
            match *r {
                Some(p) => self@.op == Some(p@),
                None => self@.op is None,
            },
    {
        &self.op
    }

    /// The endpoint of the API that serves the thread's content.
    pub fn endpoint(&self) -> (r: String)
        ensures
            r@ == self@.endpoint(),
    {
        let mut r = "http://a.4cdn.org/".to_owned();
        r.append(self.board.as_str());
        r.append("/thread/");
        push_decimal(&mut r, self.no);
        r.append(".json");
        r
    }

    /// The thread's posts, the opening post first.
    ///
    /// A populated thread answers with the posts it holds, and neither reads
    /// `response` nor changes. A stub answers as `update` does.
    pub fn posts(&mut self, response: Option<Response<NativeThread>>) -> (r: Step<
        Vec<FourchanPost>,
    >)
        ensures
            old(self)@.reads(response, final(self)@, r),
    {
        match &self.posts {
            Some(posts) => Step::Done(Ok(clone_posts(posts))),
            None => self.update(response),
        }
    }

    /// Fetches the thread's content again, whatever the thread holds.
    ///
    /// Without a response the answer is the request to perform. With the
    /// decoded content the thread becomes populated and holds the posts of
    /// that content, in its order, in place of what it held; the answer is a
    /// copy of them. With a failure of the transport or of the decoder, or with
    /// content of which a record is incomplete, the thread stays as it was and
    /// the answer is the error. The opening post that an index gave is never
    /// touched.
    pub fn update(&mut self, response: Option<Response<NativeThread>>) -> (r: Step<
        Vec<FourchanPost>,
    >)
        ensures
            old(self)@.updates(response, final(self)@, r),
    {
        match response {
            None => Step::Fetch(self.endpoint()),
            Some(Response::Failed(e)) => Step::Done(Err(ChanError::HTTP(e))),
            Some(Response::Rejected(e)) => Step::Done(Err(ChanError::JSON(e))),
            Some(Response::Decoded(content)) => {
                if !are_complete(&content.posts) {
                    return Step::Done(Err(malformed("a post of the thread is incomplete")));
                }
                let posts = setup_posts(self.board.as_str(), content.posts);
                let copy = clone_posts(&posts);
                self.posts = Some(posts);
                Step::Done(Ok(copy))
            },
        }
    }
}

/// A second fetch overwrites the first. Whatever a first `update` did, an
/// `update` that brings complete content leaves the thread populated with
/// the posts of that content, and with nothing of what it held before; the
/// opening post that an index gave stays.
pub proof fn lemma_update_overwrites(
    thread: ThreadView,
    first: Option<Response<NativeThread>>,
    between: ThreadView,
    first_answer: Step<Vec<FourchanPost>>,
    second: NativeThread,
    after: ThreadView,
    second_answer: Step<Vec<FourchanPost>>,
)
    requires
        thread.updates(first, between, first_answer),
        all_complete(second.posts@),
        between.updates(Some(Response::Decoded(second)), after, second_answer),
    ensures
        after == thread.filled(second.posts@),
        after.populated,
        after.posts == posts_model(thread.board, second.posts@),
        after.op == thread.op,
        second_answer matches Step::Done(Ok(posts)) && post_views(posts@) == posts_model(
            thread.board,
            second.posts@,
        ),
{
}

/// A thread that answered with its posts answers with the same posts when it
/// is asked again, whatever response comes with the question, and does not
/// change.
pub proof fn lemma_posts_repeatable(
    thread: ThreadView,
    first: Option<Response<NativeThread>>,
    between: ThreadView,
    first_answer: Step<Vec<FourchanPost>>,
    second: Option<Response<NativeThread>>,
    after: ThreadView,
    second_answer: Step<Vec<FourchanPost>>,
)
    requires
        thread.reads(first, between, first_answer),
        first_answer matches Step::Done(Ok(_)),
        between.reads(second, after, second_answer),
    ensures
        after == between,
        first_answer matches Step::Done(Ok(before)) && second_answer matches Step::Done(Ok(again))
            && post_views(again@) == post_views(before@),
{
}

} // verus!
