//! The site: the directory of its boards, keyed by shortcode.

use vstd::prelude::*;
use vstd::string::*;
use crate::board::BoardView;
use crate::board::FourchanBoard;
use crate::board::board_views;
use crate::error::ChanError;
use crate::error::Response;
use crate::error::Step;
use crate::url::HasUrl;
use crate::url::api_host;
use crate::wire::NativeBoard;
use crate::wire::NativeBoards;

verus! {

/// The site. It holds the boards of the directory, no two of them under one
/// shortcode, and is empty until the directory was fetched.
#[derive(Debug)]
pub struct Fourchan {
    boards: Vec<FourchanBoard>,
}

/// The mapping that the site holds: each board under its shortcode.
pub type Directory = Map<Seq<char>, BoardView>;

/// Whether no two boards of a list have the same shortcode.
pub open spec fn distinct(boards: Seq<BoardView>) -> bool {
    forall|i: int, j: int|
        0 <= i < j < boards.len() ==> (#[trigger] boards[i]).shortcode != (
        #[trigger] boards[j]).shortcode
}

/// The mapping that a list of boards stands for: each board under its
/// shortcode, a later board in place of an earlier one with the same
/// shortcode.
pub open spec fn keyed(boards: Seq<BoardView>) -> Directory
    decreases boards.len(),
{
    if boards.len() == 0 {
        Map::empty()
    } else {
        keyed(boards.drop_last()).insert(boards.last().shortcode, boards.last())
    }
}

/// The mapping that a directory response describes: a stub for each entry
/// under the entry's shortcode, a later entry in place of an earlier one with
/// the same shortcode.
pub open spec fn directory_model(entries: Seq<NativeBoard>) -> Directory
    decreases entries.len(),
{
    if entries.len() == 0 {
        Map::empty()
    } else {
        directory_model(entries.drop_last()).insert(
            entries.last().board@,
            BoardView::stub(entries.last()),
        )
    }
}

/// The endpoint of the API that serves the directory.
pub open spec fn directory_endpoint() -> Seq<char> {
    api_host() + "boards.json"@
}

/// Whether `boards` is the mapping `directory` written as a list: every
/// board once, under its own shortcode.
pub open spec fn lists_directory(boards: Seq<FourchanBoard>, directory: Directory) -> bool {
    &&& distinct(board_views(boards))
    &&& keyed(board_views(boards)) == directory
}

/// What `update` does: `next` and `answer` are the directory and the answer
/// after `update` was called on a site with `response`. What the site held
/// before has no part in it.
pub open spec fn updates(
    held: Directory,
    response: Option<Response<NativeBoards>>,
    next: Directory,
    answer: Step<Vec<FourchanBoard>>,
) -> bool {
    match response {
        None => {
            &&& next == held
            &&& answer matches Step::Fetch(url)
            &&& url@ == directory_endpoint()
        },
        Some(Response::Failed(e)) => {
            &&& next == held
            &&& answer == Step::<Vec<FourchanBoard>>::Done(Err(ChanError::HTTP(e)))
        },
        Some(Response::Rejected(e)) => {
            &&& next == held
            &&& answer == Step::<Vec<FourchanBoard>>::Done(Err(ChanError::JSON(e)))
        },
        Some(Response::Decoded(listing)) => {
            &&& next == directory_model(listing.boards@)
            &&& answer matches Step::Done(Ok(boards))
            &&& lists_directory(boards@, next)
        },
    }
}

/// What `boards` does: a site that holds boards answers with them and stays
/// as it is, whatever `response` is; an empty one does what `update` does.
pub open spec fn lists(
    held: Directory,
    response: Option<Response<NativeBoards>>,
    next: Directory,
    answer: Step<Vec<FourchanBoard>>,
) -> bool {
    if held.dom() =~= Set::empty() {
        updates(held, response, next, answer)
    } else {
        &&& next == held
        &&& answer matches Step::Done(Ok(boards))
        &&& lists_directory(boards@, held)
    }
}

/// What a lookup of `shortcode` in `directory` answers: the board under that
/// shortcode, or the error that names the shortcode where there is none.
pub open spec fn looks_up(directory: Directory, shortcode: Seq<char>, found: Result<
    FourchanBoard,
    ChanError,
>) -> bool {
    if directory.contains_key(shortcode) {
        found matches Ok(board) && board@ == directory[shortcode]
    } else {
        found matches Err(ChanError::NonexistantBoard(name)) && name@ == shortcode
    }
}

/// What `board` does: it does what `boards` does, and where that gives the
/// directory, it looks `shortcode` up in it.
pub open spec fn finds(
    held: Directory,
    shortcode: Seq<char>,
    response: Option<Response<NativeBoards>>,
    next: Directory,
    answer: Step<FourchanBoard>,
) -> bool {
    if held.dom() =~= Set::empty() {
        match response {
            None => {
                &&& next == held
                &&& answer matches Step::Fetch(url)
                &&& url@ == directory_endpoint()
            },
            Some(Response::Failed(e)) => {
                &&& next == held
                &&& answer == Step::<FourchanBoard>::Done(Err(ChanError::HTTP(e)))
            },
            Some(Response::Rejected(e)) => {
                &&& next == held
                &&& answer == Step::<FourchanBoard>::Done(Err(ChanError::JSON(e)))
            },
            Some(Response::Decoded(listing)) => {
                &&& next == directory_model(listing.boards@)
                &&& answer matches Step::Done(found)
                &&& looks_up(next, shortcode, found)
            },
        }
    } else {
        &&& next == held
        &&& answer matches Step::Done(found)
        &&& looks_up(held, shortcode, found)
    }
}

/// A list and the mapping it stands for hold the same shortcodes.
pub proof fn lemma_keyed_domain(boards: Seq<BoardView>, shortcode: Seq<char>)
    ensures
        keyed(boards).contains_key(shortcode) <==> exists|i: int|
            0 <= i < boards.len() && (#[trigger] boards[i]).shortcode == shortcode,
    decreases boards.len(),
{
    if boards.len() > 0 {
        let front = boards.drop_last();
        lemma_keyed_domain(front, shortcode);
        if keyed(boards).contains_key(shortcode) {
            if boards.last().shortcode == shortcode {
                assert(boards[boards.len() - 1].shortcode == shortcode);
            } else {
                let i = choose|i: int|
                    0 <= i < front.len() && (#[trigger] front[i]).shortcode == shortcode;
                assert(boards[i].shortcode == shortcode);
            }
        }
        if exists|i: int| 0 <= i < boards.len() && (#[trigger] boards[i]).shortcode == shortcode {
            let i = choose|i: int|
                0 <= i < boards.len() && (#[trigger] boards[i]).shortcode == shortcode;
            if i < front.len() {
                assert(front[i].shortcode == shortcode);
            }
        }
    }
}

/// The mapping holds, under a shortcode, the last board of the list that has
/// that shortcode.
pub proof fn lemma_keyed_last(boards: Seq<BoardView>, k: int)
    requires
        0 <= k < boards.len(),
        forall|i: int| k < i < boards.len() ==> (#[trigger] boards[i]).shortcode != boards[k].shortcode,
    ensures
        keyed(boards).contains_key(boards[k].shortcode),
        keyed(boards)[boards[k].shortcode] == boards[k],
    decreases boards.len(),
{
    let front = boards.drop_last();
    if k < front.len() {
        assert forall|i: int| k < i < front.len() implies (#[trigger] front[i]).shortcode
            != front[k].shortcode by {
            assert(boards[i].shortcode != boards[k].shortcode);
        }
        lemma_keyed_last(front, k);
        assert(boards[boards.len() - 1].shortcode != boards[k].shortcode);
    }
}

/// To put a board in the place of the one with its shortcode is to insert it
/// into the mapping.
proof fn lemma_keyed_replace(boards: Seq<BoardView>, k: int, board: BoardView)
    requires
        distinct(boards),
        0 <= k < boards.len(),
        boards[k].shortcode == board.shortcode,
    ensures
        distinct(boards.update(k, board)),
        keyed(boards.update(k, board)) == keyed(boards).insert(board.shortcode, board),
    decreases boards.len(),
{
    let changed = boards.update(k, board);
    assert(distinct(changed)) by {
        assert forall|a: int, b: int| 0 <= a < b < changed.len() implies (
        #[trigger] changed[a]).shortcode != (#[trigger] changed[b]).shortcode by {
            assert(boards[a].shortcode != boards[b].shortcode);
        }
    }
    let front = boards.drop_last();
    if k == boards.len() - 1 {
        assert(changed.drop_last() =~= front);
        assert(keyed(changed) =~= keyed(boards).insert(board.shortcode, board));
    } else {
        assert(distinct(front)) by {
            assert forall|a: int, b: int| 0 <= a < b < front.len() implies (
            #[trigger] front[a]).shortcode != (#[trigger] front[b]).shortcode by {
                assert(boards[a].shortcode != boards[b].shortcode);
            }
        }
        lemma_keyed_replace(front, k, board);
        assert(changed.drop_last() =~= front.update(k, board));
        assert(changed.last() == boards.last());
        assert(boards[k].shortcode != boards[boards.len() - 1].shortcode);
        assert(keyed(changed) =~= keyed(boards).insert(board.shortcode, board));
    }
}

impl View for Fourchan {
    type V = Directory;

    closed spec fn view(&self) -> Directory {
        keyed(board_views(self.boards@))
    }
}

impl HasUrl for Fourchan {
    open spec fn url_spec(&self) -> Seq<char> {
        "https://www.4chan.org/"@
    }

    /// The site's front page.
    fn url(&self) -> (r: String) {
        "https://www.4chan.org/".to_owned()
    }
}

/// A copy of a list of boards.
pub(crate) fn clone_boards(boards: &Vec<FourchanBoard>) -> (r: Vec<FourchanBoard>)
    ensures
        board_views(r@) == board_views(boards@),
{
    let mut r: Vec<FourchanBoard> = Vec::new();
    let mut i: usize = 0;
    while i < boards.len()
        invariant
            i <= boards.len(),
            r@.len() == i,
            forall|j: int| 0 <= j < i ==> (#[trigger] r@[j])@ == boards@[j]@,
        decreases boards.len() - i,
    {
        r.push(boards[i].clone());
        i += 1;
    }
    assert(board_views(r@) =~= board_views(boards@));
    r
}

/// Where in `boards` the last board with the shortcode `shortcode` stands.
fn position(boards: &Vec<FourchanBoard>, shortcode: &str) -> (r: Option<usize>)
    ensures
        match r {
            Some(k) => {
                &&& k < boards@.len()
                &&& boards@[k as int]@.shortcode == shortcode@
                &&& forall|i: int|
                    k < i < boards@.len() ==> (#[trigger] boards@[i])@.shortcode != shortcode@
            },
            None => forall|i: int|
                0 <= i < boards@.len() ==> (#[trigger] boards@[i])@.shortcode != shortcode@,
        },
{
    let mut i: usize = boards.len();
    while i > 0
        invariant
            i <= boards.len(),
            forall|j: int|
                i <= j < boards@.len() ==> (#[trigger] boards@[j])@.shortcode != shortcode@,
        decreases i,
    {
        i -= 1;
        if same_text(boards[i].shortcode(), shortcode) {
            return Some(i);
        }
    }
    None
}

/// Whether two strings hold the same characters.
fn same_text(a: &str, b: &str) -> (r: bool)
    ensures
        r == (a@ == b@),
{
    let a = a.to_owned();
    let b = b.to_owned();
    a == b
}

/// The boards that a directory response describes, each shortcode once.
fn index_directory(entries: Vec<NativeBoard>) -> (boards: Vec<FourchanBoard>)
    ensures
        lists_directory(boards@, directory_model(entries@)),
{
    let ghost records = entries@;
    let mut boards: Vec<FourchanBoard> = Vec::new();
    assert(board_views(boards@) =~= Seq::empty());
    for entry in it: entries
        invariant
            it.seq() == records,
            lists_directory(boards@, directory_model(records.take(it.index() as int))),
    {
        let ghost held = board_views(boards@);
        let ghost i = it.index() as int;
        proof {
            assert(records.take(i + 1).drop_last() =~= records.take(i));
            assert(records.take(i + 1).last() == records[i]);
        }
        let board = FourchanBoard::stub(entry);
        match position(&boards, board.shortcode()) {
            Some(k) => {
                boards.set(k, board);
                proof {
                    lemma_keyed_replace(held, k as int, board@);
                    assert(board_views(boards@) =~= held.update(k as int, board@));
                }
            },
            None => {
                boards.push(board);
                proof {
                    assert(board_views(boards@) =~= held.push(board@));
                    assert(board_views(boards@).drop_last() =~= held);
                    assert forall|a: int, b: int|
                        0 <= a < b < board_views(boards@).len() implies (#[trigger] board_views(
                        boards@,
                    )[a]).shortcode != (#[trigger] board_views(boards@)[b]).shortcode by {
                        if b < held.len() {
                            assert(held[a].shortcode != held[b].shortcode);
                        } else {
                            assert(boards@[a]@.shortcode != board@.shortcode);
                        }
                    }
                }
            },
        }
    }
    assert(records.take(records.len() as int) =~= records);
    boards
}

impl Fourchan {
    /// No shortcode stands twice in the list.
    #[verifier::type_invariant]
    spec fn unique_shortcodes(self) -> bool {
        distinct(board_views(self.boards@))
    }

    /// The site, with no board known yet.
    pub fn new() -> (site: Fourchan)
        ensures
            site@ == Directory::empty(),
    {
        let boards: Vec<FourchanBoard> = Vec::new();
        assert(board_views(boards@) =~= Seq::empty());
        Fourchan { boards }
    }

    /// The endpoint of the API that serves the directory.
    pub fn endpoint(&self) -> (r: String)
        ensures
            r@ == directory_endpoint(),
    {
        let mut r = "http://a.4cdn.org/".to_owned();
        r.append("boards.json");
        r
    }

    /// Fetches the directory again, whatever the site holds.
    ///
    /// Without a response the answer is the request to perform. With the
    /// decoded directory the site holds a stub for each of its entries, under
    /// the entry's shortcode, in place of what it held; the answer is a copy of
    /// them. With a failure of the transport or of the decoder the site stays
    /// as it was and the answer is the error.
    pub fn update(&mut self, response: Option<Response<NativeBoards>>) -> (r: Step<
        Vec<FourchanBoard>,
    >)
        ensures
            updates(old(self)@, response, final(self)@, r),
    {
        match response {
            None => Step::Fetch(self.endpoint()),
            Some(Response::Failed(e)) => Step::Done(Err(ChanError::HTTP(e))),
            Some(Response::Rejected(e)) => Step::Done(Err(ChanError::JSON(e))),
            Some(Response::Decoded(listing)) => {
                let boards = index_directory(listing.boards);
                let copy = clone_boards(&boards);
                self.boards = boards;
                Step::Done(Ok(copy))
            },
        }
    }

    /// The boards of the site.
    ///
    /// A site that holds boards answers with them, and neither reads
    /// `response` nor changes. An empty one answers as `update` does.
    pub fn boards(&mut self, response: Option<Response<NativeBoards>>) -> (r: Step<
        Vec<FourchanBoard>,
    >)
        ensures
            lists(old(self)@, response, final(self)@, r),
    {
        proof {
            use_type_invariant(&*self);
        }
        if self.boards.len() == 0 {
            assert(board_views(self.boards@) =~= Seq::empty());
            self.update(response)
        } else {
            proof {
                let held = board_views(self.boards@);
                assert(self@.contains_key(held.last().shortcode));
            }
            Step::Done(Ok(clone_boards(&self.boards)))
        }
    }

    /// The board with the shortcode `shortcode`.
    ///
    /// It takes the directory as `boards` does, and answers with the board
    /// that stands under `shortcode` in it, or with the error that names
    /// `shortcode` where none does.
    pub fn board(&mut self, shortcode: &str, response: Option<Response<NativeBoards>>) -> (r: Step<
        FourchanBoard,
    >)
        ensures
            finds(old(self)@, shortcode@, response, final(self)@, r),
    {
        match self.boards(response) {
            Step::Fetch(url) => Step::Fetch(url),
            Step::Done(Err(e)) => Step::Done(Err(e)),
            Step::Done(Ok(boards)) => Step::Done(Self::look_up(&boards, shortcode)),
        }
    }

    /// The board that the list `boards` holds under `shortcode`: the last one
    /// with that shortcode, or the error that names `shortcode` where there is
    /// none.
    pub fn look_up(boards: &Vec<FourchanBoard>, shortcode: &str) -> (r: Result<
        FourchanBoard,
        ChanError,
    >)
        ensures
            looks_up(keyed(board_views(boards@)), shortcode@, r),
    {
        let ghost held = board_views(boards@);
        proof {
            lemma_keyed_domain(held, shortcode@);
        }
        match position(&boards, shortcode) {
            Some(k) => {
                proof {
                    assert forall|i: int| k < i < held.len() implies (#[trigger] held[i]).shortcode
                        != held[k as int].shortcode by {
                        assert(boards@[i]@.shortcode != shortcode@);
                    }
                    lemma_keyed_last(held, k as int);
                }
                Ok(boards[k].clone())
            },
            None => {
                assert(!keyed(held).contains_key(shortcode@)) by {
                    if exists|i: int|
                        0 <= i < held.len() && (#[trigger] held[i]).shortcode == shortcode@ {
                        let i = choose|i: int|
                            0 <= i < held.len() && (#[trigger] held[i]).shortcode == shortcode@;
                        assert(boards@[i]@.shortcode != shortcode@);
                    }
                }
                Err(ChanError::NonexistantBoard(shortcode.to_owned()))
            },
        }
    }
}

/// A board that the directory does not hold is reported, not guessed. Where
/// the site holds boards, or is empty and is given the decoded directory, and
/// the directory then holds nothing under `shortcode`, `board` answers with
/// the error that names `shortcode`. This covers the empty directory, which
/// holds nothing under any shortcode.
pub proof fn lemma_absent_board_is_reported(
    held: Directory,
    shortcode: Seq<char>,
    response: Option<Response<NativeBoards>>,
    next: Directory,
    answer: Step<FourchanBoard>,
)
    requires
        finds(held, shortcode, response, next, answer),
        !(held.dom() =~= Set::empty()) || response matches Some(Response::Decoded(_)),
        !next.contains_key(shortcode),
    ensures
        answer matches Step::Done(Err(ChanError::NonexistantBoard(name))) && name@ == shortcode,
{
}

} // verus!
