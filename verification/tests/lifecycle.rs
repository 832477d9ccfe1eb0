use fourchan::ChanError;
use fourchan::Fourchan;
use fourchan::FourchanBoard;
use fourchan::FourchanThread;
use fourchan::HasUrl;
use fourchan::NativeBoard;
use fourchan::NativeBoards;
use fourchan::NativeCatalogSection;
use fourchan::NativeIndex;
use fourchan::NativePost;
use fourchan::NativeThread;
use fourchan::NativeThreadDescription;
use fourchan::NativeThreadSection;
use fourchan::OpStatus;
use fourchan::Response;
use fourchan::Step;
use fourchan::UrlType;
use rustc_serialize::json::DecoderError;

fn wire_post(no: u64, resto: u64, com: &str) -> NativePost {
    NativePost {
        no,
        resto,
        sticky: None,
        closed: None,
        now: "01/01/16(Fri)00:00:00".to_string(),
        time: 1451606400,
        name: Some("Anonymous".to_string()),
        trip: None,
        id: None,
        capcode: None,
        country: None,
        sub: None,
        com: Some(com.to_string()),
        tim: None,
        filename: None,
        ext: None,
        fsize: None,
        md5: None,
        w: None,
        h: None,
        tn_w: None,
        tn_h: None,
        filedeleted: None,
        spoiler: None,
        custom_spoiler: None,
        replies: None,
        images: None,
        bumplimit: None,
        imagelimit: None,
        last_modified: None,
    }
}

fn entry(code: &str, title: &str, ws_board: u8) -> NativeBoard {
    NativeBoard {
        board: code.to_string(),
        title: title.to_string(),
        ws_board,
        per_page: 15,
        pages: 10,
    }
}

fn directory(entries: Vec<NativeBoard>) -> Option<Response<NativeBoards>> {
    Some(Response::Decoded(NativeBoards { boards: entries }))
}

fn board_g() -> FourchanBoard {
    let mut site = Fourchan::new();
    match site.board("g", directory(vec![entry("g", "Technology", 1)])) {
        Step::Done(Ok(board)) => board,
        other => panic!("no board: {:?}", other),
    }
}

fn legacy_index() -> NativeIndex {
    NativeIndex::Threads(vec![
        NativeThreadSection {
            page: 1,
            threads: vec![
                NativeThreadDescription { no: 11, last_modified: 1000 },
                NativeThreadDescription { no: 12, last_modified: 1001 },
                NativeThreadDescription { no: 13, last_modified: 1002 },
            ],
        },
        NativeThreadSection {
            page: 2,
            threads: vec![
                NativeThreadDescription { no: 21, last_modified: 2000 },
                NativeThreadDescription { no: 22, last_modified: 2001 },
                NativeThreadDescription { no: 23, last_modified: 2002 },
            ],
        },
    ])
}

fn catalog_index() -> NativeIndex {
    NativeIndex::Catalog(vec![
        NativeCatalogSection {
            page: 1,
            threads: vec![
                wire_post(11, 0, "eleven"),
                wire_post(12, 0, "twelve"),
                wire_post(13, 0, "thirteen"),
            ],
        },
        NativeCatalogSection {
            page: 2,
            threads: vec![
                wire_post(21, 0, "twenty-one"),
                wire_post(22, 0, "twenty-two"),
                wire_post(23, 0, "twenty-three"),
            ],
        },
    ])
}

fn stub_thread(no: u64) -> FourchanThread {
    let mut board = board_g();
    let index = NativeIndex::Threads(vec![NativeThreadSection {
        page: 1,
        threads: vec![NativeThreadDescription { no, last_modified: 5 }],
    }]);
    match board.update(Some(Response::Decoded(index))) {
        Step::Done(Ok(mut threads)) => threads.remove(0),
        other => panic!("no threads: {:?}", other),
    }
}

fn numbers(threads: &Vec<FourchanThread>) -> Vec<u64> {
    let mut out = Vec::new();
    for thread in threads {
        out.push(*thread.no());
    }
    out
}

fn comments(posts: &Vec<fourchan::FourchanPost>) -> Vec<String> {
    let mut out = Vec::new();
    for post in posts {
        out.push(post.comment().clone());
    }
    out
}

#[test]
fn parse_post() {
    let mut site = Fourchan::new();
    let mut g = match site.board("g", None) {
        Step::Fetch(url) => {
            assert_eq!(url, "http://a.4cdn.org/boards.json");
            let listing = directory(vec![entry("a", "Anime & Manga", 1), entry("g", "Technology", 1)]);
            match site.board("g", listing) {
                Step::Done(found) => found.unwrap(),
                Step::Fetch(_) => panic!("asked for the directory twice"),
            }
        }
        Step::Done(_) => panic!("an empty site answered without the directory"),
    };
    let mut threads = match g.threads(None) {
        Step::Fetch(url) => {
            assert_eq!(url, "http://a.4cdn.org/g/threads.json");
            match g.threads(Some(Response::Decoded(legacy_index()))) {
                Step::Done(listed) => listed.unwrap(),
                Step::Fetch(_) => panic!("asked for the index twice"),
            }
        }
        Step::Done(_) => panic!("a stub answered without its index"),
    };
    let posts = match threads[0].posts(None) {
        Step::Fetch(url) => {
            assert_eq!(url, "http://a.4cdn.org/g/thread/11.json");
            let content = NativeThread {
                posts: vec![wire_post(11, 0, "opening"), wire_post(14, 11, "reply")],
            };
            match threads[0].posts(Some(Response::Decoded(content))) {
                Step::Done(read) => read.unwrap(),
                Step::Fetch(_) => panic!("asked for the thread twice"),
            }
        }
        Step::Done(_) => panic!("a stub answered without its content"),
    };
    let ref thread = posts[0];
    assert_eq!(thread.comment(), "opening");
    assert!(matches!(thread.op(), OpStatus::Yes));
    assert!(thread.files().is_empty());
}

#[test]
fn site_is_empty_at_first_and_asks_for_the_directory() {
    let mut site = Fourchan::new();
    assert_eq!(site.url(), "https://www.4chan.org/");
    assert_eq!(site.endpoint(), "http://a.4cdn.org/boards.json");
    match site.boards(None) {
        Step::Fetch(url) => assert_eq!(url, "http://a.4cdn.org/boards.json"),
        other => panic!("{:?}", other),
    }
    match site.update(None) {
        Step::Fetch(url) => assert_eq!(url, "http://a.4cdn.org/boards.json"),
        other => panic!("{:?}", other),
    }
}

#[test]
fn board_on_an_empty_directory_is_no_such_board() {
    let mut site = Fourchan::new();
    match site.board("x", directory(vec![])) {
        Step::Done(Err(ChanError::NonexistantBoard(name))) => assert_eq!(name, "x"),
        other => panic!("{:?}", other),
    }
}

#[test]
fn board_missing_from_the_directory_is_no_such_board() {
    let mut site = Fourchan::new();
    let listing = directory(vec![entry("a", "Anime & Manga", 1), entry("g", "Technology", 1)]);
    match site.board("x", listing) {
        Step::Done(Err(ChanError::NonexistantBoard(name))) => assert_eq!(name, "x"),
        other => panic!("{:?}", other),
    }
    match site.board("x", None) {
        Step::Done(Err(ChanError::NonexistantBoard(name))) => assert_eq!(name, "x"),
        other => panic!("{:?}", other),
    }
    match site.board("G", None) {
        Step::Done(Err(ChanError::NonexistantBoard(name))) => assert_eq!(name, "G"),
        other => panic!("{:?}", other),
    }
}

#[test]
fn board_is_found_by_its_shortcode() {
    let mut site = Fourchan::new();
    let listing = directory(vec![
        entry("a", "Anime & Manga", 1),
        entry("b", "Random", 0),
        entry("g", "Technology", 1),
    ]);
    let b = match site.board("b", listing) {
        Step::Done(Ok(board)) => board,
        other => panic!("{:?}", other),
    };
    assert_eq!(b.shortcode(), "b");
    assert_eq!(b.title(), "Random");
    assert!(!*b.work_safe());
    assert_eq!(*b.per_page(), 15);
    assert_eq!(*b.pages(), 10);
    assert!(!b.using_catalog());
    assert_eq!(b.url(), "https://boards.4chan.org/b/");
    let g = match site.board("g", None) {
        Step::Done(Ok(board)) => board,
        other => panic!("{:?}", other),
    };
    assert_eq!(g.title(), "Technology");
    assert!(*g.work_safe());
}

#[test]
fn boards_are_served_from_what_the_site_holds() {
    let mut site = Fourchan::new();
    let first = match site.boards(directory(vec![entry("a", "Anime & Manga", 1), entry("g", "Technology", 1)])) {
        Step::Done(Ok(boards)) => boards,
        other => panic!("{:?}", other),
    };
    assert_eq!(first.len(), 2);
    let again = match site.boards(None) {
        Step::Done(Ok(boards)) => boards,
        other => panic!("{:?}", other),
    };
    assert_eq!(again.len(), 2);
    assert_eq!(again[0].shortcode(), first[0].shortcode());
    assert_eq!(again[1].shortcode(), first[1].shortcode());
    let ignored = match site.boards(directory(vec![entry("x", "Other", 1)])) {
        Step::Done(Ok(boards)) => boards,
        other => panic!("{:?}", other),
    };
    assert_eq!(ignored.len(), 2);
    assert!(matches!(site.board("x", None), Step::Done(Err(ChanError::NonexistantBoard(_)))));
}

#[test]
fn site_update_replaces_the_directory() {
    let mut site = Fourchan::new();
    assert!(matches!(site.update(directory(vec![entry("a", "Anime & Manga", 1)])), Step::Done(Ok(_))));
    let boards = match site.update(directory(vec![entry("g", "Technology", 1), entry("v", "Video Games", 1)])) {
        Step::Done(Ok(boards)) => boards,
        other => panic!("{:?}", other),
    };
    assert_eq!(boards.len(), 2);
    assert!(matches!(site.board("a", None), Step::Done(Err(ChanError::NonexistantBoard(_)))));
    assert!(matches!(site.board("g", None), Step::Done(Ok(_))));
    assert!(matches!(site.board("v", None), Step::Done(Ok(_))));
}

#[test]
fn a_shortcode_stands_once_and_the_later_entry_stays() {
    let mut site = Fourchan::new();
    let listing = directory(vec![
        entry("g", "Technology", 1),
        entry("a", "Anime & Manga", 1),
        entry("g", "Gadgets", 0),
    ]);
    let boards = match site.update(listing) {
        Step::Done(Ok(boards)) => boards,
        other => panic!("{:?}", other),
    };
    assert_eq!(boards.len(), 2);
    let g = match site.board("g", None) {
        Step::Done(Ok(board)) => board,
        other => panic!("{:?}", other),
    };
    assert_eq!(g.title(), "Gadgets");
    assert!(!*g.work_safe());
}

#[test]
fn look_up_takes_the_last_board_of_a_shortcode() {
    let one = FourchanBoard::stub(entry("g", "Technology", 1));
    let two = FourchanBoard::stub(entry("a", "Anime & Manga", 1));
    let three = FourchanBoard::stub(entry("g", "Gadgets", 1));
    let boards = vec![one, two, three];
    assert_eq!(Fourchan::look_up(&boards, "g").unwrap().title(), "Gadgets");
    assert_eq!(Fourchan::look_up(&boards, "a").unwrap().title(), "Anime & Manga");
    match Fourchan::look_up(&boards, "x") {
        Err(ChanError::NonexistantBoard(name)) => assert_eq!(name, "x"),
        other => panic!("{:?}", other),
    }
    match Fourchan::look_up(&Vec::new(), "") {
        Err(ChanError::NonexistantBoard(name)) => assert_eq!(name, ""),
        other => panic!("{:?}", other),
    }
}

#[test]
fn site_keeps_its_directory_when_the_fetch_fails() {
    let mut site = Fourchan::new();
    assert!(matches!(site.update(directory(vec![entry("g", "Technology", 1)])), Step::Done(Ok(_))));
    match site.update(Some(Response::Failed(hyper::Error::Method))) {
        Step::Done(Err(ChanError::HTTP(hyper::Error::Method))) => {}
        other => panic!("{:?}", other),
    }
    match site.update(Some(Response::Rejected(DecoderError::MissingFieldError("boards".to_string())))) {
        Step::Done(Err(ChanError::JSON(e))) => {
            assert_eq!(e, DecoderError::MissingFieldError("boards".to_string()))
        }
        other => panic!("{:?}", other),
    }
    assert!(matches!(site.board("g", None), Step::Done(Ok(_))));
}

#[test]
fn empty_site_passes_the_failure_on() {
    let mut site = Fourchan::new();
    match site.board("g", Some(Response::Failed(hyper::Error::TooLarge))) {
        Step::Done(Err(ChanError::HTTP(hyper::Error::TooLarge))) => {}
        other => panic!("{:?}", other),
    }
    match site.board("g", Some(Response::Rejected(DecoderError::EOF))) {
        Step::Done(Err(ChanError::JSON(e))) => assert_eq!(e, DecoderError::EOF),
        other => panic!("{:?}", other),
    }
    assert!(matches!(site.boards(None), Step::Fetch(_)));
}

#[test]
fn threads_twice_gives_the_same_and_fetches_once() {
    let mut board = board_g();
    assert!(matches!(board.threads(None), Step::Fetch(_)));
    let first = match board.threads(Some(Response::Decoded(legacy_index()))) {
        Step::Done(Ok(threads)) => threads,
        other => panic!("{:?}", other),
    };
    let second = match board.threads(None) {
        Step::Done(Ok(threads)) => threads,
        other => panic!("{:?}", other),
    };
    assert_eq!(numbers(&first), numbers(&second));
    assert_eq!(format!("{:?}", first), format!("{:?}", second));
    let other_index = NativeIndex::Threads(vec![]);
    let third = match board.threads(Some(Response::Decoded(other_index))) {
        Step::Done(Ok(threads)) => threads,
        other => panic!("{:?}", other),
    };
    assert_eq!(format!("{:?}", first), format!("{:?}", third));
    let fourth = match board.threads(Some(Response::Failed(hyper::Error::Status))) {
        Step::Done(Ok(threads)) => threads,
        other => panic!("{:?}", other),
    };
    assert_eq!(format!("{:?}", first), format!("{:?}", fourth));
}

#[test]
fn legacy_index_gives_six_stubs_without_opening_post() {
    let mut board = board_g();
    assert_eq!(board.endpoint(), "http://a.4cdn.org/g/threads.json");
    let threads = match board.update(Some(Response::Decoded(legacy_index()))) {
        Step::Done(Ok(threads)) => threads,
        other => panic!("{:?}", other),
    };
    assert_eq!(numbers(&threads), vec![11, 12, 13, 21, 22, 23]);
    for thread in &threads {
        assert!(thread.op().is_none());
        assert_eq!(thread.board(), "g");
        assert_eq!(*thread.last_modified(), None);
    }
    let mut first = threads[0].clone();
    assert!(matches!(first.posts(None), Step::Fetch(_)));
}

#[test]
fn catalog_gives_six_stubs_with_opening_post() {
    let mut board = board_g().with_catalog(true);
    assert!(board.using_catalog());
    assert_eq!(board.endpoint(), "http://a.4cdn.org/g/catalog.json");
    match board.threads(None) {
        Step::Fetch(url) => assert_eq!(url, "http://a.4cdn.org/g/catalog.json"),
        other => panic!("{:?}", other),
    }
    let threads = match board.update(Some(Response::Decoded(catalog_index()))) {
        Step::Done(Ok(threads)) => threads,
        other => panic!("{:?}", other),
    };
    assert_eq!(numbers(&threads), vec![11, 12, 13, 21, 22, 23]);
    let expected = ["eleven", "twelve", "thirteen", "twenty-one", "twenty-two", "twenty-three"];
    for (thread, comment) in threads.iter().zip(expected.iter()) {
        let op = thread.op().as_ref().unwrap();
        assert_eq!(op.no(), thread.no());
        assert_eq!(op.comment(), comment);
        assert_eq!(op.board(), "g");
        assert!(matches!(op.op(), OpStatus::Yes));
        assert_eq!(*thread.last_modified(), None);
    }
    let mut first = threads[0].clone();
    assert!(matches!(first.posts(None), Step::Fetch(_)));
}

#[test]
fn with_catalog_changes_the_mode_and_nothing_else() {
    let board = board_g().with_catalog(true);
    assert!(board.using_catalog());
    assert_eq!(board.shortcode(), "g");
    assert_eq!(board.title(), "Technology");
    let mut board = board.with_catalog(false);
    assert!(!board.using_catalog());
    assert!(matches!(board.threads(None), Step::Fetch(_)));
}

#[test]
fn board_refuses_an_index_in_the_other_format() {
    let mut board = board_g();
    match board.update(Some(Response::Decoded(catalog_index()))) {
        Step::Done(Err(ChanError::JSON(DecoderError::ApplicationError(_)))) => {}
        other => panic!("{:?}", other),
    }
    assert!(matches!(board.threads(None), Step::Fetch(_)));
    let mut board = board_g().with_catalog(true);
    match board.update(Some(Response::Decoded(legacy_index()))) {
        Step::Done(Err(ChanError::JSON(DecoderError::ApplicationError(_)))) => {}
        other => panic!("{:?}", other),
    }
    assert!(matches!(board.threads(None), Step::Fetch(_)));
}

#[test]
fn board_refuses_a_catalog_with_an_incomplete_post() {
    let mut board = board_g().with_catalog(true);
    let mut broken = wire_post(12, 0, "twelve");
    broken.ext = Some(".png".to_string());
    let index = NativeIndex::Catalog(vec![NativeCatalogSection {
        page: 1,
        threads: vec![wire_post(11, 0, "eleven"), broken],
    }]);
    match board.update(Some(Response::Decoded(index))) {
        Step::Done(Err(ChanError::JSON(DecoderError::ApplicationError(_)))) => {}
        other => panic!("{:?}", other),
    }
    assert!(matches!(board.threads(None), Step::Fetch(_)));
}

#[test]
fn board_keeps_its_threads_when_the_fetch_fails() {
    let mut board = board_g();
    assert!(matches!(board.update(Some(Response::Decoded(legacy_index()))), Step::Done(Ok(_))));
    match board.update(Some(Response::Failed(hyper::Error::Header))) {
        Step::Done(Err(ChanError::HTTP(hyper::Error::Header))) => {}
        other => panic!("{:?}", other),
    }
    match board.update(Some(Response::Rejected(DecoderError::ExpectedError("Array".to_string(), "{}".to_string())))) {
        Step::Done(Err(ChanError::JSON(e))) => {
            assert_eq!(e, DecoderError::ExpectedError("Array".to_string(), "{}".to_string()))
        }
        other => panic!("{:?}", other),
    }
    match board.threads(None) {
        Step::Done(Ok(threads)) => assert_eq!(numbers(&threads), vec![11, 12, 13, 21, 22, 23]),
        other => panic!("{:?}", other),
    }
}

#[test]
fn board_update_replaces_the_threads() {
    let mut board = board_g();
    assert!(matches!(board.update(Some(Response::Decoded(legacy_index()))), Step::Done(Ok(_))));
    let index = NativeIndex::Threads(vec![NativeThreadSection {
        page: 1,
        threads: vec![NativeThreadDescription { no: 99, last_modified: 1 }],
    }]);
    match board.update(Some(Response::Decoded(index))) {
        Step::Done(Ok(threads)) => assert_eq!(numbers(&threads), vec![99]),
        other => panic!("{:?}", other),
    }
    match board.threads(None) {
        Step::Done(Ok(threads)) => assert_eq!(numbers(&threads), vec![99]),
        other => panic!("{:?}", other),
    }
    match board.update(None) {
        Step::Fetch(url) => assert_eq!(url, "http://a.4cdn.org/g/threads.json"),
        other => panic!("{:?}", other),
    }
}

#[test]
fn an_empty_index_populates_the_board() {
    let mut board = board_g();
    match board.threads(Some(Response::Decoded(NativeIndex::Threads(vec![])))) {
        Step::Done(Ok(threads)) => assert!(threads.is_empty()),
        other => panic!("{:?}", other),
    }
    match board.threads(None) {
        Step::Done(Ok(threads)) => assert!(threads.is_empty()),
        other => panic!("{:?}", other),
    }
}

#[test]
fn thread_urls() {
    let thread = stub_thread(570368);
    assert_eq!(thread.url(), "https://boards.4chan.org/g/thread/570368");
    assert_eq!(thread.endpoint(), "http://a.4cdn.org/g/thread/570368.json");
    assert_eq!(*thread.no(), 570368);
    assert_eq!(thread.board(), "g");
}

#[test]
fn thread_update_twice_keeps_the_second_list() {
    let mut thread = stub_thread(100);
    let first = NativeThread {
        posts: vec![wire_post(100, 0, "a"), wire_post(101, 100, "b"), wire_post(102, 100, "c")],
    };
    match thread.update(Some(Response::Decoded(first))) {
        Step::Done(Ok(posts)) => assert_eq!(comments(&posts), vec!["a", "b", "c"]),
        other => panic!("{:?}", other),
    }
    let second = NativeThread { posts: vec![wire_post(100, 0, "a"), wire_post(105, 100, "z")] };
    match thread.update(Some(Response::Decoded(second))) {
        Step::Done(Ok(posts)) => {
            assert_eq!(comments(&posts), vec!["a", "z"]);
            assert_eq!(*posts[1].no(), 105);
        }
        other => panic!("{:?}", other),
    }
    match thread.posts(None) {
        Step::Done(Ok(posts)) => {
            assert_eq!(comments(&posts), vec!["a", "z"]);
            assert_eq!(posts[1].url(), "https://boards.4chan.org/g/thread/100#p105");
        }
        other => panic!("{:?}", other),
    }
}

#[test]
fn thread_posts_are_served_from_what_the_thread_holds() {
    let mut thread = stub_thread(100);
    match thread.posts(None) {
        Step::Fetch(url) => assert_eq!(url, "http://a.4cdn.org/g/thread/100.json"),
        other => panic!("{:?}", other),
    }
    let content = NativeThread { posts: vec![wire_post(100, 0, "a"), wire_post(101, 100, "b")] };
    let first = match thread.posts(Some(Response::Decoded(content))) {
        Step::Done(Ok(posts)) => posts,
        other => panic!("{:?}", other),
    };
    let other_content = NativeThread { posts: vec![wire_post(100, 0, "changed")] };
    let second = match thread.posts(Some(Response::Decoded(other_content))) {
        Step::Done(Ok(posts)) => posts,
        other => panic!("{:?}", other),
    };
    assert_eq!(format!("{:?}", first), format!("{:?}", second));
    assert_eq!(comments(&second), vec!["a", "b"]);
    match thread.update(None) {
        Step::Fetch(url) => assert_eq!(url, "http://a.4cdn.org/g/thread/100.json"),
        other => panic!("{:?}", other),
    }
}

#[test]
fn thread_keeps_its_posts_when_the_fetch_fails() {
    let mut thread = stub_thread(100);
    match thread.update(Some(Response::Failed(hyper::Error::Version))) {
        Step::Done(Err(ChanError::HTTP(hyper::Error::Version))) => {}
        other => panic!("{:?}", other),
    }
    assert!(matches!(thread.posts(None), Step::Fetch(_)));
    let content = NativeThread { posts: vec![wire_post(100, 0, "a")] };
    assert!(matches!(thread.update(Some(Response::Decoded(content))), Step::Done(Ok(_))));
    match thread.update(Some(Response::Rejected(DecoderError::UnknownVariantError("x".to_string())))) {
        Step::Done(Err(ChanError::JSON(e))) => {
            assert_eq!(e, DecoderError::UnknownVariantError("x".to_string()))
        }
        other => panic!("{:?}", other),
    }
    match thread.posts(None) {
        Step::Done(Ok(posts)) => assert_eq!(comments(&posts), vec!["a"]),
        other => panic!("{:?}", other),
    }
}

#[test]
fn thread_refuses_content_with_an_incomplete_post() {
    let mut thread = stub_thread(100);
    let mut short_country = wire_post(101, 100, "b");
    short_country.country = Some("U".to_string());
    let content = NativeThread { posts: vec![wire_post(100, 0, "a"), short_country] };
    match thread.update(Some(Response::Decoded(content))) {
        Step::Done(Err(ChanError::JSON(DecoderError::ApplicationError(_)))) => {}
        other => panic!("{:?}", other),
    }
    assert!(matches!(thread.posts(None), Step::Fetch(_)));

    let good = NativeThread { posts: vec![wire_post(100, 0, "a")] };
    assert!(matches!(thread.update(Some(Response::Decoded(good))), Step::Done(Ok(_))));
    let mut no_size = wire_post(100, 0, "file");
    no_size.ext = Some(".png".to_string());
    no_size.tim = Some(1);
    no_size.filename = Some("f".to_string());
    no_size.md5 = Some("m".to_string());
    no_size.w = Some(1);
    no_size.h = Some(1);
    no_size.tn_w = Some(1);
    no_size.tn_h = Some(1);
    let content = NativeThread { posts: vec![no_size] };
    match thread.update(Some(Response::Decoded(content))) {
        Step::Done(Err(ChanError::JSON(DecoderError::ApplicationError(_)))) => {}
        other => panic!("{:?}", other),
    }
    match thread.posts(None) {
        Step::Done(Ok(posts)) => assert_eq!(comments(&posts), vec!["a"]),
        other => panic!("{:?}", other),
    }
}

#[test]
fn thread_update_leaves_the_opening_post_of_the_catalog() {
    let mut board = board_g().with_catalog(true);
    let mut thread = match board.update(Some(Response::Decoded(catalog_index()))) {
        Step::Done(Ok(mut threads)) => threads.remove(1),
        other => panic!("{:?}", other),
    };
    assert_eq!(thread.op().as_ref().unwrap().comment(), "twelve");
    let content = NativeThread { posts: vec![wire_post(12, 0, "now different"), wire_post(15, 12, "r")] };
    assert!(matches!(thread.update(Some(Response::Decoded(content))), Step::Done(Ok(_))));
    assert_eq!(thread.op().as_ref().unwrap().comment(), "twelve");
}

#[test]
fn posts_of_a_thread_stand_on_the_threads_board() {
    let mut thread = stub_thread(100);
    let mut with_file = wire_post(101, 100, "b");
    with_file.ext = Some(".png".to_string());
    with_file.tim = Some(12345);
    with_file.filename = Some("f".to_string());
    with_file.fsize = Some(9);
    with_file.md5 = Some("m".to_string());
    with_file.w = Some(1);
    with_file.h = Some(2);
    with_file.tn_w = Some(3);
    with_file.tn_h = Some(4);
    let content = NativeThread { posts: vec![wire_post(100, 0, "a"), with_file] };
    let posts = match thread.update(Some(Response::Decoded(content))) {
        Step::Done(Ok(posts)) => posts,
        other => panic!("{:?}", other),
    };
    assert_eq!(posts[0].board(), "g");
    assert_eq!(posts[1].board(), "g");
    assert_eq!(posts[1].files()[0].url(UrlType::Full), "https://i.4cdn.org/g/12345.png");
    assert_eq!(posts[1].files()[0].url(UrlType::Thumb), "https://t.4cdn.org/g/12345s.jpg");
}

#[test]
fn malformed_is_a_decoder_error_with_the_message() {
    match fourchan::error::malformed("a post is incomplete") {
        ChanError::JSON(e) => {
            assert_eq!(e, DecoderError::ApplicationError("a post is incomplete".to_string()))
        }
        other => panic!("{:?}", other),
    }
}

#[test]
fn a_stub_thread_made_by_hand() {
    let mut thread = FourchanThread::stub("po".to_string(), 42, None);
    assert_eq!(*thread.no(), 42);
    assert_eq!(thread.board(), "po");
    assert!(thread.op().is_none());
    assert_eq!(*thread.last_modified(), None);
    assert_eq!(thread.url(), "https://boards.4chan.org/po/thread/42");
    match thread.posts(None) {
        Step::Fetch(url) => assert_eq!(url, "http://a.4cdn.org/po/thread/42.json"),
        other => panic!("{:?}", other),
    }
    let content = NativeThread { posts: vec![] };
    match thread.posts(Some(Response::Decoded(content))) {
        Step::Done(Ok(posts)) => assert!(posts.is_empty()),
        other => panic!("{:?}", other),
    }
    match thread.posts(None) {
        Step::Done(Ok(posts)) => assert!(posts.is_empty()),
        other => panic!("{:?}", other),
    }
}

#[test]
fn a_copy_of_a_board_holds_the_same() {
    let mut board = board_g();
    assert!(matches!(board.update(Some(Response::Decoded(legacy_index()))), Step::Done(Ok(_))));
    let mut copy = board.clone();
    assert_eq!(format!("{:?}", copy), format!("{:?}", board));
    match copy.threads(None) {
        Step::Done(Ok(threads)) => assert_eq!(numbers(&threads), vec![11, 12, 13, 21, 22, 23]),
        other => panic!("{:?}", other),
    }
}
