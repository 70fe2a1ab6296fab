use blank_fields::block_wrapper::BlockWrapper;
use blank_fields::blocks_wrapper::BlocksWrapper;
use blank_fields::intent::{Intent, Progress};
use blank_fields::one_of_wrapper::OneOfWrapper;
use blank_fields::schema::{Block, ParagraphItem};
use blank_fields::text::{Emphasis, Span};
use blank_fields::{begin, get_input, split_at_mid, ResultKind, Session};

fn text(s: &str) -> ParagraphItem {
    ParagraphItem::Text(s.to_owned())
}

fn blank() -> ParagraphItem {
    ParagraphItem::Placeholder
}

fn blanks(n: usize) -> Block {
    Block::Paragraph((0..n).map(|_| blank()).collect())
}

fn read(line: &[Span]) -> String {
    line.iter().map(|span| span.content).collect()
}

fn read_all(lines: &[Vec<Span>]) -> Vec<String> {
    lines.iter().map(|line| read(line)).collect()
}

/// Where the session stands: the active block and the active item in it.
fn position(document: &BlocksWrapper) -> (usize, usize) {
    let block = document.cursor();
    match document.block(block) {
        BlockWrapper::Paragraph(paragraph) => (block, paragraph.cursor()),
        _ => panic!("only paragraphs are in these documents"),
    }
}

/// Hands the intents over one by one for as long as the session is open.
fn play(document: BlocksWrapper, intents: &[Intent]) -> Option<Session> {
    let mut session = Session::Open(document);
    for intent in intents {
        session = match session {
            Session::Open(document) => get_input(document, *intent)?,
            closed => return Some(closed),
        };
    }
    Some(session)
}

#[test]
fn hello_xy_is_collected_and_drawn() {
    let mut document = BlocksWrapper::new(vec![Block::Paragraph(vec![
        text("Hello, "),
        blank(),
        text("!"),
    ])]);
    assert_eq!(document.enter(), Some(()));
    assert_eq!(read_all(&document.compose_lines()), vec!["Hello, |!"]);
    assert_eq!(
        document.get_input(Intent::Insert('x')),
        Some(Progress::Waiting)
    );
    assert_eq!(read_all(&document.compose_lines()), vec!["Hello, x|!"]);
    assert_eq!(
        document.get_input(Intent::Insert('y')),
        Some(Progress::Waiting)
    );
    assert_eq!(read_all(&document.compose_lines()), vec!["Hello, xy|!"]);
    assert_eq!(
        document.get_input(Intent::Confirm),
        Some(Progress::Finished(ResultKind::Completed))
    );
    {
        let lines = document.as_lines();
        assert_eq!(lines.len(), 1);
        assert_eq!(read(&lines[0]), "Hello, xy!");
        assert_eq!(lines[0][0].emphasis, Emphasis::Plain);
        assert_eq!(lines[0][1].content, "xy");
        assert_eq!(lines[0][1].emphasis, Emphasis::Filled);
        assert_ne!(lines[0][1].emphasis, lines[0][0].emphasis);
        assert_eq!(lines[0][2].emphasis, Emphasis::Plain);
    }
    assert_eq!(document.finalize(), vec![vec!["xy"]]);
}

#[test]
fn hello_xy_through_the_session() {
    let document = begin(vec![Block::Paragraph(vec![
        text("Hello, "),
        blank(),
        text("!"),
    ])])
    .expect("the paragraph has a placeholder");
    match play(
        document,
        &[Intent::Insert('x'), Intent::Insert('y'), Intent::Confirm],
    ) {
        Some(Session::Closed(kind, answers)) => {
            assert_eq!(kind, ResultKind::Completed);
            assert_eq!(answers, vec![vec!["xy"]]);
        }
        other => panic!("the session should have closed, got {:?}", other),
    }
}

#[test]
fn next_unit_moves_to_the_second_block_and_confirm_completes() {
    let mut document = BlocksWrapper::new(vec![blanks(1), blanks(1)]);
    assert_eq!(document.enter(), Some(()));
    assert_eq!(position(&document), (0, 0));
    assert_eq!(
        document.get_input(Intent::Insert('a')),
        Some(Progress::Waiting)
    );
    assert_eq!(document.get_input(Intent::NextUnit), Some(Progress::Waiting));
    assert_eq!(position(&document), (1, 0));
    assert!(document.enter_from_left());
    assert_eq!(
        document.get_input(Intent::Insert('b')),
        Some(Progress::Waiting)
    );
    assert_eq!(
        document.get_input(Intent::Confirm),
        Some(Progress::Finished(ResultKind::Completed))
    );
    assert_eq!(position(&document), (1, 0));
    assert_eq!(document.finalize(), vec![vec!["a"], vec!["b"]]);
}

#[test]
fn confirm_on_an_exhausted_paragraph_moves_to_the_next_block() {
    let mut document = BlocksWrapper::new(vec![blanks(1), blanks(1)]);
    assert_eq!(document.enter(), Some(()));
    assert_eq!(
        document.get_input(Intent::Insert('a')),
        Some(Progress::Waiting)
    );
    assert_eq!(document.get_input(Intent::Confirm), Some(Progress::Waiting));
    assert_eq!(position(&document), (1, 0));
    assert_eq!(
        document.get_input(Intent::Insert('b')),
        Some(Progress::Waiting)
    );
    assert_eq!(
        document.get_input(Intent::Confirm),
        Some(Progress::Finished(ResultKind::Completed))
    );
    assert_eq!(document.finalize(), vec![vec!["a"], vec!["b"]]);
}

#[test]
fn a_b_through_the_session() {
    let document = begin(vec![blanks(1), blanks(1)]).expect("the first block has a placeholder");
    match play(
        document,
        &[
            Intent::Insert('a'),
            Intent::NextUnit,
            Intent::Insert('b'),
            Intent::Confirm,
        ],
    ) {
        Some(Session::Closed(kind, answers)) => {
            assert_eq!(kind, ResultKind::Completed);
            assert_eq!(answers, vec![vec!["a"], vec!["b"]]);
        }
        other => panic!("the session should have closed, got {:?}", other),
    }
}

#[test]
fn moving_backward_enters_the_block_before_at_its_last_placeholder() {
    let mut document = BlocksWrapper::new(vec![blanks(2), blanks(2)]);
    assert_eq!(document.enter(), Some(()));
    for _ in 0..3 {
        assert_eq!(document.get_input(Intent::NextUnit), Some(Progress::Waiting));
    }
    assert_eq!(position(&document), (1, 1));
    let mut visited = Vec::new();
    for _ in 0..3 {
        assert_eq!(document.get_input(Intent::PrevUnit), Some(Progress::Waiting));
        visited.push(position(&document));
    }
    assert_eq!(visited, vec![(1, 0), (0, 1), (0, 0)]);
    assert!(!document.enter_from_left());
}

#[test]
fn moving_forward_enters_the_block_after_at_its_first_placeholder() {
    let mut document = BlocksWrapper::new(vec![blanks(2), blanks(2)]);
    assert_eq!(document.enter(), Some(()));
    let mut visited = vec![position(&document)];
    for _ in 0..3 {
        assert_eq!(document.get_input(Intent::NextUnit), Some(Progress::Waiting));
        visited.push(position(&document));
    }
    assert_eq!(visited, vec![(0, 0), (0, 1), (1, 0), (1, 1)]);
    assert!(document.enter_from_left());
}

#[test]
fn fixed_text_between_placeholders_is_passed_over_across_blocks() {
    let mut document = BlocksWrapper::new(vec![
        Block::Paragraph(vec![text("a"), blank(), text("b")]),
        Block::Paragraph(vec![text("c"), blank(), text("d"), blank(), text("e")]),
    ]);
    assert_eq!(document.enter(), Some(()));
    assert_eq!(position(&document), (0, 1));
    assert_eq!(document.get_input(Intent::NextUnit), Some(Progress::Waiting));
    assert_eq!(position(&document), (1, 1));
    assert_eq!(document.get_input(Intent::NextUnit), Some(Progress::Waiting));
    assert_eq!(position(&document), (1, 3));
    assert_eq!(document.get_input(Intent::PrevUnit), Some(Progress::Waiting));
    assert_eq!(document.get_input(Intent::PrevUnit), Some(Progress::Waiting));
    assert_eq!(position(&document), (0, 1));
}

#[test]
fn a_move_past_either_end_enters_the_active_block_again() {
    let mut document = BlocksWrapper::new(vec![blanks(2), blanks(2)]);
    assert_eq!(document.enter(), Some(()));
    assert_eq!(document.get_input(Intent::PrevUnit), Some(Progress::Waiting));
    assert_eq!(position(&document), (0, 0));
    assert!(document.enter_from_left());
    for _ in 0..3 {
        assert_eq!(document.get_input(Intent::NextUnit), Some(Progress::Waiting));
    }
    assert_eq!(position(&document), (1, 1));
    assert_eq!(document.get_input(Intent::NextUnit), Some(Progress::Waiting));
    assert_eq!(document.cursor(), 1);
    assert!(document.enter_from_left());
    assert_eq!(position(&document), (1, 0));
}

#[test]
fn cancel_closes_the_session_at_once_with_the_text_so_far() {
    let document = begin(vec![blanks(2), blanks(1)]).expect("the first block has a placeholder");
    match play(
        document,
        &[
            Intent::Insert('a'),
            Intent::Confirm,
            Intent::Insert('b'),
            Intent::NextUnit,
            Intent::Insert('c'),
            Intent::Cancel,
            Intent::Insert('z'),
        ],
    ) {
        Some(Session::Closed(kind, answers)) => {
            assert_eq!(kind, ResultKind::Canceled);
            assert_eq!(answers, vec![vec!["a", "b"], vec!["c"]]);
        }
        other => panic!("the session should have closed, got {:?}", other),
    }
}

#[test]
fn cancel_as_the_first_intent_closes_the_session() {
    let mut document = BlocksWrapper::new(vec![blanks(1), blanks(1)]);
    assert_eq!(document.enter(), Some(()));
    assert_eq!(
        document.get_input(Intent::Cancel),
        Some(Progress::Finished(ResultKind::Canceled))
    );
    assert_eq!(position(&document), (0, 0));
    assert_eq!(document.finalize(), vec![vec![""], vec![""]]);
}

#[test]
fn a_session_that_is_still_open_hands_the_document_back() {
    let document = begin(vec![blanks(1)]).expect("the block has a placeholder");
    match play(document, &[Intent::Insert('q'), Intent::CursorLeft]) {
        Some(Session::Open(document)) => {
            assert_eq!(read_all(&document.compose_lines()), vec!["|q"]);
            assert_eq!(document.finalize(), vec![vec!["q"]]);
        }
        other => panic!("the session should be open, got {:?}", other),
    }
}

#[test]
fn an_empty_document_has_no_session() {
    assert!(begin(Vec::new()).is_none());
    let mut document = BlocksWrapper::new(Vec::new());
    assert_eq!(document.len(), 0);
    assert_eq!(document.select_first_block(), None);
    assert_eq!(document.select_next_block(), None);
    assert_eq!(document.select_prev_block(), None);
    assert_eq!(document.enter(), None);
    assert_eq!(document.get_input(Intent::Confirm), None);
    assert_eq!(document.get_input(Intent::Cancel), None);
    assert!(document.as_lines().is_empty());
    assert!(document.compose_lines().is_empty());
    assert!(get_input(document, Intent::Insert('x')).is_none());
}

#[test]
fn a_first_block_without_placeholders_has_no_session() {
    let blocks = vec![Block::Paragraph(vec![text("words")]), blanks(1)];
    assert!(begin(blocks).is_none());
}

#[test]
fn moving_into_a_block_without_placeholders_ends_the_session_without_a_result() {
    let mut document =
        BlocksWrapper::new(vec![blanks(1), Block::Paragraph(vec![text("words")])]);
    assert_eq!(document.enter(), Some(()));
    assert_eq!(
        document.get_input(Intent::Insert('a')),
        Some(Progress::Waiting)
    );
    assert_eq!(document.get_input(Intent::Confirm), None);
    assert_eq!(document.cursor(), 1);
    assert_eq!(
        document.finalize(),
        vec![vec!["a".to_owned()], Vec::<String>::new()]
    );
}

#[test]
fn block_navigation_walks_all_blocks_and_remembers_the_side() {
    let mut document = BlocksWrapper::new(vec![blanks(1), blanks(1), blanks(1)]);
    assert_eq!(document.len(), 3);
    assert_eq!(document.select_first_block(), Some(()));
    assert_eq!(document.cursor(), 0);
    assert!(document.enter_from_left());
    assert_eq!(document.select_prev_block(), Some(false));
    assert_eq!(document.cursor(), 0);
    assert!(document.enter_from_left());
    assert_eq!(document.select_next_block(), Some(true));
    assert_eq!(document.select_next_block(), Some(true));
    assert_eq!(document.cursor(), 2);
    assert!(document.enter_from_left());
    for _ in 0..3 {
        assert_eq!(document.select_next_block(), Some(false));
        assert_eq!(document.cursor(), 2);
        assert!(document.enter_from_left());
    }
    assert_eq!(document.select_prev_block(), Some(true));
    assert_eq!(document.cursor(), 1);
    assert!(!document.enter_from_left());
    assert_eq!(document.select_next_block(), Some(true));
    assert!(document.enter_from_left());
    assert_eq!(document.select_prev_block(), Some(true));
    assert_eq!(document.select_prev_block(), Some(true));
    assert_eq!(document.select_prev_block(), Some(false));
    assert_eq!(document.cursor(), 0);
    assert!(!document.enter_from_left());
    assert_eq!(document.select_first_block(), Some(()));
    assert!(document.enter_from_left());
}

#[test]
fn the_document_is_drawn_with_only_the_active_block_live() {
    let mut document = BlocksWrapper::new(vec![
        Block::Paragraph(vec![text("one "), blank()]),
        Block::Paragraph(vec![blank(), text(" two")]),
        Block::Paragraph(vec![text("three")]),
    ]);
    assert_eq!(document.enter(), Some(()));
    assert_eq!(
        document.get_input(Intent::Insert('1')),
        Some(Progress::Waiting)
    );
    assert_eq!(
        read_all(&document.compose_lines()),
        vec!["one 1|", "___ two", "three"]
    );
    assert_eq!(document.get_input(Intent::Confirm), Some(Progress::Waiting));
    assert_eq!(
        read_all(&document.compose_lines()),
        vec!["one 1", "| two", "three"]
    );
    assert_eq!(
        read_all(&document.as_lines()),
        vec!["one 1", "___ two", "three"]
    );
    let lines = document.compose_lines();
    assert_eq!(lines[0][1].emphasis, Emphasis::Filled);
    assert_eq!(lines[1][1].emphasis, Emphasis::Caret);
}

#[test]
fn a_block_is_drawn_entered_and_collected_as_its_paragraph() {
    let mut block = BlockWrapper::new(Block::Paragraph(vec![text("a "), blank(), blank()]));
    assert!(block.is_paragraph());
    assert_eq!(read_all(&block.as_lines()), vec!["a ______"]);
    assert_eq!(block.enter(false), Some(()));
    assert_eq!(read_all(&block.compose_lines()), vec!["a ___|"]);
    assert_eq!(block.get_input(Intent::Insert('z')), Some(Progress::Waiting));
    assert_eq!(
        block.get_input(Intent::Confirm),
        Some(Progress::Finished(ResultKind::Completed))
    );
    assert_eq!(block.get_input(Intent::PrevUnit), Some(Progress::Waiting));
    assert_eq!(
        block.get_input(Intent::PrevUnit),
        Some(Progress::Finished(ResultKind::PrevBlock))
    );
    assert_eq!(read_all(&block.compose_lines()), vec!["a |z"]);
    assert_eq!(block.finalize(), vec!["", "z"]);
}

#[test]
fn a_block_without_placeholders_cannot_be_entered() {
    let mut block = BlockWrapper::new(Block::Paragraph(vec![text("words")]));
    assert_eq!(block.enter(true), None);
    assert_eq!(block.get_input(Intent::Confirm), None);
    assert_eq!(read_all(&block.as_lines()), vec!["words"]);
    assert!(block.finalize().is_empty());
}

#[test]
fn the_other_kinds_of_block_are_kept_as_handed_in() {
    assert!(matches!(
        BlockWrapper::new(Block::Order(vec!["a".to_owned()])),
        BlockWrapper::Order
    ));
    assert!(matches!(
        BlockWrapper::new(Block::AnyOf(vec!["a".to_owned()])),
        BlockWrapper::AnyOf
    ));
    match BlockWrapper::new(Block::OneOf(vec!["a".to_owned(), "b".to_owned()])) {
        BlockWrapper::OneOf(one_of) => assert_eq!(one_of.items(), &vec!["a", "b"]),
        other => panic!("a choice became {:?}", other),
    }
    assert_eq!(OneOfWrapper::new(Vec::new()).items().len(), 0);
    let document = BlocksWrapper::new(vec![blanks(1), Block::OneOf(Vec::new())]);
    assert!(!document.is_implemented());
    assert!(!document.block(1).is_paragraph());
    assert!(BlocksWrapper::new(vec![blanks(1), blanks(0)]).is_implemented());
}

#[test]
fn split_at_mid_hands_out_the_element_between_its_neighbours() {
    let mut values = vec![10, 20, 30, 40];
    {
        let (head, active, tail) = split_at_mid(&mut values, 1).expect("1 is in range");
        assert_eq!(head, &[10]);
        assert_eq!(*active, 20);
        assert_eq!(tail, &[30, 40]);
        *active = 25;
        tail[0] = 35;
    }
    assert_eq!(values, vec![10, 25, 35, 40]);
    {
        let (head, active, tail) = split_at_mid(&mut values, 0).expect("0 is in range");
        assert!(head.is_empty());
        assert_eq!(*active, 10);
        assert_eq!(tail.len(), 3);
    }
    {
        let (head, active, tail) = split_at_mid(&mut values, 3).expect("3 is in range");
        assert_eq!(head.len(), 3);
        assert_eq!(*active, 40);
        assert!(tail.is_empty());
    }
}

#[test]
fn split_at_mid_at_the_end_finds_no_element() {
    let mut values = vec![1, 2, 3];
    assert!(split_at_mid(&mut values, 3).is_none());
    assert_eq!(values, vec![1, 2, 3]);
    let mut empty: Vec<u8> = Vec::new();
    assert!(split_at_mid(&mut empty, 0).is_none());
}
