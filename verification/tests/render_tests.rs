use gitterm::node::{Icon, Node, Status};
use gitterm::render::{absorb_pipe_errors, PagedRenderer, Render, TermRenderer, WriteError};

fn paged(styled: bool) -> PagedRenderer {
    PagedRenderer::new(styled)
}

#[test]
fn render_twice_appends_two_copies() {
    let mut ui = paged(false);
    let t = Node::Text("ab".to_string(), None);
    ui.render(&t).unwrap();
    ui.render(&t).unwrap();
    assert_eq!(ui.into_buffer(), "abab");
}

#[test]
fn renderln_adds_line_breaks() {
    let mut ui = paged(false);
    let t = Node::Text("ab".to_string(), None);
    ui.renderln(&t).unwrap();
    ui.renderln(&t).unwrap();
    assert_eq!(ui.into_buffer(), "ab\nab\n");
}

#[test]
fn text_cap_truncates_with_marker() {
    let mut ui = paged(false);
    let t = Node::text_capped("abcdefghij".to_string(), 5);
    ui.render(&t).unwrap();
    assert_eq!(ui.into_buffer(), "abcd\u{2026}");
}

#[test]
fn text_cap_short_input_unchanged() {
    let mut ui = paged(false);
    let t = Node::text_capped("abcdefghij".to_string(), 20);
    ui.render(&t).unwrap();
    assert_eq!(ui.into_buffer(), "abcdefghij");
}

#[test]
fn text_cap_cuts_at_character_boundary() {
    let mut ui = paged(false);
    let t = Node::text_capped("\u{3b1}\u{3b1}\u{3b1}\u{3b1}\u{3b1}".to_string(), 3);
    ui.render(&t).unwrap();
    assert_eq!(ui.into_buffer(), "\u{3b1}\u{3b1}\u{2026}");
}

#[test]
fn broken_pipe_reads_as_success() {
    assert!(absorb_pipe_errors(Err(WriteError::BrokenPipe)).is_ok());
}

#[test]
fn successful_write_reads_as_success() {
    assert!(absorb_pipe_errors(Ok(())).is_ok());
}

#[test]
fn other_write_failure_propagates() {
    match absorb_pipe_errors(Err(WriteError::Failed("disk full".to_string()))) {
        Err(e) => assert_eq!(e.message, "disk full"),
        Ok(()) => panic!("a non-pipe failure must propagate"),
    }
}

#[test]
fn styled_icon_is_tinted() {
    let mut ui = paged(true);
    ui.render(&Node::icon(Icon::Check).with_status(Status::Success)).unwrap();
    assert_eq!(ui.into_buffer(), "\u{1b}[32m\u{2713}\u{1b}[0m");
}

#[test]
fn unstyled_icon_is_bare() {
    let mut ui = paged(false);
    ui.render(&Node::icon(Icon::Check).with_status(Status::Success)).unwrap();
    assert_eq!(ui.into_buffer(), "\u{2713}");
}

#[test]
fn error_status_is_red() {
    let mut ui = paged(true);
    ui.render(&Node::icon(Icon::ArrowDown).with_status(Status::Error)).unwrap();
    assert_eq!(ui.into_buffer(), "\u{1b}[31m\u{2193}\u{1b}[0m");
}

#[test]
fn neutral_status_has_no_color() {
    let mut ui = paged(true);
    ui.render(&Node::icon(Icon::Lock).with_status(Status::Neutral)).unwrap();
    assert_eq!(ui.into_buffer(), "\u{26bf}");
}

#[test]
fn with_status_leaves_non_icons_alone() {
    let mut ui = paged(true);
    ui.render(&Node::text("x".to_string()).with_status(Status::Error)).unwrap();
    assert_eq!(ui.into_buffer(), "x");
}

#[test]
fn block_concatenates_children() {
    let mut ui = paged(false);
    let t = Node::Block(vec![
        Node::text("a".to_string()),
        Node::spacer(),
        Node::text("b".to_string()),
    ]);
    ui.render(&t).unwrap();
    assert_eq!(ui.into_buffer(), "a b");
}

#[test]
fn multi_line_joins_with_breaks() {
    let mut ui = paged(false);
    let t = Node::MultiLine(vec![
        Node::text("a".to_string()),
        Node::text("b".to_string()),
        Node::text("c".to_string()),
    ]);
    ui.render(&t).unwrap();
    assert_eq!(ui.into_buffer(), "a\nb\nc");
}

#[test]
fn group_shows_title_and_count() {
    let mut ui = paged(false);
    let t = Node::Group(
        "Changes".to_string(),
        Some(2),
        Box::new(Node::MultiLine(vec![
            Node::text("a".to_string()),
            Node::text("b".to_string()),
        ])),
    );
    ui.render(&t).unwrap();
    assert_eq!(ui.into_buffer(), "Changes (2)\na\nb");
}

#[test]
fn group_without_count() {
    let mut ui = paged(false);
    let t = Node::Group(
        "Changes".to_string(),
        None,
        Box::new(Node::text("a".to_string())),
    );
    ui.render(&t).unwrap();
    assert_eq!(ui.into_buffer(), "Changes\na");
}

#[test]
fn styled_group_title_is_bold() {
    let mut ui = paged(true);
    let t = Node::Group(
        "Rebase".to_string(),
        Some(1),
        Box::new(Node::text("a".to_string())),
    );
    ui.render(&t).unwrap();
    assert_eq!(ui.into_buffer(), "\u{1b}[1mRebase (1)\u{1b}[0m\na");
}

#[test]
fn dimmed_wraps_only_when_styled() {
    let mut plain = paged(false);
    plain.render(&Node::dimmed(Node::text("x".to_string()))).unwrap();
    assert_eq!(plain.into_buffer(), "x");

    let mut styled = paged(true);
    styled.render(&Node::dimmed(Node::text("x".to_string()))).unwrap();
    assert_eq!(styled.into_buffer(), "\u{1b}[2mx\u{1b}[0m");
}

#[test]
fn continued_prefixes_its_child() {
    let mut ui = paged(false);
    ui.render(&Node::continued(Node::text("done".to_string()))).unwrap();
    assert_eq!(ui.into_buffer(), "\u{21aa} done");
}

#[test]
fn message_with_icon_renders_icon_and_text() {
    let mut ui = paged(false);
    let t = gitterm::node::message_with_icon(Icon::Check, "Changes stashed".to_string());
    ui.render(&t).unwrap();
    assert_eq!(ui.into_buffer(), "\u{2713} Changes stashed");
}

#[test]
fn text_head_keeps_only_first_line() {
    let mut ui = paged(false);
    ui.render(&Node::text_head_1("first\nsecond\nthird".to_string())).unwrap();
    assert_eq!(ui.into_buffer(), "first");
}

#[test]
fn term_renderer_accepts_trees() {
    let mut ui = TermRenderer::new(false);
    let t = Node::text("hello".to_string());
    assert!(ui.renderln(&t).is_ok());
}

#[test]
fn paged_buffer_matches_direct_styling() {
    let mut styled = paged(true);
    styled
        .render(&Node::Attribute(gitterm::node::Attribute::Branch("main".to_string())))
        .unwrap();
    assert_eq!(styled.into_buffer(), "\u{1b}[36mmain\u{1b}[0m");
}
