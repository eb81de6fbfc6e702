use group_browser::detail::DetailView;
use group_browser::model::ConversationSummary;
use group_browser::session::Action;
use group_browser::session::InputEvent;
use group_browser::session::SessionState;
use group_browser::session::event_for_char;

fn summary(id: &str, topic: &str, preview: &str) -> ConversationSummary {
    ConversationSummary {
        id: id.to_string(),
        topic: topic.to_string(),
        preview: preview.to_string(),
        last_delivered: None,
        unique_senders: None,
    }
}

fn three_conversations() -> Vec<ConversationSummary> {
    vec![
        summary("c0", "first", "p0"),
        summary("c1", "second", "p1"),
        summary("c2", "third", "p2"),
    ]
}

fn detail_with_links(links: Vec<&str>) -> DetailView {
    DetailView {
        from: "a@b".to_string(),
        subject: "s".to_string(),
        date: "d".to_string(),
        body_lines: vec!["body".to_string()],
        links: links.into_iter().map(|l| l.to_string()).collect(),
    }
}

#[test]
fn new_session_starts_at_top() {
    let s = SessionState::new(three_conversations());
    assert_eq!(s.selection, 0);
    assert_eq!(s.scroll, 0);
    assert!(s.detail.is_none());
    assert_eq!(s.status, "");
    assert!(!s.quitting);
}

#[test]
fn new_session_over_empty_list() {
    let s = SessionState::new(Vec::new());
    assert_eq!(s.selection, 0);
    assert_eq!(s.scroll, 0);
}

#[test]
fn move_down_then_up_returns_to_start() {
    let mut s = SessionState::new(three_conversations());
    s.scroll = 7;
    s.detail = Some(detail_with_links(vec!["x"]));
    let a1 = s.handle_event(InputEvent::MoveDown);
    assert!(matches!(a1, Action::LoadDetail));
    assert_eq!(s.selection, 1);
    assert_eq!(s.scroll, 0);
    assert!(s.detail.is_none());
    assert_eq!(s.status, "");
    let a2 = s.handle_event(InputEvent::MoveUp);
    assert!(matches!(a2, Action::LoadDetail));
    assert_eq!(s.selection, 0);
    assert_eq!(s.scroll, 0);
    assert!(s.detail.is_none());
}

#[test]
fn move_up_at_top_is_a_no_op() {
    let mut s = SessionState::new(three_conversations());
    s.scroll = 3;
    s.status = "hello".to_string();
    let a = s.handle_event(InputEvent::MoveUp);
    assert!(matches!(a, Action::Nothing));
    assert_eq!(s.selection, 0);
    assert_eq!(s.scroll, 3);
    assert_eq!(s.status, "hello");
    assert_eq!(s.conversations.len(), 3);
}

#[test]
fn move_down_at_bottom_is_a_no_op() {
    let mut s = SessionState::new(three_conversations());
    s.selection = 2;
    s.scroll = 4;
    s.status = "keep".to_string();
    let a = s.handle_event(InputEvent::MoveDown);
    assert!(matches!(a, Action::Nothing));
    assert_eq!(s.selection, 2);
    assert_eq!(s.scroll, 4);
    assert_eq!(s.status, "keep");
}

#[test]
fn moves_over_empty_list_do_nothing() {
    let mut s = SessionState::new(Vec::new());
    assert!(matches!(s.handle_event(InputEvent::MoveDown), Action::Nothing));
    assert!(matches!(s.handle_event(InputEvent::MoveUp), Action::Nothing));
    assert_eq!(s.selection, 0);
}

#[test]
fn two_move_downs_land_on_third_conversation() {
    let mut s = SessionState::new(three_conversations());
    let a1 = s.handle_event(InputEvent::MoveDown);
    assert!(matches!(a1, Action::LoadDetail));
    assert_eq!(s.conversations[s.selection].id, "c1");
    assert_eq!(s.scroll, 0);
    let a2 = s.handle_event(InputEvent::MoveDown);
    assert!(matches!(a2, Action::LoadDetail));
    assert_eq!(s.selection, 2);
    assert_eq!(s.conversations[s.selection].id, "c2");
    assert_eq!(s.scroll, 0);
}

#[test]
fn quit_key_enters_quitting_state() {
    let mut s = SessionState::new(three_conversations());
    let a = s.handle_event(InputEvent::Quit);
    assert!(matches!(a, Action::Nothing));
    assert!(s.quitting);
}

#[test]
fn scroll_keys_move_by_one_and_five() {
    let mut s = SessionState::new(three_conversations());
    s.handle_event(InputEvent::ScrollDownLine);
    assert_eq!(s.scroll, 1);
    s.handle_event(InputEvent::ScrollDownPage);
    assert_eq!(s.scroll, 6);
    s.handle_event(InputEvent::ScrollUpLine);
    assert_eq!(s.scroll, 5);
    s.handle_event(InputEvent::ScrollUpPage);
    assert_eq!(s.scroll, 0);
}

#[test]
fn scroll_up_stops_at_zero() {
    let mut s = SessionState::new(three_conversations());
    s.handle_event(InputEvent::ScrollUpPage);
    assert_eq!(s.scroll, 0);
    s.handle_event(InputEvent::ScrollUpLine);
    assert_eq!(s.scroll, 0);
}

#[test]
fn digit_key_copies_first_link() {
    let mut s = SessionState::new(three_conversations());
    s.detail = Some(detail_with_links(vec!["A", "B"]));
    let a = s.handle_event(InputEvent::Digit(1));
    match a {
        Action::CopyLink(l) => assert_eq!(l, "A"),
        other => panic!("expected a copy action, got {:?}", other),
    }
    assert_eq!(s.status, "Copied link 1 to clipboard!");
}

#[test]
fn digit_key_past_table_reports_no_link() {
    let mut s = SessionState::new(three_conversations());
    s.detail = Some(detail_with_links(vec!["A", "B"]));
    let a = s.handle_event(InputEvent::Digit(3));
    assert!(matches!(a, Action::Nothing));
    assert_eq!(s.status, "No link 3 found.");
}

#[test]
fn digit_key_without_detail_reports_no_link() {
    let mut s = SessionState::new(three_conversations());
    let a = s.handle_event(InputEvent::Digit(9));
    assert!(matches!(a, Action::Nothing));
    assert_eq!(s.status, "No link 9 found.");
}

#[test]
fn refresh_key_only_requests_the_fetch() {
    let mut s = SessionState::new(three_conversations());
    s.selection = 1;
    let a = s.handle_event(InputEvent::Refresh);
    assert!(matches!(a, Action::RefreshList));
    assert_eq!(s.selection, 1);
    assert_eq!(s.conversations.len(), 3);
}

#[test]
fn install_conversations_replaces_wholesale() {
    let mut s = SessionState::new(three_conversations());
    s.selection = 2;
    s.scroll = 9;
    s.detail = Some(detail_with_links(vec!["A"]));
    s.install_conversations(vec![summary("n0", "new", "p")]);
    assert_eq!(s.conversations.len(), 1);
    assert_eq!(s.conversations[0].id, "n0");
    assert_eq!(s.selection, 0);
    assert_eq!(s.scroll, 0);
    assert!(s.detail.is_none());
    assert_eq!(s.status, "");
}

#[test]
fn refresh_failure_leaves_list_untouched() {
    let mut s = SessionState::new(three_conversations());
    s.selection = 1;
    s.note_refresh_failure();
    assert_eq!(s.conversations.len(), 3);
    assert_eq!(s.selection, 1);
    assert_eq!(s.status, "Refresh failed.");
}

#[test]
fn detail_failure_discards_stale_pane() {
    let mut s = SessionState::new(three_conversations());
    s.detail = Some(detail_with_links(vec!["A"]));
    s.status = "1 link(s) found. Press 1-1 to copy.".to_string();
    s.scroll = 5;
    s.note_detail_failure();
    assert!(s.detail.is_none());
    assert_eq!(s.status, "");
    assert_eq!(s.scroll, 0);
}

#[test]
fn clipboard_failure_touches_only_the_status() {
    let mut s = SessionState::new(three_conversations());
    s.detail = Some(detail_with_links(vec!["A"]));
    s.note_clipboard_failure();
    assert_eq!(s.status, "Clipboard copy failed.");
    assert!(s.detail.is_some());
    assert_eq!(s.selection, 0);
}

#[test]
fn other_keys_change_nothing() {
    let mut s = SessionState::new(three_conversations());
    s.scroll = 2;
    let a = s.handle_event(InputEvent::Other);
    assert!(matches!(a, Action::Nothing));
    assert_eq!(s.scroll, 2);
}

#[test]
fn character_keys_map_to_their_transitions() {
    assert!(matches!(event_for_char('q'), InputEvent::Quit));
    assert!(matches!(event_for_char('r'), InputEvent::Refresh));
    assert!(matches!(event_for_char('j'), InputEvent::ScrollDownLine));
    assert!(matches!(event_for_char('k'), InputEvent::ScrollUpLine));
    assert!(matches!(event_for_char('J'), InputEvent::ScrollDownPage));
    assert!(matches!(event_for_char('K'), InputEvent::ScrollUpPage));
    assert!(matches!(event_for_char('1'), InputEvent::Digit(1)));
    assert!(matches!(event_for_char('9'), InputEvent::Digit(9)));
    assert!(matches!(event_for_char('x'), InputEvent::Other));
    assert!(matches!(event_for_char('0'), InputEvent::Other));
}
