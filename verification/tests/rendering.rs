use group_browser::detail::DetailOutcome;
use group_browser::detail::build_detail;
use group_browser::detail::detail_from_posts;
use group_browser::detail::first_thread_id;
use group_browser::detail::link_status_message;
use group_browser::model::EmailAddress;
use group_browser::model::EmailBody;
use group_browser::model::Group;
use group_browser::model::Post;
use group_browser::model::Sender;
use group_browser::model::Thread;
use group_browser::model::first_group;
use group_browser::render::render_body;
use group_browser::session::SessionState;

fn post(subject: Option<&str>, from: Option<&str>, content_type: &str, content: &str) -> Post {
    Post {
        id: "p0".to_string(),
        created: Some("2024-01-02T03:04:05Z".to_string()),
        has_attachments: false,
        from: from.map(|a| Sender {
            email_address: Some(EmailAddress {
                name: None,
                address: Some(a.to_string()),
            }),
        }),
        body: EmailBody {
            content_type: content_type.to_string(),
            content: content.to_string(),
        },
        subject: subject.map(|s| s.to_string()),
    }
}

#[test]
fn text_body_keeps_its_own_lines() {
    let (lines, links) = render_body("first line\nsecond line", false, 80);
    assert_eq!(lines, vec!["first line".to_string(), "second line".to_string()]);
    assert!(links.is_empty());
}

#[test]
fn text_body_round_trip() {
    let body = "a\n\nb\nc\n";
    let (lines, _) = render_body(body, false, 80);
    assert_eq!(lines.join("\n"), body);
}

#[test]
fn html_anchors_feed_the_link_table() {
    let body = "<p><a href=\"#\">x</a><a href=\"http://e.com\">y</a></p>";
    let (_, links) = render_body(body, true, 80);
    assert_eq!(links, vec!["http://e.com".to_string()]);
}

#[test]
fn intra_page_anchors_are_dropped() {
    let body = "<a href=\"#top\">up</a><a href=\"https://a\">a</a><a href=\"#\">x</a>";
    let (_, links) = render_body(body, true, 80);
    assert_eq!(links, vec!["https://a".to_string()]);
}

#[test]
fn duplicate_hrefs_are_kept_in_order() {
    let body = "<a href=\"http://a\">1</a><a href=\"http://b\">2</a><a href=\"http://a\">3</a>";
    let (_, links) = render_body(body, true, 80);
    assert_eq!(
        links,
        vec!["http://a".to_string(), "http://b".to_string(), "http://a".to_string()]
    );
}

#[test]
fn html_body_is_rendered_to_plain_text() {
    let (lines, _) = render_body("<div><p>hello world</p></div>", true, 80);
    let joined = lines.join("\n");
    assert!(joined.contains("hello world"));
    assert!(!joined.contains('<'));
}

#[test]
fn html_rendering_wraps_at_the_given_width() {
    let (lines, _) = render_body("<p>aaaa bbbb cccc dddd eeee</p>", true, 10);
    assert!(lines.iter().filter(|l| !l.is_empty()).count() > 1);
    for line in &lines {
        assert!(line.chars().count() <= 10, "line too wide: {:?}", line);
    }
}

#[test]
fn detail_defaults_fill_missing_header_fields() {
    let dv = build_detail(&post(None, None, "text", "body"), 80);
    assert_eq!(dv.subject, "(No Subject)");
    assert_eq!(dv.from, "<unknown>");
    assert_eq!(dv.date, "2024-01-02T03:04:05Z");
    assert_eq!(dv.body_lines, vec!["body".to_string()]);
    assert!(dv.links.is_empty());
}

#[test]
fn detail_header_uses_given_fields() {
    let dv = build_detail(&post(Some("Hi"), Some("a@b.c"), "HTML", "<p>t</p>"), 80);
    assert_eq!(dv.subject, "Hi");
    assert_eq!(dv.from, "a@b.c");
}

#[test]
fn display_lines_start_with_the_header() {
    let dv = build_detail(&post(Some("Hi"), Some("a@b.c"), "text", "one\ntwo"), 80);
    let lines = dv.display_lines();
    assert_eq!(lines[0], "From: a@b.c");
    assert_eq!(lines[1], "Subject: Hi");
    assert_eq!(lines[2], "Date: 2024-01-02T03:04:05Z");
    assert_eq!(lines[3], "");
    assert_eq!(&lines[4..], &["one".to_string(), "two".to_string()]);
}

#[test]
fn no_posts_means_an_empty_detail() {
    let outcome = detail_from_posts(&Vec::new(), 80);
    assert!(matches!(outcome, DetailOutcome::Empty));
    let mut s = SessionState::new(Vec::new());
    s.status = "stale".to_string();
    s.install_detail(outcome);
    assert!(s.detail.is_none());
    assert_eq!(s.status, "");
    assert_eq!(s.scroll, 0);
}

#[test]
fn first_post_becomes_the_detail() {
    let posts = vec![
        post(Some("first"), None, "text", "a"),
        post(Some("second"), None, "text", "b"),
    ];
    let outcome = detail_from_posts(&posts, 80);
    match outcome {
        DetailOutcome::Loaded(dv) => assert_eq!(dv.subject, "first"),
        DetailOutcome::Empty => panic!("expected a loaded detail"),
    }
}

#[test]
fn installing_a_loaded_detail_reports_links() {
    let body = "<a href=\"http://a\">1</a><a href=\"http://b\">2</a>";
    let outcome = detail_from_posts(&vec![post(None, None, "html", body)], 80);
    let mut s = SessionState::new(Vec::new());
    s.install_detail(outcome);
    assert!(s.detail.is_some());
    assert_eq!(s.status, "2 link(s) found. Press 1-2 to copy.");
}

#[test]
fn link_status_caps_the_key_range_at_nine() {
    assert_eq!(link_status_message(0), "0 link(s) found. Press 1-0 to copy.");
    assert_eq!(link_status_message(2), "2 link(s) found. Press 1-2 to copy.");
    assert_eq!(link_status_message(12), "12 link(s) found. Press 1-9 to copy.");
}

#[test]
fn first_thread_is_the_one_followed() {
    let threads = vec![Thread { id: "t1".to_string() }, Thread { id: "t2".to_string() }];
    assert_eq!(first_thread_id(&threads), Some("t1".to_string()));
    assert_eq!(first_thread_id(&Vec::new()), None);
}

#[test]
fn group_lookup_takes_the_first_match() {
    let groups = vec![
        Group { id: "g1".to_string(), email: None, display_name: None },
        Group { id: "g2".to_string(), email: None, display_name: None },
    ];
    let g = first_group(groups);
    assert_eq!(g.map(|g| g.id), Some("g1".to_string()));
    assert!(first_group(Vec::new()).is_none());
}
