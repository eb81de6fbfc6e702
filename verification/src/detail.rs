//! The detail loader's decisions: which thread and post a detail view comes
//! from, how header fields default, and how the rendered view is composed.
//! The two network fetches themselves happen outside; this module consumes
//! their decoded results.

use vstd::prelude::*;
use vstd::string::StrSliceExecFns;
use vstd::string::StringExecFns;
use crate::model::Post;
use crate::model::Thread;
use crate::render::anchor_hrefs;
use crate::render::html_rendered;
use crate::render::is_html_marker;
use crate::render::is_html_type;
use crate::render::kept_links;
use crate::render::render_body;
use crate::text::decimal_of;
use crate::text::decimal_string;
use crate::text::lines_of;

verus! {

/// The rendered detail pane for one conversation: header fields, body
/// lines, and the link table the digit keys index into. Superseded, never
/// merged, by the next load.
pub struct DetailView {
    pub from: String,
    pub subject: String,
    pub date: String,
    pub body_lines: Vec<String>,
    pub links: Vec<String>,
}

/// What a detail load produced: a rendered view, or nothing where the
/// conversation had no thread or its first thread no post.
pub enum DetailOutcome {
    Empty,
    Loaded(DetailView),
}

/// The subject shown for a post, with its documented default.
pub open spec fn subject_of(post: Post) -> Seq<char> {
    match post.subject {
        Some(s) => s@,
        None => "(No Subject)"@,
    }
}

/// The sender address shown for a post, with its documented default.
pub open spec fn sender_of(post: Post) -> Seq<char> {
    match post.from {
        Some(sender) => match sender.email_address {
            Some(email) => match email.address {
                Some(address) => address@,
                None => "<unknown>"@,
            },
            None => "<unknown>"@,
        },
        None => "<unknown>"@,
    }
}

/// The date shown for a post: the timestamp as delivered, or nothing.
pub open spec fn date_of(post: Post) -> Seq<char> {
    match post.created {
        Some(d) => d@,
        None => Seq::<char>::empty(),
    }
}

/// The thread a detail load follows: the first of the returned list, if
/// the list has one.
pub fn first_thread_id(threads: &Vec<Thread>) -> (r: Option<String>)
    ensures
        r is Some <==> threads@.len() > 0,
        r matches Some(id) ==> id@ == threads@[0].id@,
{
    if threads.len() == 0 {
        None
    } else {
        Some(threads[0].id.clone())
    }
}

/// Builds the detail view for one post: header fields resolved to their
/// defaults, the body rendered at `width` columns, and the link table
/// filled for an HTML body.
pub fn build_detail(post: &Post, width: usize) -> (dv: DetailView)
    ensures
        dv.subject@ == subject_of(*post),
        dv.from@ == sender_of(*post),
        dv.date@ == date_of(*post),
        is_html_marker(post.body.content_type@) ==> dv.body_lines.deep_view() =~~= lines_of(
            html_rendered(post.body.content@, width as int),
        ) && dv.links.deep_view() =~~= kept_links(anchor_hrefs(post.body.content@)),
        !is_html_marker(post.body.content_type@) ==> dv.body_lines.deep_view() =~~= lines_of(
            post.body.content@,
        ) && dv.links@.len() == 0,
{
    let subject = match &post.subject {
        Some(s) => s.clone(),
        None => String::from_str("(No Subject)"),
    };
    let from = match &post.from {
        Some(sender) => match &sender.email_address {
            Some(email) => match &email.address {
                Some(address) => address.clone(),
                None => String::from_str("<unknown>"),
            },
            None => String::from_str("<unknown>"),
        },
        None => String::from_str("<unknown>"),
    };
    let date = match &post.created {
        Some(d) => d.clone(),
        None => String::new(),
    };
    let html = is_html_type(post.body.content_type.as_str());
    let (body_lines, links) = render_body(post.body.content.as_str(), html, width);
    DetailView { from, subject, date, body_lines, links }
}

/// Settles a detail load from the posts of the chosen thread: the first
/// post rendered, or nothing where the thread has no posts.
pub fn detail_from_posts(posts: &Vec<Post>, width: usize) -> (r: DetailOutcome)
    ensures
        r is Empty <==> posts@.len() == 0,
        r matches DetailOutcome::Loaded(dv) ==> {
            &&& dv.subject@ == subject_of(posts@[0])
            &&& dv.from@ == sender_of(posts@[0])
            &&& dv.date@ == date_of(posts@[0])
            &&& (is_html_marker(posts@[0].body.content_type@) ==> dv.body_lines.deep_view()
                =~~= lines_of(html_rendered(posts@[0].body.content@, width as int))
                && dv.links.deep_view() =~~= kept_links(anchor_hrefs(posts@[0].body.content@)))
            &&& (!is_html_marker(posts@[0].body.content_type@) ==> dv.body_lines.deep_view()
                =~~= lines_of(posts@[0].body.content@) && dv.links@.len() == 0)
        },
{
    if posts.len() == 0 {
        DetailOutcome::Empty
    } else {
        DetailOutcome::Loaded(build_detail(&posts[0], width))
    }
}

/// The header and body as one sequence of display lines, the shape the
/// detail pane scrolls through: `From:`, `Subject:` and `Date:` lines, a
/// blank separator, then the body.
pub open spec fn spec_display_lines(dv: DetailView) -> Seq<Seq<char>> {
    seq![
        "From: "@ + dv.from@,
        "Subject: "@ + dv.subject@,
        "Date: "@ + dv.date@,
        Seq::<char>::empty(),
    ] + dv.body_lines.deep_view()
}

impl DetailView {
    /// The lines the detail pane shows for this view, header first.
    pub fn display_lines(&self) -> (r: Vec<String>)
        ensures
            r.deep_view() =~~= spec_display_lines(*self),
    {
        let mut r: Vec<String> = Vec::new();
        let mut from_line = String::from_str("From: ");
        from_line.append(self.from.as_str());
        r.push(from_line);
        let mut subject_line = String::from_str("Subject: ");
        subject_line.append(self.subject.as_str());
        r.push(subject_line);
        let mut date_line = String::from_str("Date: ");
        date_line.append(self.date.as_str());
        r.push(date_line);
        r.push(String::new());
        let mut i: usize = 0;
        while i < self.body_lines.len()
            invariant
                i <= self.body_lines@.len(),
                r.deep_view() =~~= spec_display_lines(*self).take(4 + i as int),
            decreases self.body_lines@.len() - i,
        {
            let ghost prev_deep = r.deep_view();
            r.push(self.body_lines[i].clone());
            proof {
                assert(r.deep_view() =~~= prev_deep.push(self.body_lines@[i as int]@));
                assert(r.deep_view() =~~= spec_display_lines(*self).take(4 + (i + 1 as int)));
            }
            i += 1;
        }
        proof {
            assert(spec_display_lines(*self).take(4 + self.body_lines@.len() as int)
                =~~= spec_display_lines(*self));
        }
        r
    }
}

/// The status line reported after a successful detail load: the link count
/// and the usable key range.
pub open spec fn link_status(n: nat) -> Seq<char> {
    decimal_of(n) + " link(s) found. Press 1-"@ + decimal_of(if n < 9 {
        n
    } else {
        9
    }) + " to copy."@
}

/// Builds the status line for a load that found `n` links.
pub fn link_status_message(n: usize) -> (r: String)
    ensures
        r@ =~= link_status(n as nat),
{
    let mut r = decimal_string(n);
    r.append(" link(s) found. Press 1-");
    let capped = decimal_string(if n < 9 {
        n
    } else {
        9
    });
    r.append(capped.as_str());
    r.append(" to copy.");
    r
}

} // verus!
