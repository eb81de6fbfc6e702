//! The sidebar's text: four display lines per conversation — sender and
//! delivery time, the topic cut to fit, and up to two rows of preview.

use vstd::prelude::*;
use vstd::string::StrSliceExecFns;
use vstd::string::StringExecFns;
use crate::model::ConversationSummary;
use crate::text::spaces;
use crate::text::truncate_preview;
use crate::text::truncated;

verus! {

/// Relies on chrono (DateTime::parse_from_rfc3339, with_timezone over
/// Local, format "%b %d %H:%M") to render a delivery timestamp in the
/// machine's local timezone, keeping the text as delivered where it does
/// not parse as RFC 3339. The result depends on the machine's timezone
/// database and environment, so nothing is promised of it.
#[verifier::external_body]
fn format_datetime(datetime: &str) -> String {
    match chrono::DateTime::parse_from_rfc3339(datetime) {
        Ok(dt) => dt.with_timezone(&chrono::Local).format("%b %d %H:%M").to_string(),
        Err(_) => datetime.to_string(),
    }
}

/// The sidebar's first line: sender, padding, delivery time; the padding
/// pushes the time to the right edge when both fit, and shrinks to one
/// space when they do not.
pub open spec fn header_line(sender: Seq<char>, datetime: Seq<char>, width: int) -> Seq<char> {
    let pad = if width > sender.len() + datetime.len() {
        width - sender.len() - datetime.len()
    } else {
        1
    };
    sender + Seq::new(pad as nat, |i: int| ' ') + datetime
}

/// The topic line: the topic whole when it fits the sidebar (two columns
/// reserved), otherwise cut with an ellipsis to exactly fill it.
pub open spec fn topic_line(topic: Seq<char>, width: int) -> Seq<char> {
    let max = if width >= 2 {
        width - 2
    } else {
        0
    };
    if topic.len() <= max {
        topic
    } else {
        truncated(
            topic,
            if max >= 3 {
                max - 3
            } else {
                0
            },
        )
    }
}

/// The first preview row: the preview capped at two rows, then cut at the
/// row width.
pub open spec fn preview_first(preview: Seq<char>, width: int) -> Seq<char> {
    let p = truncated(preview, 2 * width);
    if p.len() > width {
        p.subrange(0, width)
    } else {
        p
    }
}

/// The second preview row: what spills past the first row, if anything.
pub open spec fn preview_second(preview: Seq<char>, width: int) -> Seq<char> {
    let p = truncated(preview, 2 * width);
    if p.len() > width {
        p.subrange(width, p.len() as int)
    } else {
        Seq::<char>::empty()
    }
}

/// The four sidebar lines for one conversation, top to bottom.
pub open spec fn entry_lines(
    sender: Seq<char>,
    datetime: Seq<char>,
    topic: Seq<char>,
    preview: Seq<char>,
    width: int,
) -> Seq<Seq<char>> {
    seq![
        header_line(sender, datetime, width),
        topic_line(topic, width),
        preview_first(preview, width),
        preview_second(preview, width),
    ]
}

/// Builds the four sidebar lines from already-resolved fields.
pub fn sidebar_entry(
    sender: &str,
    datetime: &str,
    topic: &str,
    preview: &str,
    width: usize,
) -> (r: Vec<String>)
    requires
        width <= usize::MAX / 2,
    ensures
        r.deep_view() =~~= entry_lines(sender@, datetime@, topic@, preview@, width as int),
{
    let slen = sender.unicode_len();
    let dlen = datetime.unicode_len();
    let pad = if width > slen && width - slen > dlen {
        width - slen - dlen
    } else {
        1
    };
    let mut header = String::from_str(sender);
    let gap = spaces(pad);
    header.append(gap.as_str());
    header.append(datetime);

    let max = if width >= 2 {
        width - 2
    } else {
        0
    };
    let topic_row = if topic.unicode_len() <= max {
        String::from_str(topic)
    } else {
        truncate_preview(
            topic,
            if max >= 3 {
                max - 3
            } else {
                0
            },
        )
    };

    let p = truncate_preview(preview, width * 2);
    let plen = p.as_str().unicode_len();
    let (first, second) = if plen > width {
        let head = String::from_str(p.as_str().substring_char(0, width));
        let tail = String::from_str(p.as_str().substring_char(width, plen));
        (head, tail)
    } else {
        (p, String::new())
    };

    let mut r: Vec<String> = Vec::new();
    r.push(header);
    r.push(topic_row);
    r.push(first);
    r.push(second);
    r
}

/// The sender shown in the sidebar: the first of the conversation's unique
/// senders, when any came with it.
pub open spec fn summary_sender(c: ConversationSummary) -> Seq<char> {
    match c.unique_senders {
        Some(ss) => if ss@.len() > 0 {
            ss@[0]@
        } else {
            Seq::<char>::empty()
        },
        None => Seq::<char>::empty(),
    }
}

/// The four sidebar lines for one fetched conversation. The delivery time
/// passes through the local-timezone formatter, of whose output nothing
/// more is known; every other line is pinned exactly.
pub fn conversation_lines(c: &ConversationSummary, width: usize) -> (r: Vec<String>)
    requires
        width <= usize::MAX / 2,
    ensures
        exists|dt: Seq<char>|
            r.deep_view() == entry_lines(summary_sender(*c), dt, c.topic@, c.preview@, width as int),
        c.last_delivered is None ==> r.deep_view() =~~= entry_lines(
            summary_sender(*c),
            Seq::<char>::empty(),
            c.topic@,
            c.preview@,
            width as int,
        ),
{
    let sender: String = match &c.unique_senders {
        Some(ss) => if ss.len() > 0 {
            ss[0].clone()
        } else {
            String::new()
        },
        None => String::new(),
    };
    let datetime: String = match &c.last_delivered {
        Some(d) => format_datetime(d.as_str()),
        None => String::new(),
    };
    let r = sidebar_entry(
        sender.as_str(),
        datetime.as_str(),
        c.topic.as_str(),
        c.preview.as_str(),
        width,
    );
    proof {
        assert(r.deep_view() == entry_lines(
            summary_sender(*c),
            datetime@,
            c.topic@,
            c.preview@,
            width as int,
        ));
    }
    r
}

} // verus!
