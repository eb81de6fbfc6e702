//! Message-body rendering: HTML or plain text to display lines, plus the
//! ordered table of hyperlinks the operator can copy by index.

use vstd::prelude::*;
use vstd::string::StrSliceExecFns;
use crate::text::lines_of;
use crate::text::split_lines;

verus! {

/// What html2text renders `body` to at `width` columns: a pure function of
/// the two arguments.
pub uninterp spec fn html_rendered(body: Seq<char>, width: int) -> Seq<char>;

/// The href attribute values of the anchor elements of `html`, in document
/// order, duplicates kept: a pure function of the text.
pub uninterp spec fn anchor_hrefs(html: Seq<char>) -> Seq<Seq<char>>;

/// Relies on html2text::from_read for the plain-text rendering of an HTML
/// body word-wrapped at `width` columns; where html2text reports an error
/// the body is kept as it came. Either way the result depends on `body` and
/// `width` alone.
#[verifier::external_body]
fn html_to_text(body: &str, width: usize) -> (r: String)
    ensures
        r@ == html_rendered(body@, width as int),
{
    match html2text::from_read(body.as_bytes(), width) {
        Ok(text) => text,
        Err(_) => body.to_string(),
    }
}

/// Relies on scraper (Html::parse_fragment, Selector::parse, Html::select,
/// ElementRef::attr) for the href values of the anchor elements of `html`
/// in document order; the parser recovers from malformed input instead of
/// failing, so the result depends on `html` alone.
#[verifier::external_body]
fn extract_hrefs(html: &str) -> (r: Vec<String>)
    ensures
        r.deep_view() == anchor_hrefs(html@),
{
    let fragment = scraper::Html::parse_fragment(html);
    let selector = scraper::Selector::parse("a").unwrap();
    fragment.select(&selector).filter_map(
        |el: scraper::ElementRef<'_>| el.attr("href").map(|s: &str| s.to_string()),
    ).collect()
}

/// An href the operator can act on: anything but an intra-page `#...`
/// anchor.
pub open spec fn actionable(href: Seq<char>) -> bool {
    !(href.len() >= 1 && href[0] == '#')
}

/// The hrefs kept for the link table, in order: those that lead somewhere.
/// Duplicates stay; order of appearance governs the copy index.
pub open spec fn kept_links(hrefs: Seq<Seq<char>>) -> Seq<Seq<char>>
    decreases hrefs.len(),
{
    if hrefs.len() == 0 {
        Seq::<Seq<char>>::empty()
    } else {
        let rest = kept_links(hrefs.drop_last());
        if actionable(hrefs.last()) {
            rest.push(hrefs.last())
        } else {
            rest
        }
    }
}

/// Keeps the actionable hrefs, in their order of appearance.
fn filter_links(hrefs: &Vec<String>) -> (r: Vec<String>)
    ensures
        r.deep_view() =~~= kept_links(hrefs.deep_view()),
{
    let mut r: Vec<String> = Vec::new();
    let mut i: usize = 0;
    while i < hrefs.len()
        invariant
            i <= hrefs.len(),
            r.deep_view() =~~= kept_links(hrefs.deep_view().take(i as int)),
        decreases hrefs.len() - i,
    {
        proof {
            assert(hrefs.deep_view().take(i + 1 as int).drop_last() =~~= hrefs.deep_view().take(
                i as int,
            ));
            assert(hrefs.deep_view().take(i + 1 as int).last() == hrefs@[i as int]@);
        }
        let h = &hrefs[i];
        let keep = if h.as_str().unicode_len() == 0 {
            true
        } else {
            h.as_str().get_char(0) != '#'
        };
        if keep {
            let ghost prev_deep = r.deep_view();
            r.push(h.clone());
            proof {
                assert(r.deep_view() =~~= prev_deep.push(hrefs@[i as int]@));
            }
        }
        i += 1;
    }
    proof {
        assert(hrefs.deep_view().take(hrefs@.len() as int) =~~= hrefs.deep_view());
    }
    r
}

/// A content type that marks an HTML body: the four letters of "html" in
/// any letter case.
pub open spec fn is_html_marker(s: Seq<char>) -> bool {
    s.len() == 4 && (s[0] == 'h' || s[0] == 'H') && (s[1] == 't' || s[1] == 'T') && (s[2] == 'm'
        || s[2] == 'M') && (s[3] == 'l' || s[3] == 'L')
}

/// Decides whether a declared content type asks for HTML rendering.
pub fn is_html_type(content_type: &str) -> (r: bool)
    ensures
        r == is_html_marker(content_type@),
{
    if content_type.unicode_len() != 4 {
        return false;
    }
    let c0 = content_type.get_char(0);
    let c1 = content_type.get_char(1);
    let c2 = content_type.get_char(2);
    let c3 = content_type.get_char(3);
    (c0 == 'h' || c0 == 'H') && (c1 == 't' || c1 == 'T') && (c2 == 'm' || c2 == 'M') && (c3 == 'l'
        || c3 == 'L')
}

/// Renders one message body.
///
/// A plain-text body keeps its own lines, split on line breaks and
/// otherwise untouched, and yields no links. An HTML body is rendered to
/// word-wrapped plain text at `width` columns, and the link table holds the
/// actionable anchor hrefs in document order, duplicates kept.
pub fn render_body(body: &str, html: bool, width: usize) -> (r: (Vec<String>, Vec<String>))
    ensures
        !html ==> r.0.deep_view() =~~= lines_of(body@) && r.1@.len() == 0,
        html ==> r.0.deep_view() =~~= lines_of(html_rendered(body@, width as int))
            && r.1.deep_view() =~~= kept_links(anchor_hrefs(body@)),
{
    if html {
        let text = html_to_text(body, width);
        let lines = split_lines(text.as_str());
        let hrefs = extract_hrefs(body);
        let links = filter_links(&hrefs);
        (lines, links)
    } else {
        let lines = split_lines(body);
        (lines, Vec::new())
    }
}

} // verus!
