//! Plain-text helpers: splitting a body into display lines, rendering
//! numbers in decimal for status messages, padding, and truncation.

use vstd::prelude::*;
use vstd::string::StrSliceExecFns;
use vstd::string::StringExecFns;

verus! {

/// The lines of `s` split on `'\n'`: always at least one line, the line
/// breaks themselves dropped. A trailing `'\n'` yields a final empty line.
pub open spec fn lines_of(s: Seq<char>) -> Seq<Seq<char>>
    decreases s.len(),
{
    if s.len() == 0 {
        seq![Seq::<char>::empty()]
    } else if s.last() == '\n' {
        lines_of(s.drop_last()).push(Seq::<char>::empty())
    } else {
        let r = lines_of(s.drop_last());
        r.update(r.len() - 1, r.last().push(s.last()))
    }
}

pub proof fn lemma_lines_of_nonempty(s: Seq<char>)
    ensures
        lines_of(s).len() >= 1,
    decreases s.len(),
{
    if s.len() > 0 {
        lemma_lines_of_nonempty(s.drop_last());
    }
}

/// The lines joined back together with `'\n'` between consecutive lines.
pub open spec fn joined_lines(ls: Seq<Seq<char>>) -> Seq<char>
    decreases ls.len(),
{
    if ls.len() == 0 {
        Seq::<char>::empty()
    } else if ls.len() == 1 {
        ls[0]
    } else {
        joined_lines(ls.drop_last()) + seq!['\n'] + ls.last()
    }
}

/// Law: splitting on line breaks loses nothing — joining the split lines
/// with `'\n'` restores the original text exactly.
pub proof fn lemma_lines_round_trip(s: Seq<char>)
    ensures
        joined_lines(lines_of(s)) =~= s,
    decreases s.len(),
{
    if s.len() == 0 {
    } else {
        let prev = lines_of(s.drop_last());
        lemma_lines_of_nonempty(s.drop_last());
        lemma_lines_round_trip(s.drop_last());
        if s.last() == '\n' {
            let cur = prev.push(Seq::<char>::empty());
            assert(cur.drop_last() =~= prev);
            assert(joined_lines(cur) == joined_lines(prev) + seq!['\n'] + Seq::<char>::empty());
            assert(joined_lines(cur) =~= s);
        } else {
            let cur = prev.update(prev.len() - 1, prev.last().push(s.last()));
            if prev.len() == 1 {
                assert(joined_lines(cur) == cur[0]);
                assert(prev[0] == s.drop_last());
                assert(cur[0] == prev[0].push(s.last()));
                assert(joined_lines(cur) =~= s);
            } else {
                assert(cur.drop_last() =~= prev.drop_last());
                assert(cur.last() == prev.last().push(s.last()));
                assert(joined_lines(cur) == joined_lines(cur.drop_last()) + seq!['\n']
                    + cur.last());
                assert(joined_lines(prev) == joined_lines(prev.drop_last()) + seq!['\n']
                    + prev.last());
                assert(joined_lines(prev) == s.drop_last());
                assert(joined_lines(cur) == joined_lines(prev.drop_last()) + seq!['\n']
                    + prev.last().push(s.last()));
                assert(joined_lines(cur) =~= (joined_lines(prev.drop_last()) + seq!['\n']
                    + prev.last()).push(s.last()));
                assert(joined_lines(cur) =~= s.drop_last().push(s.last()));
                assert(s.drop_last().push(s.last()) =~= s);
            }
        }
    }
}

/// Splits `s` into its display lines on `'\n'`.
pub fn split_lines(s: &str) -> (r: Vec<String>)
    ensures
        r.deep_view() =~~= lines_of(s@),
{
    let n = s.unicode_len();
    let mut out: Vec<String> = Vec::new();
    let mut start: usize = 0;
    let mut i: usize = 0;
    while i < n
        invariant
            0 <= start <= i <= n,
            n == s@.len(),
            out.deep_view() =~~= lines_of(s@.take(i as int)).drop_last(),
            lines_of(s@.take(i as int)).last() =~= s@.subrange(start as int, i as int),
        decreases n - i,
    {
        proof {
            lemma_lines_of_nonempty(s@.take(i as int));
            lemma_lines_of_nonempty(s@.take(i + 1 as int));
            assert(s@.take(i + 1 as int).drop_last() =~= s@.take(i as int));
        }
        let c = s.get_char(i);
        if c == '\n' {
            let ghost prev_deep = out.deep_view();
            let piece = String::from_str(s.substring_char(start, i));
            out.push(piece);
            proof {
                let prev = lines_of(s@.take(i as int));
                assert(out.deep_view() =~~= prev_deep.push(s@.subrange(start as int, i as int)));
                assert(lines_of(s@.take(i + 1 as int)) == prev.push(Seq::<char>::empty()));
                assert(lines_of(s@.take(i + 1 as int)).drop_last() =~~= prev);
                assert(prev.drop_last().push(prev.last()) =~~= prev);
                assert(out.deep_view() =~~= lines_of(s@.take(i + 1 as int)).drop_last());
            }
            start = i + 1;
        } else {
            proof {
                let prev = lines_of(s@.take(i as int));
                let cur = lines_of(s@.take(i + 1 as int));
                assert(cur == prev.update(prev.len() - 1, prev.last().push(s@[i as int])));
                assert(cur.drop_last() =~~= prev.drop_last());
                assert(cur.last() =~= s@.subrange(start as int, i + 1 as int));
            }
        }
        i += 1;
    }
    proof {
        lemma_lines_of_nonempty(s@.take(n as int));
        assert(s@.take(n as int) =~= s@);
    }
    let ghost prev_deep = out.deep_view();
    let piece = String::from_str(s.substring_char(start, n));
    out.push(piece);
    proof {
        assert(out.deep_view() =~~= prev_deep.push(s@.subrange(start as int, n as int)));
        assert(lines_of(s@).drop_last().push(lines_of(s@).last()) =~~= lines_of(s@));
        assert(out.deep_view() =~~= lines_of(s@));
    }
    out
}

/// The character for one decimal digit.
pub open spec fn decimal_digit(d: int) -> char {
    if d == 0 {
        '0'
    } else if d == 1 {
        '1'
    } else if d == 2 {
        '2'
    } else if d == 3 {
        '3'
    } else if d == 4 {
        '4'
    } else if d == 5 {
        '5'
    } else if d == 6 {
        '6'
    } else if d == 7 {
        '7'
    } else if d == 8 {
        '8'
    } else {
        '9'
    }
}

/// The usual decimal rendering of `n`, most significant digit first.
pub open spec fn decimal_of(n: nat) -> Seq<char>
    decreases n,
{
    if n < 10 {
        seq![decimal_digit(n as int)]
    } else {
        decimal_of(n / 10).push(decimal_digit((n % 10) as int))
    }
}

fn push_decimal(n: usize, out: &mut String)
    ensures
        final(out)@ =~= old(out)@ + decimal_of(n as nat),
    decreases n,
{
    if n >= 10 {
        push_decimal(n / 10, out);
    }
    let d = n % 10;
    proof {
        reveal_strlit("0");
        reveal_strlit("1");
        reveal_strlit("2");
        reveal_strlit("3");
        reveal_strlit("4");
        reveal_strlit("5");
        reveal_strlit("6");
        reveal_strlit("7");
        reveal_strlit("8");
        reveal_strlit("9");
    }
    if d == 0 {
        out.append("0");
    } else if d == 1 {
        out.append("1");
    } else if d == 2 {
        out.append("2");
    } else if d == 3 {
        out.append("3");
    } else if d == 4 {
        out.append("4");
    } else if d == 5 {
        out.append("5");
    } else if d == 6 {
        out.append("6");
    } else if d == 7 {
        out.append("7");
    } else if d == 8 {
        out.append("8");
    } else {
        out.append("9");
    }
}

/// Renders `n` in decimal, most significant digit first.
pub fn decimal_string(n: usize) -> (r: String)
    ensures
        r@ =~= decimal_of(n as nat),
{
    let mut r = String::new();
    push_decimal(n, &mut r);
    r
}

/// A run of `n` spaces.
pub fn spaces(n: usize) -> (r: String)
    ensures
        r@ =~= Seq::new(n as nat, |i: int| ' '),
{
    let mut r = String::new();
    let mut i: usize = 0;
    while i < n
        invariant
            i <= n,
            r@ =~= Seq::new(i as nat, |j: int| ' '),
        decreases n - i,
    {
        proof {
            reveal_strlit(" ");
        }
        r.append(" ");
        i += 1;
        proof {
            assert(r@ =~= Seq::new(i as nat, |j: int| ' '));
        }
    }
    r
}

/// Text shortened to at most `max_length` characters plus an ellipsis: kept
/// whole when it already fits, otherwise cut at `max_length` with `"..."`
/// appended.
pub open spec fn truncated(s: Seq<char>, max: int) -> Seq<char> {
    if s.len() <= max {
        s
    } else {
        s.subrange(0, max) + seq!['.', '.', '.']
    }
}

/// Shortens preview text for the sidebar, counting characters rather than
/// bytes so that no character is ever split.
pub fn truncate_preview(text: &str, max_length: usize) -> (r: String)
    ensures
        r@ =~= truncated(text@, max_length as int),
{
    if text.unicode_len() <= max_length {
        String::from_str(text)
    } else {
        let mut r = String::from_str(text.substring_char(0, max_length));
        proof {
            reveal_strlit("...");
            assert("..."@ =~= seq!['.', '.', '.']);
        }
        r.append("...");
        r
    }
}

} // verus!
