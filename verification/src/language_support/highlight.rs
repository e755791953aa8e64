use vstd::prelude::*;

use crate::text::{lines_of, split_lines};
use crate::vec2::{pos_lt, UVec2};

verus! {

/// The colors of highlighted code.
#[derive(Clone, Copy, Debug, PartialEq, Eq, Structural, Hash)]
pub enum Color {
    Rose,
    Orange,
    Sky,
    White,
    Lime,
    Gray,
    Yellow,
    Blue,
}

/// A color given by its red, green and blue parts.
#[derive(Clone, Copy, Debug, PartialEq, Eq, Structural, Hash)]
pub struct RGBColor {
    pub r: u8,
    pub g: u8,
    pub b: u8,
}

/// A kind of token that has a color.
pub trait ToColor: Sized {
    /// The color of the kind.
    spec fn color_of(self) -> Color;

    fn to_color(self) -> (r: Color)
        ensures
            r == self.color_of(),
    ;
}

/// A stretch of code from `start` up to `end`, shown in `color`.
#[derive(Clone, Copy, Debug, PartialEq, Eq, Structural)]
pub struct HighlightToken {
    pub start: UVec2,
    pub end: UVec2,
    pub color: Color,
}

/// The tokens of a highlighting result, as a sequence.
pub open spec fn tokens_view(r: Option<Vec<HighlightToken>>) -> Option<Seq<HighlightToken>> {
    match r {
        Some(v) => Some(v@),
        None => None,
    }
}

/// The number of bytes of `c` in UTF-8.
pub open spec fn utf8_len_spec(c: char) -> nat {
    if (c as u32) < 0x80 {
        1
    } else if (c as u32) < 0x800 {
        2
    } else if (c as u32) < 0x10000 {
        3
    } else {
        4
    }
}

/// The number of bytes of a string in UTF-8.
pub open spec fn utf8_bytes(s: Seq<char>) -> nat
    decreases s.len(),
{
    if s.len() == 0 {
        0
    } else {
        utf8_bytes(s.drop_last()) + utf8_len_spec(s.last())
    }
}

/// The number of bytes of `c` in UTF-8.
pub fn utf8_len(c: char) -> (r: usize)
    ensures
        r == utf8_len_spec(c),
{
    let u = c as u32;
    if u < 0x80 {
        1
    } else if u < 0x800 {
        2
    } else if u < 0x10000 {
        3
    } else {
        4
    }
}

/// The byte length of each line of a text, as `str::lines` splits it.
pub open spec fn line_widths_spec(text: Seq<char>) -> Seq<nat> {
    lines_of(text).map_values(|l: Seq<char>| utf8_bytes(l))
}

/// The byte length of each line of `text`.
pub fn get_line_widths(text: &str) -> (r: Vec<usize>)
    requires
        utf8_bytes(text@) <= usize::MAX,
    ensures
        r@.len() == line_widths_spec(text@).len(),
        forall|i: int| 0 <= i < r@.len() ==> r@[i] == line_widths_spec(text@)[i],
{
    let lines = split_lines(text);
    proof {
        lemma_lines_bytes(text@);
    }
    let mut out: Vec<usize> = Vec::new();
    let mut i: usize = 0;
    while i < lines.len()
        invariant
            0 <= i <= lines@.len(),
            lines@.map_values(|l: Vec<char>| l@) == lines_of(text@),
            forall|k: int| 0 <= k < lines_of(text@).len() ==> utf8_bytes(#[trigger] lines_of(text@)[k]) <= usize::MAX,
            out@.len() == i,
            forall|k: int| 0 <= k < i ==> out@[k] == utf8_bytes(lines_of(text@)[k]),
        decreases lines@.len() - i,
    {
        let line = &lines[i];
        assert(line@ == lines_of(text@)[i as int]);
        let mut sum: usize = 0;
        let mut j: usize = 0;
        while j < line.len()
            invariant
                0 <= j <= line@.len(),
                utf8_bytes(line@) <= usize::MAX,
                sum == utf8_bytes(line@.take(j as int)),
            decreases line@.len() - j,
        {
            proof {
                lemma_bytes_prefix(line@, j + 1);
                assert(line@.take(j + 1).drop_last() =~= line@.take(j as int));
            }
            sum = sum + utf8_len(line[j]);
            j = j + 1;
        }
        assert(line@.take(line@.len() as int) =~= line@);
        out.push(sum);
        i = i + 1;
    }
    out
}

/// A prefix takes no more bytes than the whole.
pub proof fn lemma_bytes_prefix(s: Seq<char>, n: int)
    requires
        0 <= n <= s.len(),
    ensures
        utf8_bytes(s.take(n)) <= utf8_bytes(s),
    decreases s.len() - n,
{
    if n < s.len() {
        lemma_bytes_prefix(s, n + 1);
        assert(s.take(n + 1).drop_last() =~= s.take(n));
    } else {
        assert(s.take(n) =~= s);
    }
}

/// Each line of a text takes no more bytes than the text.
pub proof fn lemma_lines_bytes(text: Seq<char>)
    ensures
        forall|k: int| 0 <= k < lines_of(text).len() ==> utf8_bytes(#[trigger] lines_of(text)[k]) <= utf8_bytes(text),
{
    assert forall|k: int| 0 <= k < lines_of(text).len() implies utf8_bytes(#[trigger] lines_of(text)[k]) <= utf8_bytes(text) by {
        lemma_lines_acc_bytes(text, seq![], k);
    }
}

/// The bytes of a string are those of its first character and of the rest.
pub proof fn lemma_bytes_first(s: Seq<char>)
    requires
        s.len() > 0,
    ensures
        utf8_bytes(s) == utf8_len_spec(s[0]) + utf8_bytes(s.drop_first()),
    decreases s.len(),
{
    if s.len() > 1 {
        lemma_bytes_first(s.drop_last());
        assert(s.drop_last().drop_first() =~= s.drop_first().drop_last());
    } else {
        assert(s.drop_first() =~= Seq::<char>::empty());
        assert(s.drop_last() =~= Seq::<char>::empty());
    }
}

/// Each line split from `s` after the part `cur` takes no more bytes than both together.
pub proof fn lemma_lines_acc_bytes(s: Seq<char>, cur: Seq<char>, k: int)
    requires
        0 <= k < crate::text::lines_acc(s, cur).len(),
    ensures
        utf8_bytes(crate::text::lines_acc(s, cur)[k]) <= utf8_bytes(cur) + utf8_bytes(s),
    decreases s.len(),
{
    if s.len() == 0 {
    } else {
        lemma_bytes_first(s);
        if s[0] == '\n' {
            if k == 0 {
                if cur.len() > 0 && cur.last() == '\r' {
                }
            } else {
                lemma_lines_acc_bytes(s.drop_first(), seq![], k - 1);
            }
        } else {
            lemma_lines_acc_bytes(s.drop_first(), cur.push(s[0]), k);
            assert(cur.push(s[0]).drop_last() =~= cur);
        }
    }
}

/// The bytes taken by the lines of widths `w`, each with its line break.
pub open spec fn widths_total(w: Seq<usize>) -> int
    decreases w.len(),
{
    if w.len() == 0 {
        0
    } else {
        widths_total(w.drop_last()) + w.last() + 1
    }
}

/// The line and column of byte `index`, the lines from `y` on starting at byte `cum`. The
/// index just past the last line break is the start of the line after the last; an index
/// further on lies past the text and gives the origin.
pub open spec fn pos_of_index(index: int, w: Seq<usize>, y: int, cum: int) -> UVec2
    decreases w.len() - y,
{
    if y < 0 {
        UVec2 { x: 0, y: 0 }
    } else if y >= w.len() {
        if index == cum {
            UVec2 { x: 0, y: w.len() as usize }
        } else {
            UVec2 { x: 0, y: 0 }
        }
    } else if index < cum + w[y] + 1 {
        UVec2 { x: (index - cum) as usize, y: y as usize }
    } else {
        pos_of_index(index, w, y + 1, cum + w[y] + 1)
    }
}

/// The bytes of the first lines are part of the bytes of all.
pub proof fn lemma_widths_total_prefix(w: Seq<usize>, n: int)
    requires
        0 <= n <= w.len(),
    ensures
        widths_total(w.take(n)) <= widths_total(w),
    decreases w.len() - n,
{
    if n < w.len() {
        lemma_widths_total_prefix(w, n + 1);
        assert(w.take(n + 1).drop_last() =~= w.take(n));
    } else {
        assert(w.take(n) =~= w);
    }
}

/// The line and column of byte `index` of a text whose lines have the byte widths
/// `line_widths`. The index just past the last line break, the end of a text that ends with
/// a newline, is the start of the line after the last; an index further on gives the
/// origin.
pub fn index_to_vec2(index: usize, line_widths: &[usize]) -> (r: UVec2)
    requires
        widths_total(line_widths@) <= usize::MAX,
    ensures
        r == pos_of_index(index as int, line_widths@, 0, 0),
{
    let mut cumulative_index: usize = 0;
    let mut y: usize = 0;
    while y < line_widths.len()
        invariant
            0 <= y <= line_widths@.len(),
            cumulative_index == widths_total(line_widths@.take(y as int)),
            widths_total(line_widths@) <= usize::MAX,
            index >= cumulative_index,
            pos_of_index(index as int, line_widths@, y as int, cumulative_index as int)
                == pos_of_index(index as int, line_widths@, 0, 0),
        decreases line_widths@.len() - y,
    {
        let width = line_widths[y];
        proof {
            lemma_widths_total_prefix(line_widths@, y + 1);
            assert(line_widths@.take(y + 1).drop_last() =~= line_widths@.take(y as int));
        }
        if index < cumulative_index + width + 1 {
            let x = index - cumulative_index;
            return UVec2::new(x, y);
        }
        cumulative_index = cumulative_index + width + 1;
        y = y + 1;
    }
    assert(line_widths@.take(0) =~= Seq::<usize>::empty());
    if index == cumulative_index {
        UVec2::new(0, line_widths.len())
    } else {
        UVec2::new(0, 0)
    }
}

/// For each match that the regex `pattern` finds in a text, the byte span of its capture
/// group 1, `None` where the group took no part; `None` where the pattern does not compile.
pub uninterp spec fn regex_group_spans(pattern: Seq<char>, text: Seq<char>) -> Option<Seq<Option<(usize, usize)>>>;

/// For each match of `pattern` in `text`, in order, the byte span of capture group 1.
/// Trusted: compiles `pattern` with `regex::Regex::new` (`None` where it fails) and walks
/// `Regex::captures_iter`, giving `Captures::get(1)` of each match as its start and end;
/// the result is named `regex_group_spans`.
#[verifier::external_body]
fn regex_captures(pattern: &str, text: &str) -> (r: Option<Vec<Option<(usize, usize)>>>)
    ensures
        match r {
            Some(v) => regex_group_spans(pattern@, text@) == Some(v@),
            None => regex_group_spans(pattern@, text@) is None,
        },
{
    let re = regex::Regex::new(pattern).ok()?;
    Some(re.captures_iter(text).map(|c| c.get(1).map(|m| (m.start(), m.end()))).collect())
}

/// The spans that are there, in order.
pub open spec fn present_spans(s: Seq<Option<(usize, usize)>>) -> Seq<(usize, usize)>
    decreases s.len(),
{
    if s.len() == 0 {
        seq![]
    } else {
        let rest = present_spans(s.drop_last());
        match s.last() {
            Some(p) => rest.push(p),
            None => rest,
        }
    }
}

/// The spans of `spans` that are there, in order: the matches whose group took part.
pub fn keep_present(spans: &Vec<Option<(usize, usize)>>) -> (r: Vec<(usize, usize)>)
    ensures
        r@ == present_spans(spans@),
{
    let mut out: Vec<(usize, usize)> = Vec::new();
    let mut i: usize = 0;
    while i < spans.len()
        invariant
            0 <= i <= spans@.len(),
            out@ == present_spans(spans@.take(i as int)),
        decreases spans@.len() - i,
    {
        assert(spans@.take(i + 1).drop_last() =~= spans@.take(i as int));
        match spans[i] {
            Some(p) => out.push(p),
            None => {},
        }
        i = i + 1;
    }
    assert(spans@.take(spans@.len() as int) =~= spans@);
    out
}

/// The spans and colors of groups of spans.
pub open spec fn group_views(groups: Seq<(Vec<(usize, usize)>, Color)>) -> Seq<(Seq<(usize, usize)>, Color)> {
    Seq::new(groups.len(), |i: int| (groups[i].0@, groups[i].1))
}

/// The token for a byte span, placed by the line widths `w`.
pub open spec fn token_at(span: (usize, usize), color: Color, w: Seq<usize>) -> HighlightToken {
    HighlightToken { start: pos_of_index(span.0 as int, w, 0, 0), end: pos_of_index(span.1 as int, w, 0, 0), color }
}

/// The tokens of each group's spans, group after group.
pub open spec fn candidates(groups: Seq<(Seq<(usize, usize)>, Color)>, w: Seq<usize>) -> Seq<HighlightToken>
    decreases groups.len(),
{
    if groups.len() == 0 {
        seq![]
    } else {
        candidates(groups.drop_last(), w) + groups.last().0.map_values(|sp: (usize, usize)| token_at(sp, groups.last().1, w))
    }
}

/// Whether the token `a` overlaps the token `t`.
pub open spec fn overlaps(a: HighlightToken, t: HighlightToken) -> bool {
    pos_lt(a.start, t.end) && pos_lt(t.start, a.end)
}

/// The tokens kept in order, each unless it overlaps one kept before it.
pub open spec fn kept(c: Seq<HighlightToken>) -> Seq<HighlightToken>
    decreases c.len(),
{
    if c.len() == 0 {
        seq![]
    } else {
        let k = kept(c.drop_last());
        if exists|i: int| 0 <= i < k.len() && overlaps(c.last(), #[trigger] k[i]) {
            k
        } else {
            k.push(c.last())
        }
    }
}

/// `t` put into the sorted tokens `s` after every token that does not start after it.
pub open spec fn insert_sorted(s: Seq<HighlightToken>, t: HighlightToken) -> Seq<HighlightToken>
    decreases s.len(),
{
    if s.len() == 0 {
        seq![t]
    } else if pos_lt(t.start, s.last().start) {
        insert_sorted(s.drop_last(), t).push(s.last())
    } else {
        s.push(t)
    }
}

/// The tokens sorted by start, keeping the order of tokens that start together.
pub open spec fn sort_by_start(s: Seq<HighlightToken>) -> Seq<HighlightToken>
    decreases s.len(),
{
    if s.len() == 0 {
        seq![]
    } else {
        insert_sorted(sort_by_start(s.drop_last()), s.last())
    }
}

/// The highlighting of the spans of `groups`: tokens placed by the line widths `w`, an
/// overlapping one dropped, sorted by start.
pub open spec fn tokenize_spec(groups: Seq<(Seq<(usize, usize)>, Color)>, w: Seq<usize>) -> Seq<HighlightToken> {
    sort_by_start(kept(candidates(groups, w)))
}

proof fn lemma_insert_sorted(s: Seq<HighlightToken>, t: HighlightToken, j: int)
    requires
        0 <= j <= s.len(),
        forall|k: int| j <= k < s.len() ==> pos_lt(t.start, #[trigger] s[k].start),
        j == 0 || !pos_lt(t.start, s[j - 1].start),
    ensures
        insert_sorted(s, t) == s.insert(j, t),
    decreases s.len(),
{
    if s.len() == 0 {
        assert(s.insert(j, t) =~= seq![t]);
    } else if j == s.len() {
        assert(s.insert(j, t) =~= s.push(t));
    } else {
        assert(pos_lt(t.start, s[s.len() - 1].start));
        lemma_insert_sorted(s.drop_last(), t, j);
        assert(s.drop_last().insert(j, t).push(s.last()) =~= s.insert(j, t));
    }
}

/// Whether no two tokens of `s` overlap.
pub open spec fn disjoint_tokens(s: Seq<HighlightToken>) -> bool {
    forall|i: int, j: int| 0 <= i < j < s.len() ==> !overlaps(#[trigger] s[i], #[trigger] s[j])
}

/// Whether the tokens of `s` come in order of their starts.
pub open spec fn sorted_by_start(s: Seq<HighlightToken>) -> bool {
    forall|i: int, j: int| 0 <= i < j < s.len() ==> !pos_lt((#[trigger] s[j]).start, (#[trigger] s[i]).start)
}

/// Overlapping is symmetric.
proof fn lemma_overlaps_symmetric(a: HighlightToken, b: HighlightToken)
    ensures
        overlaps(a, b) == overlaps(b, a),
{
}

/// The tokens kept never overlap one another.
proof fn lemma_kept_disjoint(c: Seq<HighlightToken>)
    ensures
        disjoint_tokens(kept(c)),
    decreases c.len(),
{
    if c.len() > 0 {
        lemma_kept_disjoint(c.drop_last());
        let k = kept(c.drop_last());
        if !(exists|i: int| 0 <= i < k.len() && overlaps(c.last(), #[trigger] k[i])) {
            let n = k.push(c.last());
            assert forall|i: int, j: int| 0 <= i < j < n.len() implies !overlaps(#[trigger] n[i], #[trigger] n[j]) by {
                if j == k.len() {
                    lemma_overlaps_symmetric(n[i], n[j]);
                    assert(!overlaps(c.last(), k[i]));
                } else {
                    assert(n[i] == k[i] && n[j] == k[j]);
                }
            }
        }
    }
}

/// Inserting a token among sorted tokens keeps them sorted and disjoint where the token
/// overlaps none of them, and adds only the token.
proof fn lemma_insert_sorted_keeps(s: Seq<HighlightToken>, t: HighlightToken)
    requires
        sorted_by_start(s),
        disjoint_tokens(s),
        forall|i: int| 0 <= i < s.len() ==> !overlaps(t, #[trigger] s[i]),
    ensures
        sorted_by_start(insert_sorted(s, t)),
        disjoint_tokens(insert_sorted(s, t)),
        insert_sorted(s, t).len() == s.len() + 1,
        forall|e: HighlightToken| #[trigger] insert_sorted(s, t).contains(e) <==> (s.contains(e) || e == t),
    decreases s.len(),
{
    let r = insert_sorted(s, t);
    if s.len() == 0 {
        assert(r =~= seq![t]);
        assert forall|e: HighlightToken| #[trigger] r.contains(e) <==> (s.contains(e) || e == t) by {
            if r.contains(e) {
                let k = choose|k: int| 0 <= k < r.len() && r[k] == e;
                assert(k == 0);
            }
            if e == t {
                assert(r[0] == t);
            }
        }
    } else if pos_lt(t.start, s.last().start) {
        let d = s.drop_last();
        assert forall|i: int| 0 <= i < d.len() implies !overlaps(t, #[trigger] d[i]) by {
            assert(d[i] == s[i]);
        }
        lemma_insert_sorted_keeps(d, t);
        let inner = insert_sorted(d, t);
        assert(r == inner.push(s.last()));
        assert forall|e: HighlightToken| #[trigger] r.contains(e) <==> (s.contains(e) || e == t) by {
            if r.contains(e) {
                let k = choose|k: int| 0 <= k < r.len() && r[k] == e;
                if k < inner.len() {
                    assert(inner.contains(e));
                    if d.contains(e) {
                        let m = choose|m: int| 0 <= m < d.len() && d[m] == e;
                        assert(s[m] == e);
                    }
                } else {
                    assert(e == s.last());
                    assert(s[s.len() - 1] == e);
                }
            }
            if s.contains(e) {
                let m = choose|m: int| 0 <= m < s.len() && s[m] == e;
                if m < s.len() - 1 {
                    assert(d[m] == e);
                    assert(d.contains(e));
                    assert(inner.contains(e));
                    let q = choose|q: int| 0 <= q < inner.len() && inner[q] == e;
                    assert(r[q] == e);
                } else {
                    assert(r[r.len() - 1] == e);
                }
            }
            if e == t {
                assert(inner.contains(t));
                let q = choose|q: int| 0 <= q < inner.len() && inner[q] == t;
                assert(r[q] == t);
            }
        }
        assert forall|i: int, j: int| 0 <= i < j < r.len() implies !pos_lt((#[trigger] r[j]).start, (#[trigger] r[i]).start)
            && !overlaps(r[i], r[j]) by {
            if j < inner.len() {
                assert(r[i] == inner[i] && r[j] == inner[j]);
            } else {
                assert(r[j] == s.last());
                assert(inner.contains(r[i]));
                if r[i] == t {
                    lemma_overlaps_symmetric(t, s.last());
                    assert(!overlaps(t, s[s.len() - 1]));
                } else {
                    assert(d.contains(r[i]));
                    let m = choose|m: int| 0 <= m < d.len() && d[m] == r[i];
                    assert(s[m] == r[i]);
                    assert(!pos_lt(s[s.len() - 1].start, s[m].start));
                    assert(!overlaps(s[m], s[s.len() - 1]));
                }
            }
        }
    } else {
        assert(r == s.push(t));
        assert forall|e: HighlightToken| #[trigger] r.contains(e) <==> (s.contains(e) || e == t) by {
            if r.contains(e) {
                let k = choose|k: int| 0 <= k < r.len() && r[k] == e;
                if k < s.len() {
                    assert(s[k] == e);
                }
            }
            if s.contains(e) {
                let m = choose|m: int| 0 <= m < s.len() && s[m] == e;
                assert(r[m] == e);
            }
            if e == t {
                assert(r[s.len() as int] == t);
            }
        }
        assert forall|i: int, j: int| 0 <= i < j < r.len() implies !pos_lt((#[trigger] r[j]).start, (#[trigger] r[i]).start)
            && !overlaps(r[i], r[j]) by {
            if j < s.len() {
                assert(r[i] == s[i] && r[j] == s[j]);
            } else {
                assert(r[j] == t);
                assert(r[i] == s[i]);
                lemma_overlaps_symmetric(t, s[i]);
                assert(!pos_lt(t.start, s[s.len() - 1].start));
                if i < s.len() - 1 {
                    assert(!pos_lt(s[s.len() - 1].start, s[i].start));
                }
            }
        }
    }
}

/// Sorting disjoint tokens keeps them disjoint, puts them in order of their starts, and
/// keeps exactly the tokens there were.
proof fn lemma_sort_keeps(s: Seq<HighlightToken>)
    requires
        disjoint_tokens(s),
    ensures
        sorted_by_start(sort_by_start(s)),
        disjoint_tokens(sort_by_start(s)),
        sort_by_start(s).len() == s.len(),
        forall|e: HighlightToken| #[trigger] sort_by_start(s).contains(e) <==> s.contains(e),
    decreases s.len(),
{
    if s.len() > 0 {
        let d = s.drop_last();
        assert(disjoint_tokens(d)) by {
            assert forall|i: int, j: int| 0 <= i < j < d.len() implies !overlaps(#[trigger] d[i], #[trigger] d[j]) by {
                assert(d[i] == s[i] && d[j] == s[j]);
            }
        }
        lemma_sort_keeps(d);
        let sd = sort_by_start(d);
        assert forall|i: int| 0 <= i < sd.len() implies !overlaps(s.last(), #[trigger] sd[i]) by {
            assert(sd.contains(sd[i]));
            assert(d.contains(sd[i]));
            let m = choose|m: int| 0 <= m < d.len() && d[m] == sd[i];
            assert(s[m] == sd[i]);
            assert(!overlaps(s[m], s[s.len() - 1]));
            lemma_overlaps_symmetric(s[m], s.last());
        }
        lemma_insert_sorted_keeps(sd, s.last());
        assert forall|e: HighlightToken| #[trigger] sort_by_start(s).contains(e) <==> s.contains(e) by {
            if s.contains(e) {
                let m = choose|m: int| 0 <= m < s.len() && s[m] == e;
                if m < s.len() - 1 {
                    assert(d[m] == e);
                    assert(d.contains(e));
                }
            }
            if d.contains(e) {
                let m = choose|m: int| 0 <= m < d.len() && d[m] == e;
                assert(s[m] == e);
            }
            if e == s.last() {
                assert(s[s.len() - 1] == e);
            }
        }
    }
}

/// The tokens a highlighting gives never overlap one another and come in order of their
/// starts.
pub proof fn law_tokens_disjoint_and_sorted(groups: Seq<(Seq<(usize, usize)>, Color)>, w: Seq<usize>)
    ensures
        disjoint_tokens(tokenize_spec(groups, w)),
        sorted_by_start(tokenize_spec(groups, w)),
{
    lemma_kept_disjoint(candidates(groups, w));
    lemma_sort_keeps(kept(candidates(groups, w)));
}

/// The tokens of the spans of `groups`, each group's spans in the group's color, placed by
/// the line widths; a token that overlaps one taken before is dropped; the tokens come out
/// sorted by start.
pub fn tokens_from_spans(groups: &Vec<(Vec<(usize, usize)>, Color)>, line_widths: &[usize]) -> (r: Vec<HighlightToken>)
    requires
        widths_total(line_widths@) <= usize::MAX,
    ensures
        r@ == tokenize_spec(group_views(groups@), line_widths@),
{
    let ghost gv = group_views(groups@);
    // The candidate tokens, group after group.
    let mut cands: Vec<HighlightToken> = Vec::new();
    let mut g: usize = 0;
    while g < groups.len()
        invariant
            0 <= g <= groups@.len(),
            gv == group_views(groups@),
            widths_total(line_widths@) <= usize::MAX,
            cands@ == candidates(gv.take(g as int), line_widths@),
        decreases groups@.len() - g,
    {
        let spans = &groups[g].0;
        let color = groups[g].1;
        let ghost base = cands@;
        let mut i: usize = 0;
        while i < spans.len()
            invariant
                0 <= i <= spans@.len(),
                widths_total(line_widths@) <= usize::MAX,
                cands@ == base + spans@.take(i as int).map_values(|sp: (usize, usize)| token_at(sp, color, line_widths@)),
            decreases spans@.len() - i,
        {
            let sp = spans[i];
            let token = HighlightToken {
                start: index_to_vec2(sp.0, line_widths),
                end: index_to_vec2(sp.1, line_widths),
                color,
            };
            cands.push(token);
            assert(spans@.take(i + 1).map_values(|sp: (usize, usize)| token_at(sp, color, line_widths@))
                =~= spans@.take(i as int).map_values(|sp: (usize, usize)| token_at(sp, color, line_widths@)).push(token));
            i = i + 1;
        }
        assert(spans@.take(spans@.len() as int) =~= spans@);
        assert(gv.take(g + 1).drop_last() =~= gv.take(g as int));
        assert(gv.take(g + 1).last() == (spans@, color));
        g = g + 1;
    }
    assert(gv.take(groups@.len() as int) =~= gv);
    // The tokens that overlap none kept before.
    let mut keep: Vec<HighlightToken> = Vec::new();
    let mut c: usize = 0;
    while c < cands.len()
        invariant
            0 <= c <= cands@.len(),
            keep@ == kept(cands@.take(c as int)),
        decreases cands@.len() - c,
    {
        let t = cands[c];
        let mut any = false;
        let mut k: usize = 0;
        while k < keep.len()
            invariant
                0 <= k <= keep@.len(),
                any <==> exists|i: int| 0 <= i < k && overlaps(t, #[trigger] keep@[i]),
            decreases keep@.len() - k,
        {
            let e = keep[k];
            if t.start.lt(&e.end) && e.start.lt(&t.end) {
                any = true;
            }
            k = k + 1;
        }
        assert(cands@.take(c + 1).drop_last() =~= cands@.take(c as int));
        if !any {
            keep.push(t);
        }
        c = c + 1;
    }
    assert(cands@.take(cands@.len() as int) =~= cands@);
    // Sorted by start, by insertion after every token that does not start after it.
    let mut out: Vec<HighlightToken> = Vec::new();
    let mut n: usize = 0;
    while n < keep.len()
        invariant
            0 <= n <= keep@.len(),
            out@ == sort_by_start(keep@.take(n as int)),
        decreases keep@.len() - n,
    {
        let t = keep[n];
        let mut j = out.len();
        while j > 0 && t.start.lt(&out[j - 1].start)
            invariant
                0 <= j <= out@.len(),
                forall|k: int| j <= k < out@.len() ==> pos_lt(t.start, #[trigger] out@[k].start),
            decreases j,
        {
            j = j - 1;
        }
        proof {
            lemma_insert_sorted(out@, t, j as int);
        }
        out.insert(j, t);
        assert(keep@.take(n + 1).drop_last() =~= keep@.take(n as int));
        n = n + 1;
    }
    assert(keep@.take(keep@.len() as int) =~= keep@);
    out
}

/// The byte width of each line of a text, as `usize`.
pub open spec fn line_widths_usize(text: Seq<char>) -> Seq<usize> {
    Seq::new(line_widths_spec(text).len(), |i: int| line_widths_spec(text)[i] as usize)
}

/// Whether every pattern of a syntax compiles.
pub open spec fn syntax_compiles(patterns: Seq<Seq<char>>, text: Seq<char>) -> bool {
    forall|i: int| 0 <= i < patterns.len() ==> (#[trigger] regex_group_spans(patterns[i], text)) is Some
}

/// The spans each pattern of a syntax finds in `text`, with the pattern's color.
pub open spec fn syntax_groups(patterns: Seq<Seq<char>>, colors: Seq<Color>, text: Seq<char>) -> Seq<(Seq<(usize, usize)>, Color)> {
    Seq::new(patterns.len(), |i: int| (present_spans(regex_group_spans(patterns[i], text)->Some_0), colors[i]))
}

/// Whether a text is small enough that its byte positions and line widths fit in `usize`.
pub open spec fn text_fits(text: Seq<char>) -> bool {
    &&& utf8_bytes(text) <= usize::MAX
    &&& widths_total(line_widths_usize(text)) <= usize::MAX
}

/// The patterns of a syntax.
pub open spec fn syntax_patterns<T>(syntax: Seq<(&str, T)>) -> Seq<Seq<char>> {
    Seq::new(syntax.len(), |i: int| syntax[i].0@)
}

/// The colors of the token kinds of a syntax.
pub open spec fn syntax_colors<T: ToColor>(syntax: Seq<(&str, T)>) -> Seq<Color> {
    Seq::new(syntax.len(), |i: int| syntax[i].1.color_of())
}

/// Highlights `source_code` by the syntax: each pattern's capture group 1 is a token in the
/// color of the pattern's kind; a token that overlaps one found before it is dropped, earlier
/// patterns first; the tokens come out sorted by start.
pub fn regex_tokenize<T: ToColor + Copy>(source_code: &str, syntax: Vec<(&str, T)>) -> (r: Vec<HighlightToken>)
    requires
        syntax_compiles(syntax_patterns(syntax@), source_code@),
        text_fits(source_code@),
    ensures
        r@ == tokenize_spec(
            syntax_groups(syntax_patterns(syntax@), syntax_colors(syntax@), source_code@),
            line_widths_usize(source_code@),
        ),
{
    let widths = get_line_widths(source_code);
    assert(widths@ =~= line_widths_usize(source_code@));
    let mut groups: Vec<(Vec<(usize, usize)>, Color)> = Vec::new();
    let mut i: usize = 0;
    while i < syntax.len()
        invariant
            0 <= i <= syntax@.len(),
            syntax_compiles(syntax_patterns(syntax@), source_code@),
            groups@.len() == i,
            group_views(groups@)
                == syntax_groups(syntax_patterns(syntax@), syntax_colors(syntax@), source_code@).take(i as int),
        decreases syntax@.len() - i,
    {
        let (pattern, kind) = syntax[i];
        assert(regex_group_spans(syntax_patterns(syntax@)[i as int], source_code@) is Some);
        let spans = match regex_captures(pattern, source_code) {
            Some(found) => keep_present(&found),
            None => Vec::new(),
        };
        let color = kind.to_color();
        let ghost prev = groups@;
        let ghost sg = syntax_groups(syntax_patterns(syntax@), syntax_colors(syntax@), source_code@);
        assert(syntax_patterns(syntax@)[i as int] == pattern@);
        assert(sg[i as int] == (spans@, color));
        groups.push((spans, color));
        assert(group_views(groups@)
            =~= sg.take(i + 1)) by {
            assert(groups@.drop_last() == prev);
            assert forall|k: int| 0 <= k < i + 1 implies
                #[trigger] group_views(groups@)[k] == sg.take(i + 1)[k] by {
                if k < i {
                    assert(groups@[k] == prev[k]);
                    assert(group_views(prev)[k] == sg.take(i as int)[k]);
                } else {
                    assert(groups@[k] == (spans, color));
                }
            }
        }
        i = i + 1;
    }
    assert(group_views(groups@)
        =~= syntax_groups(syntax_patterns(syntax@), syntax_colors(syntax@), source_code@));
    tokens_from_spans(&groups, widths.as_slice())
}

/// Highlights as `regex_tokenize` does where every pattern compiles and the text fits in
/// `usize` positions; `None` otherwise.
pub fn try_regex_tokenize<T: ToColor + Copy>(source_code: &str, syntax: Vec<(&str, T)>) -> (r: Option<Vec<HighlightToken>>)
    ensures
        r is Some <==> syntax_compiles(syntax_patterns(syntax@), source_code@) && text_fits(source_code@),
        r matches Some(v) ==> v@ == tokenize_spec(
            syntax_groups(syntax_patterns(syntax@), syntax_colors(syntax@), source_code@),
            line_widths_usize(source_code@),
        ),
{
    let mut i: usize = 0;
    while i < syntax.len()
        invariant
            0 <= i <= syntax@.len(),
            forall|k: int| 0 <= k < i ==> (#[trigger] regex_group_spans(syntax_patterns(syntax@)[k], source_code@)) is Some,
        decreases syntax@.len() - i,
    {
        let (pattern, _) = syntax[i];
        match regex_captures(pattern, source_code) {
            Some(_) => {},
            None => {
                assert(syntax_patterns(syntax@)[i as int] == pattern@);
                assert(regex_group_spans(syntax_patterns(syntax@)[i as int], source_code@) is None);
                assert(!syntax_compiles(syntax_patterns(syntax@), source_code@));
                return None;
            },
        }
        i = i + 1;
    }
    if !text_fits_exec(source_code) {
        return None;
    }
    Some(regex_tokenize(source_code, syntax))
}

/// Whether `text` is small enough that its byte positions and line widths fit in `usize`.
pub fn text_fits_exec(text: &str) -> (r: bool)
    ensures
        r == text_fits(text@),
{
    let chars = crate::text::str_chars(text);
    let mut total: usize = 0;
    let mut i: usize = 0;
    while i < chars.len()
        invariant
            0 <= i <= chars@.len(),
            chars@ == text@,
            total == utf8_bytes(chars@.take(i as int)),
        decreases chars@.len() - i,
    {
        let b = utf8_len(chars[i]);
        assert(chars@.take(i + 1).drop_last() =~= chars@.take(i as int));
        if total > usize::MAX - b {
            proof {
                lemma_bytes_prefix(chars@, i + 1);
            }
            return false;
        }
        total = total + b;
        i = i + 1;
    }
    assert(chars@.take(chars@.len() as int) =~= chars@);
    let widths = get_line_widths(text);
    assert(widths@ =~= line_widths_usize(text@));
    let mut sum: usize = 0;
    let mut y: usize = 0;
    while y < widths.len()
        invariant
            0 <= y <= widths@.len(),
            widths@ == line_widths_usize(text@),
            sum == widths_total(widths@.take(y as int)),
        decreases widths@.len() - y,
    {
        let w = widths[y];
        assert(widths@.take(y + 1).drop_last() =~= widths@.take(y as int));
        if w == usize::MAX || sum > usize::MAX - (w + 1) {
            proof {
                lemma_widths_total_prefix(widths@, y + 1);
                assert(widths_total(widths@.take(y + 1)) == sum + w + 1);
            }
            return false;
        }
        sum = sum + w + 1;
        y = y + 1;
    }
    assert(widths@.take(widths@.len() as int) =~= widths@);
    true
}

} // verus!
