use vstd::prelude::*;
use unicode_width::UnicodeWidthChar;

verus! {

/// Appends one character to a `String`.
/// Trusted: `String::push` appends `c` at the end, as its documentation states.
#[verifier::external_body]
pub(crate) fn string_push(s: &mut String, c: char)
    ensures
        final(s)@ == old(s)@.push(c),
{
    s.push(c);
}

/// Whether `c` has the Unicode `White_Space` property.
pub open spec fn is_white_space(c: char) -> bool {
    let u = c as u32;
    (0x09 <= u <= 0x0D) || u == 0x20 || u == 0x85 || u == 0xA0 || u == 0x1680
        || (0x2000 <= u <= 0x200A) || u == 0x2028 || u == 0x2029 || u == 0x202F
        || u == 0x205F || u == 0x3000
}

/// Whether `c` is white space: whether it has the Unicode `White_Space` property, as
/// `char::is_whitespace` answers.
pub fn char_is_whitespace(c: char) -> (r: bool)
    ensures
        r == is_white_space(c),
{
    let u = c as u32;
    (0x09 <= u && u <= 0x0D) || u == 0x20 || u == 0x85 || u == 0xA0 || u == 0x1680
        || (0x2000 <= u && u <= 0x200A) || u == 0x2028 || u == 0x2029 || u == 0x202F
        || u == 0x205F || u == 0x3000
}

/// The number of terminal columns that `unicode-width` gives a character, `None` for a
/// control character.
pub uninterp spec fn unicode_char_width(c: char) -> Option<usize>;

/// The display width of `c` in columns.
/// Trusted: calls `UnicodeWidthChar::width` of `unicode-width`, whose result is named
/// `unicode_char_width`; its source returns `None` for the control characters below U+0020
/// and from U+007F up to U+00A0, `Some(1)` from U+0020 up to U+007F, and otherwise a width
/// read from a table of `u8`.
#[verifier::external_body]
pub(crate) fn char_width(c: char) -> (r: Option<usize>)
    ensures
        r == unicode_char_width(c),
        (c as u32) < 0x20 || (0x7F <= (c as u32) < 0xA0) ==> r is None,
        0x20 <= (c as u32) < 0x7F ==> r == Some(1usize),
        (c as u32) >= 0xA0 ==> r is Some,
        r matches Some(w) ==> w <= 255,
{
    c.width()
}

/// The characters of a string slice, in order.
pub fn str_chars(s: &str) -> (r: Vec<char>)
    ensures
        r@ == s@,
{
    let mut v: Vec<char> = Vec::new();
    for c in it: s.chars()
        invariant
            v@ == it.seq().take(it.index() as int),
    {
        v.push(c);
    }
    v
}


/// A line without its `'\r'` terminator, as `str::lines` strips it before a `'\n'`.
pub open spec fn strip_cr(line: Seq<char>) -> Seq<char> {
    if line.len() > 0 && line.last() == '\r' {
        line.drop_last()
    } else {
        line
    }
}

/// The lines of `s`, with `cur` the part of the current line read so far.
pub open spec fn lines_acc(s: Seq<char>, cur: Seq<char>) -> Seq<Seq<char>>
    decreases s.len(),
{
    if s.len() == 0 {
        if cur.len() == 0 {
            seq![]
        } else {
            seq![cur]
        }
    } else if s[0] == '\n' {
        seq![strip_cr(cur)] + lines_acc(s.drop_first(), seq![])
    } else {
        lines_acc(s.drop_first(), cur.push(s[0]))
    }
}

/// The lines of a text as `str::lines` yields them: split at `'\n'`, a `'\r'` before the
/// `'\n'` removed, and no empty last line after a final `'\n'`.
pub open spec fn lines_of(s: Seq<char>) -> Seq<Seq<char>> {
    lines_acc(s, seq![])
}

/// The lines of `text` joined with `'\n'` between them.
pub open spec fn join_lines_spec(lines: Seq<Seq<char>>) -> Seq<char>
    decreases lines.len(),
{
    if lines.len() == 0 {
        seq![]
    } else if lines.len() == 1 {
        lines[0]
    } else {
        join_lines_spec(lines.drop_last()) + seq!['\n'] + lines.last()
    }
}

/// Splits `s` into its lines, as `str::lines` does.
pub fn split_lines(s: &str) -> (r: Vec<Vec<char>>)
    ensures
        r@.map_values(|l: Vec<char>| l@) == lines_of(s@),
{
    let chars = str_chars(s);
    let mut out: Vec<Vec<char>> = Vec::new();
    let mut cur: Vec<char> = Vec::new();
    let mut i: usize = 0;
    assert(chars@.skip(0) =~= chars@);
    assert(out@.map_values(|l: Vec<char>| l@) =~= Seq::<Seq<char>>::empty());
    assert(Seq::<Seq<char>>::empty() + lines_of(s@) =~= lines_of(s@));
    while i < chars.len()
        invariant
            0 <= i <= chars@.len(),
            chars@ == s@,
            out@.map_values(|l: Vec<char>| l@) + lines_acc(chars@.skip(i as int), cur@) == lines_of(s@),
        decreases chars@.len() - i,
    {
        let c = chars[i];
        let ghost rest = chars@.skip(i as int);
        assert(rest.drop_first() =~= chars@.skip(i + 1));
        assert(rest[0] == c);
        let ghost old_cur = cur@;
        if c == '\n' {
            let mut line = cur;
            let n = line.len();
            if n > 0 && line[n - 1] == '\r' {
                line.pop();
            }
            let ghost old_out = out@;
            out.push(line);
            assert(out@.map_values(|l: Vec<char>| l@) =~= old_out.map_values(|l: Vec<char>| l@).push(strip_cr(cur@)));
            cur = Vec::new();
            assert(out@.map_values(|l: Vec<char>| l@) + lines_acc(chars@.skip(i + 1), cur@)
                =~= old_out.map_values(|l: Vec<char>| l@) + lines_acc(rest, old_cur));
        } else {
            cur.push(c);
        }
        i = i + 1;
    }
    if cur.len() > 0 {
        let ghost old_out = out@;
        out.push(cur);
        assert(out@.map_values(|l: Vec<char>| l@) =~= old_out.map_values(|l: Vec<char>| l@).push(cur@));
    }
    assert(out@.map_values(|l: Vec<char>| l@) =~= lines_of(s@));
    out
}

/// Reading a stretch without `'\n'` only extends the current line.
pub proof fn lemma_lines_acc_plain(s: Seq<char>, rest: Seq<char>, cur: Seq<char>)
    requires
        !s.contains('\n'),
    ensures
        lines_acc(s + rest, cur) == lines_acc(rest, cur + s),
    decreases s.len(),
{
    if s.len() == 0 {
        assert(s + rest =~= rest);
        assert(cur + s =~= cur);
    } else {
        assert((s + rest)[0] == s[0]);
        assert((s + rest).drop_first() =~= s.drop_first() + rest);
        assert(!s.drop_first().contains('\n')) by {
            if s.drop_first().contains('\n') {
                let k = choose|k: int| 0 <= k < s.drop_first().len() && s.drop_first()[k] == '\n';
                assert(s[k + 1] == '\n');
            }
        }
        assert(s[0] != '\n') by {
            if s[0] == '\n' {
                assert(s.contains('\n'));
            }
        }
        lemma_lines_acc_plain(s.drop_first(), rest, cur.push(s[0]));
        assert(cur.push(s[0]) + s.drop_first() =~= cur + s);
    }
}

/// Lines joined with `'\n'` start with the first line and a `'\n'`.
pub proof fn lemma_join_front(lines: Seq<Seq<char>>)
    requires
        lines.len() >= 2,
    ensures
        join_lines_spec(lines) == lines[0] + seq!['\n'] + join_lines_spec(lines.drop_first()),
    decreases lines.len(),
{
    if lines.len() == 2 {
        assert(lines.drop_last() =~= seq![lines[0]]);
        assert(lines.drop_first() =~= seq![lines[1]]);
        assert(join_lines_spec(lines.drop_last()) == lines[0]);
        assert(join_lines_spec(lines.drop_first()) == lines[1]);
        assert(join_lines_spec(lines) == join_lines_spec(lines.drop_last()) + seq!['\n'] + lines.last());
    } else {
        let dl = lines.drop_last();
        let df = lines.drop_first();
        lemma_join_front(dl);
        assert(dl.drop_first() =~= df.drop_last());
        assert(df.last() == lines.last());
        assert(dl[0] == lines[0]);
        let j = join_lines_spec(df.drop_last());
        assert(join_lines_spec(df) == j + seq!['\n'] + df.last());
        assert(join_lines_spec(lines) == join_lines_spec(dl) + seq!['\n'] + lines.last());
        assert((lines[0] + seq!['\n'] + j) + seq!['\n'] + lines.last() =~= lines[0] + seq!['\n'] + (j + seq!['\n'] + lines.last()));
    }
}

/// The lines of a text that ends with `'\n'`, read on from a current line `cur`, joined
/// with `'\n'` again give `cur` and the text without its final `'\n'`, where neither
/// holds a `'\r'` and `cur` holds no `'\n'`.
pub proof fn lemma_join_lines_acc(s: Seq<char>, cur: Seq<char>)
    requires
        !s.contains('\r'),
        !cur.contains('\r'),
        !cur.contains('\n'),
    ensures
        lines_acc(s.push('\n'), cur).len() >= 1,
        join_lines_spec(lines_acc(s.push('\n'), cur)) == cur + s,
    decreases s.len(),
{
    let t = s.push('\n');
    assert(strip_cr(cur) == cur) by {
        if cur.len() > 0 && cur.last() == '\r' {
            assert(cur[cur.len() - 1] == '\r');
        }
    }
    if s.len() == 0 {
        assert(t =~= seq!['\n']);
        assert(t.drop_first() =~= Seq::<char>::empty());
        assert(t[0] == '\n');
        assert(lines_acc(Seq::<char>::empty(), Seq::<char>::empty()) =~= Seq::<Seq<char>>::empty());
        assert(lines_acc(t, cur) == seq![strip_cr(cur)] + lines_acc(t.drop_first(), seq![]));
        assert(lines_acc(t, cur) =~= seq![cur]);
        assert(cur + s =~= cur);
    } else {
        assert(t[0] == s[0]);
        assert(t.drop_first() =~= s.drop_first().push('\n'));
        assert(!s.drop_first().contains('\r')) by {
            if s.drop_first().contains('\r') {
                let k = choose|k: int| 0 <= k < s.drop_first().len() && s.drop_first()[k] == '\r';
                assert(s[k + 1] == '\r');
            }
        }
        if s[0] == '\n' {
            lemma_join_lines_acc(s.drop_first(), seq![]);
            let rest = lines_acc(s.drop_first().push('\n'), seq![]);
            let all = seq![cur] + rest;
            assert(lines_acc(t, cur) == all);
            assert(all.len() >= 2);
            lemma_join_front(all);
            assert(all[0] == cur);
            assert(all.drop_first() =~= rest);
            assert(Seq::<char>::empty() + s.drop_first() =~= s.drop_first());
            assert(cur + seq!['\n'] + s.drop_first() =~= cur + s) by {
                assert(s =~= seq![s[0]] + s.drop_first());
            }
        } else {
            assert(s[0] != '\r') by {
                if s[0] == '\r' {
                    assert(s.contains('\r'));
                }
            }
            let c2 = cur.push(s[0]);
            assert(!c2.contains('\r') && !c2.contains('\n')) by {
                if c2.contains('\r') {
                    let k = choose|k: int| 0 <= k < c2.len() && c2[k] == '\r';
                    if k < cur.len() {
                        assert(cur[k] == '\r');
                    }
                }
                if c2.contains('\n') {
                    let k = choose|k: int| 0 <= k < c2.len() && c2[k] == '\n';
                    if k < cur.len() {
                        assert(cur[k] == '\n');
                    }
                }
            }
            lemma_join_lines_acc(s.drop_first(), c2);
            assert(c2 + s.drop_first() =~= cur + s);
        }
    }
}

/// Whether each line holds no `'\n'` and does not end in `'\r'`: the lines that splitting
/// a text gives back as they are.
pub open spec fn plain_lines(lines: Seq<Seq<char>>) -> bool {
    forall|i: int| 0 <= i < lines.len() ==> !(#[trigger] lines[i]).contains('\n') && !(lines[i].len() > 0 && lines[i].last() == '\r')
}

/// Splitting lines joined with `'\n'`, followed by a `'\n'` and more text, gives back the
/// lines and then the lines of the rest.
pub proof fn lemma_split_join(lines: Seq<Seq<char>>, rest: Seq<char>)
    requires
        lines.len() >= 1,
        plain_lines(lines),
    ensures
        lines_acc(join_lines_spec(lines) + seq!['\n'] + rest, seq![]) == lines + lines_acc(rest, seq![]),
    decreases lines.len(),
{
    let first = lines[0];
    assert(!first.contains('\n') && !(first.len() > 0 && first.last() == '\r'));
    assert(strip_cr(first) == first);
    if lines.len() == 1 {
        assert(join_lines_spec(lines) == first);
        assert(first + seq!['\n'] + rest =~= first + (seq!['\n'] + rest));
        lemma_lines_acc_plain(first, seq!['\n'] + rest, seq![]);
        assert(Seq::<char>::empty() + first =~= first);
        let t = seq!['\n'] + rest;
        assert(t[0] == '\n');
        assert(t.drop_first() =~= rest);
        assert(lines =~= seq![first]);
    } else {
        lemma_join_front(lines);
        let tail = lines.drop_first();
        assert(plain_lines(tail)) by {
            assert forall|i: int| 0 <= i < tail.len() implies !(#[trigger] tail[i]).contains('\n') && !(tail[i].len() > 0
                && tail[i].last() == '\r') by {
                assert(tail[i] == lines[i + 1]);
            }
        }
        lemma_split_join(tail, rest);
        let inner = join_lines_spec(tail) + seq!['\n'] + rest;
        assert(join_lines_spec(lines) + seq!['\n'] + rest =~= first + (seq!['\n'] + inner));
        lemma_lines_acc_plain(first, seq!['\n'] + inner, seq![]);
        assert(Seq::<char>::empty() + first =~= first);
        let t = seq!['\n'] + inner;
        assert(t[0] == '\n');
        assert(t.drop_first() =~= inner);
        assert(lines =~= seq![first] + tail);
    }
}

} // verus!
