//! Indentation and documentation-block text helpers shared by all renderers.

use vstd::prelude::*;
use itertools::Itertools;

verus! {

/// One indentation level of Python stub text: four spaces.
pub open spec fn spec_indent_unit() -> Seq<char> {
    "    "@
}

/// The leading indent of a declaration nested `depth` levels deep.
pub open spec fn spec_indent(depth: nat) -> Seq<char>
    decreases depth,
{
    if depth == 0 {
        Seq::empty()
    } else {
        spec_indent((depth - 1) as nat) + spec_indent_unit()
    }
}

/// `s` with every newline character replaced by `cont`: the text that keeps
/// each following line of a multi-line block at the same leading indent when
/// `cont` is a newline followed by that indent.
pub open spec fn spec_replace_newlines(s: Seq<char>, cont: Seq<char>) -> Seq<char>
    decreases s.len(),
{
    if s.len() == 0 {
        Seq::empty()
    } else if s.last() == '\n' {
        spec_replace_newlines(s.drop_last(), cont) + cont
    } else {
        spec_replace_newlines(s.drop_last(), cont) + seq![s.last()]
    }
}

/// The indent string for a declaration nested `depth` levels deep.
pub fn indent_str(depth: usize) -> (r: String)
    ensures
        r@ == spec_indent(depth as nat),
{
    let mut out = String::new();
    let mut i: usize = 0;
    while i < depth
        invariant
            i <= depth,
            out@ == spec_indent(i as nat),
        decreases depth - i,
    {
        out.append("    ");
        i = i + 1;
    }
    out
}

/// The segments of `s` around its newline characters: `k` newlines give
/// `k + 1` segments, an empty `s` the one empty segment.
pub open spec fn spec_split_newlines(s: Seq<char>) -> Seq<Seq<char>>
    decreases s.len(),
{
    if s.len() == 0 {
        seq![Seq::<char>::empty()]
    } else if s.last() == '\n' {
        spec_split_newlines(s.drop_last()).push(Seq::empty())
    } else {
        let rest = spec_split_newlines(s.drop_last());
        rest.drop_last().push(rest.last().push(s.last()))
    }
}

/// `line` without a trailing carriage return, if it has one.
pub open spec fn spec_strip_cr(line: Seq<char>) -> Seq<char> {
    if line.len() > 0 && line.last() == '\r' {
        line.drop_last()
    } else {
        line
    }
}

/// Every segment with its trailing carriage return stripped.
pub open spec fn spec_strip_all(segs: Seq<Seq<char>>) -> Seq<Seq<char>>
    decreases segs.len(),
{
    if segs.len() == 0 {
        Seq::empty()
    } else {
        spec_strip_all(segs.drop_last()).push(spec_strip_cr(segs.last()))
    }
}

/// The lines of `s`, split as `str::lines` splits them: line endings are a
/// newline or a carriage return followed by a newline, the final line ending
/// is optional, and a carriage return not followed by a newline stays part
/// of its line.
pub open spec fn spec_doc_lines(s: Seq<char>) -> Seq<Seq<char>> {
    let segs = spec_split_newlines(s);
    if segs.len() > 0 && segs.last().len() == 0 {
        spec_strip_all(segs.drop_last())
    } else if segs.len() > 0 {
        spec_strip_all(segs.drop_last()).push(segs.last())
    } else {
        Seq::empty()
    }
}

/// One text line per entry of `lines`, each led by the indent `ind` and
/// closed by a newline.
pub open spec fn spec_lines_block(lines: Seq<Seq<char>>, ind: Seq<char>) -> Seq<char>
    decreases lines.len(),
{
    if lines.len() == 0 {
        Seq::empty()
    } else {
        spec_lines_block(lines.drop_last(), ind) + ind + lines.last() + "\n"@
    }
}

/// Splitting always yields at least one segment.
proof fn lemma_split_newlines_len(s: Seq<char>)
    ensures
        spec_split_newlines(s).len() >= 1,
    decreases s.len(),
{
    if s.len() > 0 {
        lemma_split_newlines_len(s.drop_last());
    }
}

/// A suffix without newlines extends the last segment and nothing else.
proof fn lemma_split_append_clean(p: Seq<char>, seg: Seq<char>)
    requires
        forall|k: int| 0 <= k < seg.len() ==> seg[k] != '\n',
    ensures
        spec_split_newlines(p + seg) == spec_split_newlines(p).drop_last().push(
            spec_split_newlines(p).last() + seg,
        ),
    decreases seg.len(),
{
    lemma_split_newlines_len(p);
    let sp = spec_split_newlines(p);
    if seg.len() == 0 {
        assert(p + seg =~= p);
        assert(sp.last() + seg =~= sp.last());
        assert(sp.drop_last().push(sp.last() + seg) =~~= sp);
    } else {
        let front = seg.drop_last();
        let c = seg.last();
        lemma_split_append_clean(p, front);
        assert((p + seg).drop_last() =~= p + front);
        assert((p + seg).last() == c);
        let rest = spec_split_newlines(p + front);
        assert(spec_split_newlines(p + seg) == rest.drop_last().push(rest.last().push(c)));
        assert(rest.drop_last() =~~= sp.drop_last());
        assert(rest.last() == sp.last() + front);
        assert((sp.last() + front).push(c) =~= sp.last() + seg);
        assert(spec_split_newlines(p + seg) =~~= sp.drop_last().push(sp.last() + seg));
    }
}

/// A prefix that is empty or newline-terminated ends in an empty segment.
proof fn lemma_split_last_empty(p: Seq<char>)
    requires
        p.len() == 0 || p.last() == '\n',
    ensures
        spec_split_newlines(p).last() == Seq::<char>::empty(),
{
    if p.len() > 0 {
        lemma_split_newlines_len(p.drop_last());
    }
}

/// Appending one newline-terminated line to an empty or newline-terminated
/// prefix appends that line, its trailing carriage return stripped, to the
/// prefix's lines.
proof fn lemma_doc_lines_push_line(p: Seq<char>, seg: Seq<char>)
    requires
        p.len() == 0 || p.last() == '\n',
        forall|k: int| 0 <= k < seg.len() ==> seg[k] != '\n',
    ensures
        spec_doc_lines(p + seg + seq!['\n']) == spec_doc_lines(p).push(spec_strip_cr(seg)),
{
    lemma_split_newlines_len(p);
    lemma_split_last_empty(p);
    lemma_split_append_clean(p, seg);
    let sp = spec_split_newlines(p);
    let q = p + seg + seq!['\n'];
    assert(q.last() == '\n');
    assert(q.drop_last() =~= p + seg);
    assert(spec_split_newlines(q) == spec_split_newlines(p + seg).push(Seq::<char>::empty()));
    assert(sp.last() + seg =~= seg);
    let sq = spec_split_newlines(q);
    assert(sq =~~= sp.drop_last().push(seg).push(Seq::<char>::empty()));
    assert(sq.drop_last() =~~= sp.drop_last().push(seg));
    assert(spec_doc_lines(q) == spec_strip_all(sp.drop_last().push(seg)));
    assert(sp.drop_last().push(seg).drop_last() =~~= sp.drop_last());
    assert(spec_strip_all(sp.drop_last().push(seg)) == spec_strip_all(sp.drop_last()).push(
        spec_strip_cr(seg),
    ));
    assert(spec_doc_lines(p) == spec_strip_all(sp.drop_last()));
}

/// Appending a final line without a line ending to an empty or
/// newline-terminated prefix appends that line unchanged to the prefix's
/// lines.
proof fn lemma_doc_lines_push_tail(p: Seq<char>, seg: Seq<char>)
    requires
        p.len() == 0 || p.last() == '\n',
        forall|k: int| 0 <= k < seg.len() ==> seg[k] != '\n',
        seg.len() > 0,
    ensures
        spec_doc_lines(p + seg) == spec_doc_lines(p).push(seg),
{
    lemma_split_newlines_len(p);
    lemma_split_last_empty(p);
    lemma_split_append_clean(p, seg);
    let sp = spec_split_newlines(p);
    assert(sp.last() + seg =~= seg);
    let sq = spec_split_newlines(p + seg);
    assert(sq =~~= sp.drop_last().push(seg));
    assert(sq.last() == seg);
    assert(sq.drop_last() =~~= sp.drop_last());
    assert(spec_doc_lines(p + seg) == spec_strip_all(sp.drop_last()).push(seg));
    assert(spec_doc_lines(p) == spec_strip_all(sp.drop_last()));
}

/// One rendered text line per line of `s`, each led by the indent `ind` and
/// closed by a newline.
pub fn lines_block(s: &str, ind: &str) -> (r: String)
    ensures
        r@ == spec_lines_block(spec_doc_lines(s@), ind@),
{
    let n = s.unicode_len();
    let mut out = String::new();
    let mut start: usize = 0;
    let mut i: usize = 0;
    while i < n
        invariant
            start <= i <= n,
            n == s@.len(),
            start == 0 || s@[start as int - 1] == '\n',
            out@ == spec_lines_block(spec_doc_lines(s@.take(start as int)), ind@),
            forall|k: int| start <= k < i ==> s@[k] != '\n',
        decreases n - i,
    {
        let c = s.get_char(i);
        if c == '\n' {
            let ghost seg = s@.subrange(start as int, i as int);
            let seg_end = if i > start && s.get_char(i - 1) == '\r' {
                i - 1
            } else {
                i
            };
            proof {
                if i > start && s@[i as int - 1] == '\r' {
                    assert(seg.last() == s@[i as int - 1]);
                    assert(spec_strip_cr(seg) =~= s@.subrange(start as int, i as int - 1));
                } else {
                    assert(spec_strip_cr(seg) == seg);
                }
            }
            let chunk = s.substring_char(start, seg_end);
            out.append(ind);
            out.append(chunk);
            out.append("\n");
            proof {
                let p = s@.take(start as int);
                assert(p.len() == 0 || p.last() == '\n');
                lemma_doc_lines_push_line(p, seg);
                assert(p + seg + seq!['\n'] =~= s@.take(i as int + 1));
                let ls = spec_doc_lines(p);
                assert(spec_doc_lines(s@.take(i as int + 1)) == ls.push(spec_strip_cr(seg)));
                assert(ls.push(spec_strip_cr(seg)).drop_last() =~~= ls);
                assert(spec_lines_block(ls.push(spec_strip_cr(seg)), ind@) == spec_lines_block(
                    ls,
                    ind@,
                ) + ind@ + spec_strip_cr(seg) + "\n"@);
            }
            start = i + 1;
        }
        i = i + 1;
    }
    if start < n {
        let ghost seg = s@.subrange(start as int, n as int);
        let chunk = s.substring_char(start, n);
        out.append(ind);
        out.append(chunk);
        out.append("\n");
        proof {
            let p = s@.take(start as int);
            assert(p.len() == 0 || p.last() == '\n');
            lemma_doc_lines_push_tail(p, seg);
            assert(p + seg =~= s@);
            let ls = spec_doc_lines(p);
            assert(spec_doc_lines(s@) == ls.push(seg));
            assert(ls.push(seg).drop_last() =~~= ls);
            assert(spec_lines_block(ls.push(seg), ind@) == spec_lines_block(ls, ind@) + ind@ + seg
                + "\n"@);
        }
    } else {
        proof {
            assert(s@.take(start as int) =~= s@);
        }
    }
    out
}

/// Relies on `itertools::Itertools::join` over `str::split`: splitting on a
/// newline pattern and joining the pieces with `sep` replaces each newline
/// in `doc` by `sep` and changes nothing else.
#[verifier::external_body]
pub(crate) fn join_doc_lines(doc: &str, sep: &str) -> (r: String)
    ensures
        r@ == spec_replace_newlines(doc@, sep@),
{
    doc.split("\n").join(sep)
}

} // verus!
