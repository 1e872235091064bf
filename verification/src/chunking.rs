//! Splitting a document into chunks: the paragraphs separated by blank lines (`"\n\n"`),
//! trimmed, with the empty ones left out.
use vstd::prelude::*;
use crate::text::{chars_of, is_white_space, trim, trim_end, trim_range, trim_start};

verus! {

/// Whether a paragraph separator `"\n\n"` starts at position `i` of `s`.
pub open spec fn blank_line_at(s: Seq<char>, i: int) -> bool {
    0 <= i && i + 1 < s.len() && s[i] == '\n' && s[i + 1] == '\n'
}

/// The position of the first separator in `s` at or after `from`, if any.
pub open spec fn first_blank_line_from(s: Seq<char>, from: int) -> Option<int>
    decreases s.len() - from,
{
    if from + 1 >= s.len() {
        None
    } else if blank_line_at(s, from) {
        Some(from)
    } else {
        first_blank_line_from(s, from + 1)
    }
}

/// The pieces of `s` between separators, as `str::split("\n\n")` yields them.
pub open spec fn paragraphs(s: Seq<char>) -> Seq<Seq<char>>
    decreases s.len(),
{
    match first_blank_line_from(s, 0) {
        Some(i) => {
            proof {
                lemma_first_blank_line_found(s, 0);
            }
            seq![s.take(i)] + paragraphs(s.skip(i + 2))
        },
        None => seq![s],
    }
}

/// The chunks of a document: its paragraphs, trimmed, without the empty ones.
pub open spec fn chunks(content: Seq<char>) -> Seq<Seq<char>> {
    paragraphs(content).map_values(|p: Seq<char>| trim(p)).filter(|c: Seq<char>| c.len() > 0)
}

/// A found separator is the first one at or after `from`.
pub proof fn lemma_first_blank_line_found(s: Seq<char>, from: int)
    requires
        0 <= from,
    ensures
        first_blank_line_from(s, from) matches Some(i) ==> {
            &&& from <= i
            &&& blank_line_at(s, i)
            &&& forall|k: int| from <= k < i ==> !blank_line_at(s, k)
        },
        first_blank_line_from(s, from) is None ==> forall|k: int|
            from <= k ==> !blank_line_at(s, k),
    decreases s.len() - from,
{
    if from + 1 < s.len() && !blank_line_at(s, from) {
        lemma_first_blank_line_found(s, from + 1);
    }
}

/// The first separator is determined by where separators are.
proof fn lemma_first_blank_line_is(s: Seq<char>, from: int, j: int)
    requires
        0 <= from <= j,
        forall|k: int| from <= k < j ==> !blank_line_at(s, k),
        blank_line_at(s, j),
    ensures
        first_blank_line_from(s, from) == Some(j),
    decreases j - from,
{
    if from < j {
        lemma_first_blank_line_is(s, from + 1, j);
    }
}

proof fn lemma_no_blank_line(s: Seq<char>, from: int)
    requires
        0 <= from,
        forall|k: int| from <= k < s.len() ==> !blank_line_at(s, k),
    ensures
        first_blank_line_from(s, from) is None,
    decreases s.len() - from,
{
    if from + 1 < s.len() {
        lemma_no_blank_line(s, from + 1);
    }
}

/// The chunk a piece contributes: its trimmed form, unless that is empty.
pub open spec fn kept_chunk(piece: Seq<char>) -> Seq<Seq<char>> {
    if trim(piece).len() > 0 {
        seq![trim(piece)]
    } else {
        seq![]
    }
}

proof fn lemma_chunks_of_pieces(ps: Seq<Seq<char>>, a: Seq<Seq<char>>)
    ensures
        (seq![a[0]] + ps).map_values(|p: Seq<char>| trim(p)).filter(|c: Seq<char>| c.len() > 0)
            == kept_chunk(a[0]) + ps.map_values(|p: Seq<char>| trim(p)).filter(
            |c: Seq<char>| c.len() > 0,
        ),
{
    let f = |p: Seq<char>| trim(p);
    let g = |c: Seq<char>| c.len() > 0;
    let head = seq![a[0]];
    assert((head + ps).map_values(f) == head.map_values(f) + ps.map_values(f));
    Seq::filter_distributes_over_add(head.map_values(f), ps.map_values(f), g);
    assert(head.map_values(f) == seq![trim(a[0])]);
    reveal_with_fuel(Seq::filter, 2);
    assert(seq![trim(a[0])].drop_last() == Seq::<Seq<char>>::empty());
    assert(seq![trim(a[0])].filter(g) == kept_chunk(a[0]));
}

/// Chunks of a text whose first separator is at `j`.
proof fn lemma_chunks_split(s: Seq<char>, j: int)
    requires
        first_blank_line_from(s, 0) == Some(j),
    ensures
        0 <= j && j + 2 <= s.len(),
        chunks(s) == kept_chunk(s.take(j)) + chunks(s.skip(j + 2)),
{
    lemma_first_blank_line_found(s, 0);
    let a = seq![s.take(j)];
    lemma_chunks_of_pieces(paragraphs(s.skip(j + 2)), a);
}

/// Chunks of a text without separator.
proof fn lemma_chunks_single(s: Seq<char>)
    requires
        first_blank_line_from(s, 0) is None,
    ensures
        chunks(s) == kept_chunk(s),
{
    let a = seq![s];
    lemma_chunks_of_pieces(Seq::<Seq<char>>::empty(), a);
    assert(seq![a[0]] + Seq::<Seq<char>>::empty() == seq![s]);
    assert(Seq::<Seq<char>>::empty().map_values(|p: Seq<char>| trim(p)).filter(
        |c: Seq<char>| c.len() > 0,
    ) == Seq::<Seq<char>>::empty());
}

/// Splits a document into chunks: paragraphs separated by `"\n\n"`, each trimmed, the empty
/// ones dropped. The file path names the document; it does not affect the chunks.
pub fn chunk_document(file_path: &str, content: &str) -> (result: Vec<String>)
    ensures
        result@.map_values(|c: String| c@) == chunks(content@),
{
    let v = chars_of(content);
    let n = v.len();
    let mut out: Vec<String> = Vec::new();
    let ghost mut outv: Seq<Seq<char>> = seq![];
    let mut start: usize = 0;
    let mut j: usize = 0;
    assert(v@.skip(0) == v@);
    assert(outv + chunks(v@.skip(0)) == chunks(content@));
    while j < n
        invariant
            v@ == content@,
            n == v.len(),
            start <= j <= n,
            out@.len() == outv.len(),
            forall|k: int| 0 <= k < outv.len() ==> #[trigger] out@[k]@ == outv[k],
            outv + chunks(v@.skip(start as int)) == chunks(content@),
            forall|k: int| 0 <= k < j - start ==> !blank_line_at(v@.skip(start as int), k),
        decreases n - j + (n - start),
    {
        let ghost r = v@.skip(start as int);
        if j + 1 < n && v[j] == '\n' && v[j + 1] == '\n' {
            proof {
                assert(blank_line_at(r, j - start));
                lemma_first_blank_line_is(r, 0, j - start);
                lemma_chunks_split(r, j - start);
                assert(r.take(j - start) == v@.subrange(start as int, j as int));
                assert(r.skip(j - start + 2) == v@.skip(j + 2));
            }
            let piece = trim_range(&v, start, j);
            let ghost before = outv;
            if !piece.as_str().is_empty() {
                out.push(piece);
                proof {
                    outv = outv.push(piece@);
                }
            }
            proof {
                assert(outv == before + kept_chunk(v@.subrange(start as int, j as int)));
                assert(before + kept_chunk(v@.subrange(start as int, j as int)) + chunks(v@.skip(j + 2)) == before + (kept_chunk(v@.subrange(start as int, j as int)) + chunks(v@.skip(j + 2))));
            }
            start = j + 2;
            j = j + 2;
        } else {
            proof {
                assert(!blank_line_at(r, j - start));
            }
            j = j + 1;
        }
    }
    let ghost r = v@.skip(start as int);
    proof {
        lemma_no_blank_line(r, 0);
        lemma_chunks_single(r);
        assert(r == v@.subrange(start as int, n as int));
    }
    let piece = trim_range(&v, start, n);
    let ghost before = outv;
    if !piece.as_str().is_empty() {
        out.push(piece);
        proof {
            outv = outv.push(piece@);
        }
    }
    proof {
        assert(outv == before + kept_chunk(r));
        assert(out@.map_values(|c: String| c@) == outv);
    }
    out
}

/// Whether `s` holds no paragraph separator.
pub open spec fn has_no_blank_line(s: Seq<char>) -> bool {
    forall|i: int| !#[trigger] blank_line_at(s, i)
}

proof fn lemma_paragraphs_have_no_blank_line(s: Seq<char>)
    ensures
        forall|k: int|
            0 <= k < paragraphs(s).len() ==> has_no_blank_line(#[trigger] paragraphs(s)[k]),
    decreases s.len(),
{
    lemma_first_blank_line_found(s, 0);
    match first_blank_line_from(s, 0) {
        Some(j) => {
            let head = s.take(j);
            assert forall|i: int| !#[trigger] blank_line_at(head, i) by {
                if blank_line_at(head, i) {
                    assert(head[i] == s[i] && head[i + 1] == s[i + 1]);
                    assert(blank_line_at(s, i));
                }
            }
            lemma_paragraphs_have_no_blank_line(s.skip(j + 2));
            let ps = paragraphs(s);
            let tail = paragraphs(s.skip(j + 2));
            assert(ps == seq![head] + tail);
            assert forall|k: int| 0 <= k < ps.len() implies has_no_blank_line(#[trigger] ps[k]) by {
                if k > 0 {
                    assert(ps[k] == tail[k - 1]);
                }
            }
        },
        None => {
            assert(paragraphs(s) == seq![s]);
            assert forall|i: int| !#[trigger] blank_line_at(s, i) by {
                if i < 0 {
                }
            }
        },
    }
}

proof fn lemma_trim_start_is_suffix(s: Seq<char>)
    ensures
        exists|a: int| 0 <= a <= s.len() && trim_start(s) == s.subrange(a, s.len() as int),
        trim_start(s).len() > 0 ==> !is_white_space(trim_start(s)[0]),
    decreases s.len(),
{
    if s.len() > 0 && is_white_space(s[0]) {
        lemma_trim_start_is_suffix(s.drop_first());
        let a = choose|a: int|
            0 <= a <= s.drop_first().len() && trim_start(s.drop_first()) == s.drop_first().subrange(
                a,
                s.drop_first().len() as int,
            );
        assert(s.drop_first().subrange(a, s.drop_first().len() as int) == s.subrange(
            a + 1,
            s.len() as int,
        ));
    } else {
        assert(s.subrange(0, s.len() as int) == s);
    }
}

proof fn lemma_trim_end_is_prefix(s: Seq<char>)
    ensures
        exists|b: int| 0 <= b <= s.len() && trim_end(s) == s.subrange(0, b),
        trim_end(s).len() > 0 ==> !is_white_space(trim_end(s).last()),
    decreases s.len(),
{
    if s.len() > 0 && is_white_space(s.last()) {
        lemma_trim_end_is_prefix(s.drop_last());
        let b = choose|b: int|
            0 <= b <= s.drop_last().len() && trim_end(s.drop_last()) == s.drop_last().subrange(
                0,
                b,
            );
        assert(s.drop_last().subrange(0, b) == s.subrange(0, b));
    } else {
        assert(s.subrange(0, s.len() as int) == s);
    }
}

/// Trimming yields a run of the input, starting and ending with non-white-space characters.
proof fn lemma_trim_shape(s: Seq<char>)
    ensures
        exists|a: int, b: int| 0 <= a <= b <= s.len() && trim(s) == s.subrange(a, b),
        trim(s).len() > 0 ==> !is_white_space(trim(s)[0]) && !is_white_space(trim(s).last()),
{
    lemma_trim_start_is_suffix(s);
    let t = trim_start(s);
    lemma_trim_end_is_prefix(t);
    let a = choose|a: int| 0 <= a <= s.len() && t == s.subrange(a, s.len() as int);
    let b = choose|b: int| 0 <= b <= t.len() && trim_end(t) == t.subrange(0, b);
    assert(trim(s) == s.subrange(a, a + b));
    if trim(s).len() > 0 {
        assert(trim(s)[0] == t[0]);
    }
}

/// Trimming an already trimmed text changes nothing.
pub proof fn lemma_trim_idempotent(s: Seq<char>)
    ensures
        trim(trim(s)) == trim(s),
{
    lemma_trim_shape(s);
    let t = trim(s);
    if t.len() > 0 {
        assert(trim_start(t) == t);
        assert(trim_end(t) == t);
    } else {
        assert(trim_start(t) == t);
    }
}

/// Law: every chunk of a document is non-empty, already trimmed, and holds no paragraph
/// separator.
pub proof fn law_chunks_are_trimmed_paragraphs(content: Seq<char>)
    ensures
        forall|k: int|
            0 <= k < chunks(content).len() ==> {
                let c = #[trigger] chunks(content)[k];
                &&& c.len() > 0
                &&& trim(c) == c
                &&& has_no_blank_line(c)
            },
{
    let f = |p: Seq<char>| trim(p);
    let g = |c: Seq<char>| c.len() > 0;
    let ps = paragraphs(content);
    let m = ps.map_values(f);
    lemma_paragraphs_have_no_blank_line(content);
    assert forall|k: int| 0 <= k < chunks(content).len() implies {
        let c = #[trigger] chunks(content)[k];
        &&& c.len() > 0
        &&& trim(c) == c
        &&& has_no_blank_line(c)
    } by {
        let c = chunks(content)[k];
        m.lemma_filter_pred(g, k);
        assert(m.filter(g).contains(c));
        m.lemma_filter_contains_rev(g, c);
        let j = choose|j: int| 0 <= j < m.len() && m[j] == c;
        let p = ps[j];
        assert(c == trim(p));
        lemma_trim_idempotent(p);
        lemma_trim_shape(p);
        let (a, b) = choose|a: int, b: int| 0 <= a <= b <= p.len() && trim(p) == p.subrange(a, b);
        assert(has_no_blank_line(p));
        assert forall|i: int| !#[trigger] blank_line_at(c, i) by {
            if blank_line_at(c, i) {
                assert(c[i] == p[a + i] && c[i + 1] == p[a + i + 1]);
                assert(blank_line_at(p, a + i));
            }
        }
    }
}

} // verus!
