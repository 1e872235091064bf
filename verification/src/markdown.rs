//! Markdown to plain text: render the Markdown to HTML with comrak, drop the tags,
//! and collapse white space into single spaces.
use vstd::prelude::*;
use crate::text::{char_is_white_space, is_white_space, string_push};

verus! {

/// Whether a scan of `s` ends inside a tag: the last angle bracket in `s` is a `<`.
pub open spec fn in_tag_after(s: Seq<char>) -> bool
    decreases s.len(),
{
    if s.len() == 0 {
        false
    } else if s.last() == '<' {
        true
    } else if s.last() == '>' {
        false
    } else {
        in_tag_after(s.drop_last())
    }
}

/// The characters of `s` outside tags: every `<` and `>` is dropped, and so is every
/// character whose nearest angle bracket before it is a `<`.
pub open spec fn strip_tags(s: Seq<char>) -> Seq<char>
    decreases s.len(),
{
    if s.len() == 0 {
        seq![]
    } else {
        let kept = strip_tags(s.drop_last());
        let c = s.last();
        if c == '<' || c == '>' || in_tag_after(s.drop_last()) {
            kept
        } else {
            kept.push(c)
        }
    }
}

/// The white-space separated words of `s`, in order, as `str::split_whitespace` yields them.
pub open spec fn words(s: Seq<char>) -> Seq<Seq<char>>
    decreases s.len(),
{
    if s.len() == 0 {
        seq![]
    } else {
        let w = words(s.drop_last());
        let c = s.last();
        if is_white_space(c) {
            w
        } else if s.len() >= 2 && !is_white_space(s[s.len() - 2]) {
            w.update(w.len() - 1, w.last().push(c))
        } else {
            w.push(seq![c])
        }
    }
}

/// The words joined with single spaces, as `[&str]::join(" ")` does.
pub open spec fn join_words(ws: Seq<Seq<char>>) -> Seq<char>
    decreases ws.len(),
{
    if ws.len() == 0 {
        seq![]
    } else if ws.len() == 1 {
        ws[0]
    } else {
        join_words(ws.drop_last()) + seq![' '] + ws.last()
    }
}

/// The text of an HTML fragment: its characters outside tags, with runs of white space
/// collapsed into single spaces and no white space at either end.
pub open spec fn html_text(html: Seq<char>) -> Seq<char> {
    join_words(words(strip_tags(html)))
}

/// What comrak renders from a Markdown document with its default options.
pub uninterp spec fn comrak_html(markdown: Seq<char>) -> Seq<char>;

/// The plain text of a Markdown document.
pub open spec fn markdown_text(markdown: Seq<char>) -> Seq<char> {
    html_text(comrak_html(markdown))
}

/// Renders Markdown to HTML with comrak's `markdown_to_html` and default options.
/// The result is named, not described: it depends on the input alone.
#[verifier::external_body]
fn markdown_to_html(markdown: &str) -> (html: String)
    ensures
        html@ == comrak_html(markdown@),
{
    comrak::markdown_to_html(markdown, &comrak::Options::default())
}

proof fn lemma_words_nonempty(s: Seq<char>)
    requires
        s.len() > 0,
        !is_white_space(s.last()),
    ensures
        words(s).len() > 0,
    decreases s.len(),
{
    if s.len() >= 2 && !is_white_space(s[s.len() - 2]) {
        assert(s.drop_last().last() == s[s.len() - 2]);
        lemma_words_nonempty(s.drop_last());
    }
}

proof fn lemma_join_extend_last(ws: Seq<Seq<char>>, c: char)
    requires
        ws.len() > 0,
    ensures
        join_words(ws.update(ws.len() - 1, ws.last().push(c))) == join_words(ws).push(c),
{
    let ws2 = ws.update(ws.len() - 1, ws.last().push(c));
    if ws.len() > 1 {
        assert(ws2.drop_last() == ws.drop_last());
        assert(join_words(ws2) == join_words(ws.drop_last()) + seq![' '] + ws.last().push(c));
        assert(join_words(ws2) =~= join_words(ws).push(c));
    }
}

proof fn lemma_join_push(ws: Seq<Seq<char>>, w: Seq<char>)
    ensures
        join_words(ws.push(w)) == (if ws.len() == 0 {
            w
        } else {
            join_words(ws) + seq![' '] + w
        }),
{
    assert(ws.push(w).drop_last() == ws);
}

proof fn lemma_join_empty(ws: Seq<Seq<char>>)
    requires
        forall|k: int| 0 <= k < ws.len() ==> #[trigger] ws[k].len() > 0,
    ensures
        (join_words(ws).len() == 0) == (ws.len() == 0),
    decreases ws.len(),
{
    if ws.len() > 1 {
        lemma_join_empty(ws.drop_last());
    }
}

/// Every word is non-empty and free of white space.
pub proof fn lemma_words_shape(s: Seq<char>)
    ensures
        forall|k: int| 0 <= k < words(s).len() ==> #[trigger] words(s)[k].len() > 0,
        forall|k: int, j: int|
            0 <= k < words(s).len() && 0 <= j < words(s)[k].len() ==> !is_white_space(
                #[trigger] words(s)[k][j],
            ),
    decreases s.len(),
{
    if s.len() > 0 {
        lemma_words_shape(s.drop_last());
        let w = words(s.drop_last());
        let c = s.last();
        if !is_white_space(c) && s.len() >= 2 && !is_white_space(s[s.len() - 2]) {
            assert(s.drop_last().last() == s[s.len() - 2]);
            lemma_words_nonempty(s.drop_last());
            let w2 = words(s);
            assert forall|k: int, j: int|
                0 <= k < w2.len() && 0 <= j < w2[k].len() implies !is_white_space(
                #[trigger] w2[k][j],
            ) by {
                if k == w.len() - 1 {
                    if j < w.last().len() {
                        assert(w2[k][j] == w[k][j]);
                    }
                } else {
                    assert(w2[k] == w[k]);
                }
            }
        } else if !is_white_space(c) {
            let w2 = words(s);
            assert forall|k: int, j: int|
                0 <= k < w2.len() && 0 <= j < w2[k].len() implies !is_white_space(
                #[trigger] w2[k][j],
            ) by {
                if k < w.len() {
                    assert(w2[k] == w[k]);
                }
            }
        }
    }
}

/// Extracts the text of an HTML fragment: drops the tags and collapses white space.
pub fn html_to_text(html: &str) -> (text: String)
    ensures
        text@ == html_text(html@),
{
    let mut stripped: Vec<char> = Vec::new();
    let mut in_tag = false;
    for c in it: html.chars()
        invariant
            it.seq() == html@,
            stripped@ == strip_tags(html@.take(it.index() as int)),
            in_tag == in_tag_after(html@.take(it.index() as int)),
    {
        let ghost before = html@.take(it.index() as int);
        assert(html@.take(it.index() + 1).drop_last() == before);
        assert(html@.take(it.index() + 1).last() == c);
        if c == '<' {
            in_tag = true;
        } else if c == '>' {
            in_tag = false;
        } else if !in_tag {
            stripped.push(c);
        }
    }
    assert(html@.take(html@.len() as int) == html@);
    let ghost s = stripped@;
    let mut text = String::new();
    let mut has_word = false;
    let mut i: usize = 0;
    while i < stripped.len()
        invariant
            s == stripped@,
            s == strip_tags(html@),
            i <= stripped.len(),
            text@ == join_words(words(s.take(i as int))),
            has_word == (words(s.take(i as int)).len() > 0),
        decreases stripped.len() - i,
    {
        let c = stripped[i];
        let ghost pre = s.take(i as int);
        let ghost cur = s.take(i + 1);
        assert(cur.drop_last() == pre);
        assert(cur.last() == c);
        if !char_is_white_space(c) {
            if i > 0 && !char_is_white_space(stripped[i - 1]) {
                proof {
                    assert(cur[cur.len() - 2] == s[i - 1]);
                    assert(pre.last() == s[i - 1]);
                    lemma_words_nonempty(pre);
                    lemma_join_extend_last(words(pre), c);
                }
                string_push(&mut text, c);
            } else {
                proof {
                    if i > 0 {
                        assert(cur[cur.len() - 2] == s[i - 1]);
                    }
                    lemma_join_push(words(pre), seq![c]);
                }
                if has_word {
                    string_push(&mut text, ' ');
                }
                string_push(&mut text, c);
                proof {
                    if !has_word {
                        assert(text@ == seq![c]);
                    } else {
                        assert(text@ == join_words(words(pre)) + seq![' '] + seq![c]);
                    }
                }
                has_word = true;
            }
        }
        i = i + 1;
    }
    assert(s.take(s.len() as int) == s);
    text
}

/// Parses a Markdown string and returns its plain text: the Markdown is rendered to HTML
/// with comrak's default options, then the text is extracted from the HTML.
pub fn parse_markdown_to_text(markdown: &str) -> (text: String)
    ensures
        text@ == markdown_text(markdown@),
{
    let html = markdown_to_html(markdown);
    html_to_text(html.as_str())
}

/// Whether `s` holds neither `<` nor `>`.
pub open spec fn no_angle_brackets(s: Seq<char>) -> bool {
    forall|i: int| 0 <= i < s.len() ==> #[trigger] s[i] != '<' && s[i] != '>'
}

proof fn lemma_strip_tags_no_angle(s: Seq<char>)
    ensures
        no_angle_brackets(strip_tags(s)),
    decreases s.len(),
{
    if s.len() > 0 {
        lemma_strip_tags_no_angle(s.drop_last());
    }
}

proof fn lemma_strip_tags_identity(s: Seq<char>)
    requires
        no_angle_brackets(s),
    ensures
        strip_tags(s) == s,
        !in_tag_after(s),
    decreases s.len(),
{
    if s.len() > 0 {
        let p = s.drop_last();
        assert(no_angle_brackets(p)) by {
            assert forall|i: int| 0 <= i < p.len() implies #[trigger] p[i] != '<' && p[i] != '>' by {
                assert(p[i] == s[i]);
            }
        }
        lemma_strip_tags_identity(p);
        assert(s.last() == s[s.len() - 1]);
        assert(p.push(s.last()) == s);
    }
}

proof fn lemma_words_no_angle(s: Seq<char>)
    requires
        no_angle_brackets(s),
    ensures
        forall|k: int| 0 <= k < words(s).len() ==> no_angle_brackets(#[trigger] words(s)[k]),
    decreases s.len(),
{
    if s.len() > 0 {
        let p = s.drop_last();
        assert(no_angle_brackets(p)) by {
            assert forall|i: int| 0 <= i < p.len() implies #[trigger] p[i] != '<' && p[i] != '>' by {
                assert(p[i] == s[i]);
            }
        }
        lemma_words_no_angle(p);
        let c = s.last();
        assert(c == s[s.len() - 1]);
        let w = words(p);
        let w2 = words(s);
        if !is_white_space(c) && s.len() >= 2 && !is_white_space(s[s.len() - 2]) {
            assert(p.last() == s[s.len() - 2]);
            lemma_words_nonempty(p);
            assert forall|k: int| 0 <= k < w2.len() implies no_angle_brackets(#[trigger] w2[k]) by {
                if k == w.len() - 1 {
                    let x = w2[k];
                    assert(x == w.last().push(c));
                    assert(no_angle_brackets(w[k]));
                    assert forall|j: int| 0 <= j < x.len() implies #[trigger] x[j] != '<' && x[j]
                        != '>' by {
                        if j < x.len() - 1 {
                            assert(x[j] == w[k][j]);
                        }
                    }
                } else {
                    assert(w2[k] == w[k]);
                }
            }
        } else if !is_white_space(c) {
            assert forall|k: int| 0 <= k < w2.len() implies no_angle_brackets(#[trigger] w2[k]) by {
                if k < w.len() {
                    assert(w2[k] == w[k]);
                } else {
                    assert(w2[k] == seq![c]);
                }
            }
        }
    }
}

proof fn lemma_join_no_angle(ws: Seq<Seq<char>>)
    requires
        forall|k: int| 0 <= k < ws.len() ==> no_angle_brackets(#[trigger] ws[k]),
    ensures
        no_angle_brackets(join_words(ws)),
    decreases ws.len(),
{
    if ws.len() > 1 {
        lemma_join_no_angle(ws.drop_last());
        let a = join_words(ws.drop_last());
        let b = ws.last();
        assert(no_angle_brackets(b));
        let j = join_words(ws);
        assert(j == a + seq![' '] + b);
        assert forall|i: int| 0 <= i < j.len() implies #[trigger] j[i] != '<' && j[i] != '>' by {
            if i < a.len() {
                assert(j[i] == a[i]);
            } else if i > a.len() {
                assert(j[i] == b[i - a.len() - 1]);
            }
        }
    } else if ws.len() == 1 {
        assert(no_angle_brackets(ws[0]));
    }
}

/// A word on its own reads back as that one word.
proof fn lemma_words_single(b: Seq<char>, j: int)
    requires
        1 <= j <= b.len(),
        forall|i: int| 0 <= i < b.len() ==> !is_white_space(#[trigger] b[i]),
    ensures
        words(b.take(j)) == seq![b.take(j)],
    decreases j,
{
    let q = b.take(j);
    assert(q.last() == b[j - 1]);
    assert(!is_white_space(b[j - 1]));
    if j == 1 {
        assert(q.drop_last().len() == 0);
        assert(words(q.drop_last()) == Seq::<Seq<char>>::empty());
        assert(q == seq![b[0]]);
        assert(words(q) == Seq::<Seq<char>>::empty().push(seq![b[0]]));
    } else {
        lemma_words_single(b, j - 1);
        assert(q.drop_last() == b.take(j - 1));
        assert(q[q.len() - 2] == b[j - 2]);
        assert(!is_white_space(b[j - 2]));
        assert(b.take(j - 1).push(b[j - 1]) == q);
        let w = words(b.take(j - 1));
        assert(words(q) == w.update(w.len() - 1, w.last().push(b[j - 1])));
        assert(w.update(w.len() - 1, w.last().push(b[j - 1])) == seq![q]);
    }
}

/// Appending a space and a word adds that word.
proof fn lemma_words_append(p: Seq<char>, b: Seq<char>, j: int)
    requires
        1 <= j <= b.len(),
        forall|i: int| 0 <= i < b.len() ==> !is_white_space(#[trigger] b[i]),
    ensures
        words(p + seq![' '] + b.take(j)) == words(p).push(b.take(j)),
    decreases j,
{
    let q = p + seq![' '] + b.take(j);
    assert(q.last() == b[j - 1]);
    assert(!is_white_space(b[j - 1]));
    assert(is_white_space(' '));
    if j == 1 {
        assert(q.drop_last() == p + seq![' ']);
        assert((p + seq![' ']).drop_last() == p);
        assert((p + seq![' ']).last() == ' ');
        assert(words(p + seq![' ']) == words(p));
        assert(q[q.len() - 2] == ' ');
        assert(b.take(1) == seq![b[0]]);
        assert(words(q) == words(p).push(seq![b[j - 1]]));
    } else {
        lemma_words_append(p, b, j - 1);
        assert(q.drop_last() == p + seq![' '] + b.take(j - 1));
        assert(q[q.len() - 2] == b[j - 2]);
        assert(!is_white_space(b[j - 2]));
        assert(b.take(j - 1).push(b[j - 1]) == b.take(j));
        let w = words(p).push(b.take(j - 1));
        assert(words(q) == w.update(w.len() - 1, w.last().push(b[j - 1])));
        assert(w.update(w.len() - 1, w.last().push(b[j - 1])) == words(p).push(b.take(j)));
    }
}

proof fn lemma_words_join(ws: Seq<Seq<char>>)
    requires
        forall|k: int| 0 <= k < ws.len() ==> #[trigger] ws[k].len() > 0,
        forall|k: int, j: int|
            0 <= k < ws.len() && 0 <= j < ws[k].len() ==> !is_white_space(#[trigger] ws[k][j]),
    ensures
        words(join_words(ws)) == ws,
    decreases ws.len(),
{
    if ws.len() == 0 {
    } else if ws.len() == 1 {
        let b = ws[0];
        assert forall|i: int| 0 <= i < b.len() implies !is_white_space(#[trigger] b[i]) by {
            assert(ws[0][i] == b[i]);
        }
        lemma_words_single(b, b.len() as int);
        assert(b.take(b.len() as int) == b);
        assert(ws == seq![b]);
    } else {
        let init = ws.drop_last();
        let b = ws.last();
        assert(b == ws[ws.len() - 1]);
        assert forall|i: int| 0 <= i < b.len() implies !is_white_space(#[trigger] b[i]) by {
            assert(ws[ws.len() - 1][i] == b[i]);
        }
        assert forall|k: int, j: int|
            0 <= k < init.len() && 0 <= j < init[k].len() implies !is_white_space(
            #[trigger] init[k][j],
        ) by {
            assert(init[k] == ws[k]);
        }
        assert forall|k: int| 0 <= k < init.len() implies #[trigger] init[k].len() > 0 by {
            assert(init[k] == ws[k]);
        }
        lemma_words_join(init);
        lemma_words_append(join_words(init), b, b.len() as int);
        assert(b.take(b.len() as int) == b);
        assert(init.push(b) == ws);
    }
}

/// Law: the text of an HTML fragment has no tags left in it: it holds neither `<` nor `>`.
pub proof fn law_html_text_has_no_angle_brackets(html: Seq<char>)
    ensures
        no_angle_brackets(html_text(html)),
{
    lemma_strip_tags_no_angle(html);
    lemma_words_no_angle(strip_tags(html));
    lemma_join_no_angle(words(strip_tags(html)));
}

/// Law: extracting text is idempotent: the text of an extracted text is that text.
pub proof fn law_html_text_idempotent(html: Seq<char>)
    ensures
        html_text(html_text(html)) == html_text(html),
{
    let ws = words(strip_tags(html));
    let t = html_text(html);
    law_html_text_has_no_angle_brackets(html);
    lemma_strip_tags_identity(t);
    lemma_words_shape(strip_tags(html));
    lemma_words_join(ws);
}

/// Law: the text is normalized: it is the words of the input joined by single spaces,
/// each word non-empty and free of white space.
pub proof fn law_html_text_words(html: Seq<char>)
    ensures
        words(html_text(html)) == words(strip_tags(html)),
        forall|k: int| 0 <= k < words(html_text(html)).len() ==> #[trigger] words(html_text(html))[k].len() > 0,
{
    lemma_words_shape(strip_tags(html));
    lemma_words_join(words(strip_tags(html)));
}

} // verus!
