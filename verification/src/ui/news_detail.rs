//! Text of an article made fit for the detail view: markup stripped, lines
//! wrapped.

use crate::number::push_all;
use crate::text::{char_is_space, chars_of, is_space, occurs_at, occurs_at_exec, text_of};
use vstd::prelude::*;

verus! {

/// The pieces of a text between its line breaks, as far as they are
/// complete, and the piece that is still open.
pub open spec fn lines_fold(s: Seq<char>) -> (Seq<Seq<char>>, Seq<char>)
    decreases s.len(),
{
    if s.len() == 0 {
        (Seq::empty(), Seq::empty())
    } else {
        let (done, open) = lines_fold(s.drop_last());
        if s.last() == '\n' {
            (done.push(open), Seq::empty())
        } else {
            (done, open.push(s.last()))
        }
    }
}

/// The paragraphs of a text: the pieces between its line breaks. A text
/// without a line break is one paragraph.
pub open spec fn paragraphs(s: Seq<char>) -> Seq<Seq<char>> {
    lines_fold(s).0.push(lines_fold(s).1)
}

/// The words of a text as far as they are complete, and the word that is
/// still open.
pub open spec fn words_fold(s: Seq<char>) -> (Seq<Seq<char>>, Seq<char>)
    decreases s.len(),
{
    if s.len() == 0 {
        (Seq::empty(), Seq::empty())
    } else {
        let (done, open) = words_fold(s.drop_last());
        if is_space(s.last()) {
            if open.len() > 0 {
                (done.push(open), Seq::empty())
            } else {
                (done, open)
            }
        } else {
            (done, open.push(s.last()))
        }
    }
}

/// The words of a text: its longest runs of characters that are not white
/// space.
pub open spec fn words(s: Seq<char>) -> Seq<Seq<char>> {
    if words_fold(s).1.len() > 0 {
        words_fold(s).0.push(words_fold(s).1)
    } else {
        words_fold(s).0
    }
}

/// The lines that are full, and the line that is being filled, after one
/// more word: the word joins the line behind a space if the line then has
/// at most `width` characters, else it starts the next line.
pub open spec fn wrap_step(
    state: (Seq<Seq<char>>, Seq<char>),
    word: Seq<char>,
    width: nat,
) -> (Seq<Seq<char>>, Seq<char>) {
    let (lines, line) = state;
    if line.len() == 0 {
        (lines, word)
    } else if line.len() + 1 + word.len() <= width {
        (lines, line + seq![' '] + word)
    } else {
        (lines.push(line), word)
    }
}

/// The full lines and the open line after all of the words.
pub open spec fn wrap_fold(words: Seq<Seq<char>>, width: nat) -> (Seq<Seq<char>>, Seq<char>)
    decreases words.len(),
{
    if words.len() == 0 {
        (Seq::empty(), Seq::empty())
    } else {
        wrap_step(wrap_fold(words.drop_last(), width), words.last(), width)
    }
}

/// The lines of a paragraph: its words, as many on each line as fit
/// `width` characters with one space between them; an empty line for a
/// paragraph without words. A word longer than `width` has a line to
/// itself.
pub open spec fn wrapped_paragraph(paragraph: Seq<char>, width: nat) -> Seq<Seq<char>> {
    let (lines, line) = wrap_fold(words(paragraph), width);
    if words(paragraph).len() == 0 {
        seq![Seq::<char>::empty()]
    } else if line.len() > 0 {
        lines.push(line)
    } else {
        lines
    }
}

/// The lines of the paragraphs, one paragraph after the other.
pub open spec fn wrapped_paragraphs(paragraphs: Seq<Seq<char>>, width: nat) -> Seq<Seq<char>>
    decreases paragraphs.len(),
{
    if paragraphs.len() == 0 {
        Seq::empty()
    } else {
        wrapped_paragraphs(paragraphs.drop_last(), width) + wrapped_paragraph(
            paragraphs.last(),
            width,
        )
    }
}

/// A text as lines of at most `width` characters, broken between words; no
/// lines at all for a width of 0.
pub open spec fn word_wrapped(text: Seq<char>, width: nat) -> Seq<Seq<char>> {
    if width == 0 {
        Seq::empty()
    } else {
        wrapped_paragraphs(paragraphs(text), width)
    }
}

/// The paragraphs of a text.
pub fn split_paragraphs(text: &Vec<char>) -> (r: Vec<Vec<char>>)
    ensures
        r.deep_view() == paragraphs(text@),
{
    let mut done: Vec<Vec<char>> = Vec::new();
    let mut open: Vec<char> = Vec::new();
    let mut i: usize = 0;
    while i < text.len()
        invariant
            i <= text.len(),
            (done.deep_view(), open@) == lines_fold(text@.take(i as int)),
        decreases text.len() - i,
    {
        proof {
            assert(text@.take(i + 1).drop_last() =~= text@.take(i as int));
        }
        let c = text[i];
        if c == '\n' {
            let ghost before = done.deep_view();
            let ghost closed = open@;
            assert(open.deep_view() =~= open@);
            done.push(open);
            open = Vec::new();
            assert(done.deep_view() =~= before.push(closed));
            assert(open@ =~= Seq::<char>::empty());
        } else {
            open.push(c);
        }
        i += 1;
    }
    assert(text@.take(text.len() as int) =~= text@);
    let ghost before = done.deep_view();
    let ghost last = open@;
    assert(open.deep_view() =~= open@);
    done.push(open);
    assert(done.deep_view() =~= before.push(last));
    done
}

/// The words of a text.
pub fn split_words(text: &Vec<char>) -> (r: Vec<Vec<char>>)
    ensures
        r.deep_view() == words(text@),
{
    let mut done: Vec<Vec<char>> = Vec::new();
    let mut open: Vec<char> = Vec::new();
    let mut i: usize = 0;
    while i < text.len()
        invariant
            i <= text.len(),
            (done.deep_view(), open@) == words_fold(text@.take(i as int)),
        decreases text.len() - i,
    {
        proof {
            assert(text@.take(i + 1).drop_last() =~= text@.take(i as int));
        }
        let c = text[i];
        if char_is_space(c) {
            if open.len() > 0 {
                let ghost before = done.deep_view();
                let ghost closed = open@;
                assert(open.deep_view() =~= open@);
                done.push(open);
                open = Vec::new();
                assert(done.deep_view() =~= before.push(closed));
                assert(open@ =~= Seq::<char>::empty());
            }
        } else {
            open.push(c);
        }
        i += 1;
    }
    assert(text@.take(text.len() as int) =~= text@);
    if open.len() > 0 {
        let ghost before = done.deep_view();
        let ghost last = open@;
        assert(open.deep_view() =~= open@);
        done.push(open);
        assert(done.deep_view() =~= before.push(last));
    }
    done
}

/// Appends the lines of a paragraph to `lines`.
fn wrap_paragraph(lines: &mut Vec<String>, paragraph: &Vec<char>, width: usize)
    ensures
        final(lines).deep_view() == old(lines).deep_view() + wrapped_paragraph(
            paragraph@,
            width as nat,
        ),
{
    let all = split_words(paragraph);
    if all.len() == 0 {
        lines.push(String::new());
        assert(lines.deep_view() =~= old(lines).deep_view() + seq![Seq::<char>::empty()]);
        return ;
    }
    let ghost start = lines.deep_view();
    let mut line: Vec<char> = Vec::new();
    let mut i: usize = 0;
    while i < all.len()
        invariant
            i <= all.len(),
            all.deep_view() == words(paragraph@),
            lines.deep_view() == start + wrap_fold(all.deep_view().take(i as int), width as nat).0,
            line@ == wrap_fold(all.deep_view().take(i as int), width as nat).1,
        decreases all.len() - i,
    {
        proof {
            assert(all.deep_view().take(i + 1).drop_last() =~= all.deep_view().take(i as int));
            assert(all.deep_view().take(i + 1).last() == all@[i as int]@);
        }
        let word = &all[i];
        if line.len() == 0 {
            push_all(&mut line, word);
            assert(line@ =~= word@);
        } else if word.len() <= width && line.len() < width && line.len() + 1 <= width
            - word.len() {
            line.push(' ');
            push_all(&mut line, word);
        } else {
            let ghost before = lines.deep_view();
            let ghost full = line@;
            lines.push(text_of(&line));
            assert(lines.deep_view() =~= before.push(full));
            line = Vec::new();
            push_all(&mut line, word);
            assert(line@ =~= word@);
            assert(lines.deep_view() =~= start + wrap_fold(
                all.deep_view().take(i as int),
                width as nat,
            ).0.push(full));
        }
        i += 1;
    }
    assert(all.deep_view().take(all.len() as int) =~= all.deep_view());
    if line.len() > 0 {
        let ghost before = lines.deep_view();
        let ghost last = line@;
        lines.push(text_of(&line));
        assert(lines.deep_view() =~= before.push(last));
        assert(lines.deep_view() =~= start + wrapped_paragraph(paragraph@, width as nat));
    } else {
        assert(lines.deep_view() =~= start + wrapped_paragraph(paragraph@, width as nat));
    }
}

/// A text as lines of at most `width` characters, broken between words.
/// Each line break of the text starts a new paragraph; a paragraph without
/// words gives an empty line; a word longer than `width` has a line to
/// itself. With a width of 0 there are no lines.
pub fn word_wrap(text: &str, width: usize) -> (r: Vec<String>)
    ensures
        r.deep_view() == word_wrapped(text@, width as nat),
{
    let mut lines: Vec<String> = Vec::new();
    if width == 0 {
        assert(lines.deep_view() =~= Seq::<Seq<char>>::empty());
        return lines;
    }
    let chars = chars_of(text);
    let all = split_paragraphs(&chars);
    assert(lines.deep_view() =~= Seq::<Seq<char>>::empty());
    let mut i: usize = 0;
    while i < all.len()
        invariant
            i <= all.len(),
            all.deep_view() == paragraphs(text@),
            lines.deep_view() == wrapped_paragraphs(all.deep_view().take(i as int), width as nat),
        decreases all.len() - i,
    {
        proof {
            assert(all.deep_view().take(i + 1).drop_last() =~= all.deep_view().take(i as int));
            assert(all.deep_view().take(i + 1).last() == all@[i as int]@);
        }
        wrap_paragraph(&mut lines, &all[i], width);
        i += 1;
    }
    assert(all.deep_view().take(all.len() as int) =~= all.deep_view());
    lines
}

/// The character that the entity at index `i` of `s` stands for, and the
/// length of the entity, for the six entities that are decoded.
pub open spec fn entity_at(s: Seq<char>, i: int) -> Option<(char, nat)> {
    if occurs_at(s, "&amp;"@, i) {
        Some(('&', 5nat))
    } else if occurs_at(s, "&lt;"@, i) {
        Some(('<', 4nat))
    } else if occurs_at(s, "&gt;"@, i) {
        Some(('>', 4nat))
    } else if occurs_at(s, "&nbsp;"@, i) {
        Some((' ', 6nat))
    } else if occurs_at(s, "&quot;"@, i) {
        Some(('"', 6nat))
    } else if occurs_at(s, "&#39;"@, i) {
        Some(('\'', 5nat))
    } else {
        None
    }
}

/// How far an entity of `n` characters at index `i` reaches: `n`
/// characters, as long as the text has them.
pub open spec fn entity_step(s: Seq<char>, i: int, n: nat) -> int {
    if 1 <= n <= s.len() - i {
        n as int
    } else {
        1
    }
}

/// The text of `s` from index `i` on without its tags and with its entities
/// decoded; `in_tag` says whether index `i` lies within a tag. A tag runs
/// from `<` to the next `>`; a `>` outside a tag is dropped too; an `&`
/// that starts none of the six entities stands for itself.
pub open spec fn untagged_from(s: Seq<char>, i: int, in_tag: bool) -> Seq<char>
    decreases s.len() - i,
{
    if i < 0 || i >= s.len() {
        Seq::empty()
    } else if s[i] == '<' {
        untagged_from(s, i + 1, true)
    } else if s[i] == '>' {
        untagged_from(s, i + 1, false)
    } else if in_tag {
        untagged_from(s, i + 1, true)
    } else if s[i] == '&' {
        match entity_at(s, i) {
            Some((c, n)) => seq![c] + untagged_from(s, i + entity_step(s, i, n), false),
            None => seq!['&'] + untagged_from(s, i + 1, false),
        }
    } else {
        seq![s[i]] + untagged_from(s, i + 1, false)
    }
}

/// The words with one space between each two.
pub open spec fn spaced(words: Seq<Seq<char>>) -> Seq<char>
    decreases words.len(),
{
    if words.len() == 0 {
        Seq::empty()
    } else if words.len() == 1 {
        words[0]
    } else {
        spaced(words.drop_last()) + seq![' '] + words.last()
    }
}

/// The readable text of a piece of HTML: tags gone, entities decoded, and
/// every run of white space turned into one space, none at the ends.
pub open spec fn tag_free(html: Seq<char>) -> Seq<char> {
    spaced(words(untagged_from(html, 0, false)))
}

/// The character that the entity at index `i` stands for, and its length.
fn read_entity(s: &Vec<char>, i: usize) -> (r: Option<(char, usize)>)
    requires
        i < s.len(),
    ensures
        r.is_some() == entity_at(s@, i as int).is_some(),
        r.is_some() ==> r.unwrap().0 == entity_at(s@, i as int).unwrap().0 && r.unwrap().1
            == entity_at(s@, i as int).unwrap().1 && i + r.unwrap().1 <= s.len() && r.unwrap().1
            >= 1,
{
    proof {
        reveal_strlit("&amp;");
        reveal_strlit("&lt;");
        reveal_strlit("&gt;");
        reveal_strlit("&nbsp;");
        reveal_strlit("&quot;");
        reveal_strlit("&#39;");
    }
    if occurs_at_exec(s, &chars_of("&amp;"), i) {
        Some(('&', 5))
    } else if occurs_at_exec(s, &chars_of("&lt;"), i) {
        Some(('<', 4))
    } else if occurs_at_exec(s, &chars_of("&gt;"), i) {
        Some(('>', 4))
    } else if occurs_at_exec(s, &chars_of("&nbsp;"), i) {
        Some((' ', 6))
    } else if occurs_at_exec(s, &chars_of("&quot;"), i) {
        Some(('"', 6))
    } else if occurs_at_exec(s, &chars_of("&#39;"), i) {
        Some(('\'', 5))
    } else {
        None
    }
}

/// The text of `s` without its tags and with its entities decoded.
pub fn untag(s: &Vec<char>) -> (r: Vec<char>)
    ensures
        r@ == untagged_from(s@, 0, false),
{
    let mut out: Vec<char> = Vec::new();
    let mut in_tag = false;
    let mut i: usize = 0;
    assert(out@ + untagged_from(s@, 0, false) =~= untagged_from(s@, 0, false));
    while i < s.len()
        invariant
            i <= s.len(),
            untagged_from(s@, 0, false) == out@ + untagged_from(s@, i as int, in_tag),
        decreases s.len() - i,
    {
        let c = s[i];
        let ghost before = out@;
        if c == '<' {
            in_tag = true;
            i += 1;
        } else if c == '>' {
            in_tag = false;
            i += 1;
        } else if in_tag {
            i += 1;
        } else if c == '&' {
            match read_entity(s, i) {
                Some((decoded, n)) => {
                    out.push(decoded);
                    assert(entity_step(s@, i as int, n as nat) == n);
                    assert(before + (seq![decoded] + untagged_from(s@, i + n, false)) =~= out@
                        + untagged_from(s@, i + n, false));
                    i += n;
                },
                None => {
                    out.push('&');
                    assert(before + (seq!['&'] + untagged_from(s@, i + 1, false)) =~= out@
                        + untagged_from(s@, i + 1, false));
                    i += 1;
                },
            }
        } else {
            out.push(c);
            assert(before + (seq![c] + untagged_from(s@, i + 1, false)) =~= out@ + untagged_from(
                s@,
                i + 1,
                false,
            ));
            i += 1;
        }
    }
    assert(out@ + untagged_from(s@, i as int, in_tag) =~= out@);
    out
}

/// The words with one space between each two.
pub fn join_words(words: &Vec<Vec<char>>) -> (r: Vec<char>)
    ensures
        r@ == spaced(words.deep_view()),
{
    let mut out: Vec<char> = Vec::new();
    let mut i: usize = 0;
    while i < words.len()
        invariant
            i <= words.len(),
            out@ == spaced(words.deep_view().take(i as int)),
        decreases words.len() - i,
    {
        proof {
            assert(words.deep_view().take(i + 1).drop_last() =~= words.deep_view().take(i as int));
            assert(words.deep_view().take(i + 1).last() == words@[i as int]@);
        }
        if i > 0 {
            out.push(' ');
        }
        push_all(&mut out, &words[i]);
        proof {
            if i == 0 {
                assert(out@ =~= words@[0]@);
                assert(words.deep_view().take(1)[0] == words@[0]@);
            }
        }
        i += 1;
    }
    assert(words.deep_view().take(words.len() as int) =~= words.deep_view());
    out
}

/// The readable text of a piece of HTML: tags (with all that stands in
/// them) gone, the entities for `&`, `<`, `>`, the non-breaking space, `"`
/// and `'` decoded, and every run of white space turned into one space.
pub fn strip_tag_content(html: &str) -> (r: String)
    ensures
        r@ == tag_free(html@),
{
    let chars = chars_of(html);
    let text = untag(&chars);
    let all = split_words(&text);
    let joined = join_words(&all);
    text_of(&joined)
}

} // verus!
