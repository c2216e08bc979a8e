//! Wrapping help texts to a display width, between complete items where possible.
use vstd::prelude::*;
use vstd::string::*;

use crate::display::join_lines;
use crate::text::{char_is_whitespace, is_whitespace, owned, pop_char, push_char, push_str};

verus! {

/// The display width that the terminal library gives a text.
pub uninterp spec fn line_width(s: Seq<char>) -> nat;

/// Calls `ratatui::text::Line::from(s).width()`: the summed Unicode display width of the
/// lines of `s`. The result is named by `line_width`; the one fact stated beside the name is
/// that an empty text, which has no lines, has no width.
#[verifier::external_body]
fn display_width(s: &str) -> (w: usize)
    ensures
        w as nat == line_width(s@),
        s@.len() == 0 ==> w == 0,
{
    ratatui::text::Line::from(s).width()
}

/// The list that holds `piece` unless it is empty.
pub open spec fn kept(piece: Seq<char>) -> Seq<Seq<char>> {
    if piece.len() == 0 {
        seq![]
    } else {
        seq![piece]
    }
}

/// A line without the `\r` that ends it, if any.
pub open spec fn without_cr(line: Seq<char>) -> Seq<char> {
    if line.len() > 0 && line.last() == '\r' {
        line.drop_last()
    } else {
        line
    }
}

/// The lines of `s`, the first prefixed by `cur`, as `str::lines` gives them: each `\n` ends
/// a line and goes with a `\r` just before it; a last piece with no `\n` is kept whole unless
/// it is empty.
pub open spec fn lines_after(cur: Seq<char>, s: Seq<char>) -> Seq<Seq<char>>
    decreases s.len(),
{
    if s.len() == 0 {
        kept(cur)
    } else if s[0] == '\n' {
        seq![without_cr(cur)] + lines_after(seq![], s.drop_first())
    } else {
        lines_after(cur.push(s[0]), s.drop_first())
    }
}

/// The lines of a text.
pub open spec fn text_lines(s: Seq<char>) -> Seq<Seq<char>> {
    lines_after(seq![], s)
}

/// The nonempty pieces of `s` between occurrences of two spaces, found from the left, the
/// first prefixed by `cur`: the help items of one line.
pub open spec fn items_after(cur: Seq<char>, s: Seq<char>) -> Seq<Seq<char>>
    decreases s.len(),
{
    if s.len() == 0 {
        kept(cur)
    } else if s.len() >= 2 && s[0] == ' ' && s[1] == ' ' {
        kept(cur) + items_after(seq![], s.skip(2))
    } else {
        items_after(cur.push(s[0]), s.drop_first())
    }
}

/// The help items of one line.
pub open spec fn line_items(s: Seq<char>) -> Seq<Seq<char>> {
    items_after(seq![], s)
}

/// The nonempty pieces of `s` between white-space characters, the first prefixed by `cur`,
/// as `str::split_whitespace` gives them.
pub open spec fn words_after(cur: Seq<char>, s: Seq<char>) -> Seq<Seq<char>>
    decreases s.len(),
{
    if s.len() == 0 {
        kept(cur)
    } else if char_is_whitespace(s[0]) {
        kept(cur) + words_after(seq![], s.drop_first())
    } else {
        words_after(cur.push(s[0]), s.drop_first())
    }
}

/// The white-space separated words of a text.
pub open spec fn text_words(s: Seq<char>) -> Seq<Seq<char>> {
    words_after(seq![], s)
}

/// Appends `x` to a list of texts.
fn push_text(v: &mut Vec<String>, x: String)
    ensures
        final(v).deep_view() == old(v).deep_view().push(x@),
{
    let ghost before = v.deep_view();
    v.push(x);
    assert(v.deep_view() =~= before.push(x@));
}

/// Appends `x` unless it is empty.
fn push_kept(v: &mut Vec<String>, x: String)
    ensures
        final(v).deep_view() == old(v).deep_view() + kept(x@),
{
    if x.as_str().unicode_len() > 0 {
        push_text(v, x);
        assert(final(v).deep_view() =~= old(v).deep_view() + kept(x@));
    } else {
        assert(old(v).deep_view() + kept(x@) =~= old(v).deep_view());
    }
}

/// Removes a `\r` that ends `line`.
fn drop_cr(line: &mut String)
    ensures
        final(line)@ == without_cr(old(line)@),
{
    match pop_char(line) {
        None => {},
        Some(c) => {
            if c != '\r' {
                push_char(line, c);
                assert(final(line)@ =~= old(line)@);
            }
        },
    }
}

/// The lines of a text, as `str::lines` gives them.
pub fn lines_of(s: &str) -> (r: Vec<String>)
    ensures
        r.deep_view() == text_lines(s@),
{
    let n = s.unicode_len();
    let mut r: Vec<String> = Vec::new();
    let mut cur = String::new();
    let mut i: usize = 0;
    assert(s@.skip(0) =~= s@);
    assert(r.deep_view() =~= Seq::<Seq<char>>::empty());
    while i < n
        invariant
            n == s@.len(),
            i <= n,
            r.deep_view() + lines_after(cur@, s@.skip(i as int)) == text_lines(s@),
        decreases n - i,
    {
        let c = s.get_char(i);
        let ghost rest = s@.skip(i as int);
        assert(rest.drop_first() =~= s@.skip(i + 1));
        assert(rest[0] == c);
        let ghost before = r.deep_view();
        let ghost cur_before = cur@;
        if c == '\n' {
            let mut line = cur;
            drop_cr(&mut line);
            push_text(&mut r, line);
            cur = String::new();
            assert(lines_after(cur_before, rest) == seq![without_cr(cur_before)] + lines_after(seq![], rest.drop_first()));
            assert(before + lines_after(cur_before, rest) =~= r.deep_view() + lines_after(cur@, s@.skip(i + 1)));
        } else {
            push_char(&mut cur, c);
        }
        i = i + 1;
    }
    push_kept(&mut r, cur);
    r
}

/// The help items of one line: its nonempty pieces between occurrences of two spaces.
pub fn items_of(s: &str) -> (r: Vec<String>)
    ensures
        r.deep_view() == line_items(s@),
{
    let n = s.unicode_len();
    let mut r: Vec<String> = Vec::new();
    let mut cur = String::new();
    let mut i: usize = 0;
    assert(s@.skip(0) =~= s@);
    assert(r.deep_view() =~= Seq::<Seq<char>>::empty());
    while i < n
        invariant
            n == s@.len(),
            i <= n,
            r.deep_view() + items_after(cur@, s@.skip(i as int)) == line_items(s@),
        decreases n - i,
    {
        let c = s.get_char(i);
        let ghost rest = s@.skip(i as int);
        let ghost before = r.deep_view();
        let ghost cur_before = cur@;
        assert(rest[0] == c);
        if c == ' ' && i + 1 < n && s.get_char(i + 1) == ' ' {
            assert(rest[1] == ' ');
            assert(rest.skip(2) =~= s@.skip(i + 2));
            push_kept(&mut r, cur);
            cur = String::new();
            assert(before + items_after(cur_before, rest) =~= r.deep_view() + items_after(cur@, s@.skip(i + 2)));
            i = i + 2;
        } else {
            assert(rest.drop_first() =~= s@.skip(i + 1));
            push_char(&mut cur, c);
            i = i + 1;
        }
    }
    push_kept(&mut r, cur);
    r
}

/// The white-space separated words of a text, as `str::split_whitespace` gives them.
pub fn words_of(s: &str) -> (r: Vec<String>)
    ensures
        r.deep_view() == text_words(s@),
{
    let n = s.unicode_len();
    let mut r: Vec<String> = Vec::new();
    let mut cur = String::new();
    let mut i: usize = 0;
    assert(s@.skip(0) =~= s@);
    assert(r.deep_view() =~= Seq::<Seq<char>>::empty());
    while i < n
        invariant
            n == s@.len(),
            i <= n,
            r.deep_view() + words_after(cur@, s@.skip(i as int)) == text_words(s@),
        decreases n - i,
    {
        let c = s.get_char(i);
        let ghost rest = s@.skip(i as int);
        let ghost before = r.deep_view();
        let ghost cur_before = cur@;
        assert(rest[0] == c);
        assert(rest.drop_first() =~= s@.skip(i + 1));
        if is_whitespace(c) {
            push_kept(&mut r, cur);
            cur = String::new();
            assert(before + words_after(cur_before, rest) =~= r.deep_view() + words_after(cur@, s@.skip(i + 1)));
        } else {
            push_char(&mut cur, c);
        }
        i = i + 1;
    }
    push_kept(&mut r, cur);
    r
}

/// Lines joined by newlines.
pub fn joined_lines(lines: &Vec<String>) -> (r: String)
    ensures
        r@ == join_lines(lines.deep_view()),
{
    let mut r = String::new();
    let mut i: usize = 0;
    while i < lines.len()
        invariant
            i <= lines.len(),
            r@ == join_lines(lines.deep_view().take(i as int)),
        decreases lines.len() - i,
    {
        let ghost taken = lines.deep_view().take(i + 1);
        assert(taken.drop_last() =~= lines.deep_view().take(i as int));
        assert(taken.last() == lines[i as int]@);
        if i > 0 {
            push_char(&mut r, '\n');
        }
        push_str(&mut r, lines[i].as_str());
        i = i + 1;
    }
    assert(lines.deep_view().take(lines.len() as int) =~= lines.deep_view());
    r
}

/// The first `j` from `from` on at which the first `j + 1` characters of `rest` are wider
/// than `width`, or the length of `rest` if there is none.
pub open spec fn first_too_wide(width: nat, rest: Seq<char>, from: int) -> int
    decreases rest.len() - from,
{
    if from < 0 || from >= rest.len() {
        rest.len() as int
    } else if line_width(rest.take(from + 1)) > width {
        from
    } else {
        first_too_wide(width, rest, from + 1)
    }
}

/// The search for a prefix that is too wide ends within the text.
pub proof fn lemma_first_too_wide_bounds(width: nat, rest: Seq<char>, from: int)
    requires
        0 <= from <= rest.len(),
    ensures
        from <= first_too_wide(width, rest, from) <= rest.len(),
    decreases rest.len() - from,
{
    if from < rest.len() && line_width(rest.take(from + 1)) <= width {
        lemma_first_too_wide_bounds(width, rest, from + 1);
    }
}

/// How many characters of a word too wide for a line go on the next line: those before the
/// first prefix that is too wide, but at least one.
pub open spec fn cut_length(width: nat, rest: Seq<char>) -> int {
    let j = first_too_wide(width, rest, 0);
    if j == 0 {
        1
    } else {
        j
    }
}

/// The lines that a word too wide for a line is cut into, after `lines`, and the last part of
/// it, which fits.
pub open spec fn cut_word(width: nat, lines: Seq<Seq<char>>, rest: Seq<char>) -> (Seq<Seq<char>>, Seq<char>)
    decreases rest.len(),
{
    if rest.len() == 0 || line_width(rest) <= width {
        (lines, rest)
    } else {
        let k = cut_length(width, rest);
        proof {
            lemma_first_too_wide_bounds(width, rest, 0);
        }
        cut_word(width, lines.push(rest.take(k)), rest.skip(k))
    }
}

/// A wrap after one more word: the word joins the current line after a space if the line
/// stays narrow enough; otherwise the current line, if any, is finished and the word starts
/// the next one, cut where it is too wide.
pub open spec fn word_step(width: nat, state: (Seq<Seq<char>>, Seq<char>), word: Seq<char>) -> (
    Seq<Seq<char>>,
    Seq<char>,
) {
    let candidate = if state.1.len() == 0 {
        word
    } else {
        state.1 + seq![' '] + word
    };
    if line_width(candidate) <= width {
        (state.0, candidate)
    } else {
        cut_word(
            width,
            if state.1.len() == 0 {
                state.0
            } else {
                state.0.push(state.1)
            },
            word,
        )
    }
}

/// A wrap after each of `words` in turn.
pub open spec fn words_wrapped(width: nat, state: (Seq<Seq<char>>, Seq<char>), words: Seq<Seq<char>>) -> (
    Seq<Seq<char>>,
    Seq<char>,
)
    decreases words.len(),
{
    if words.len() == 0 {
        state
    } else {
        word_step(width, words_wrapped(width, state, words.drop_last()), words.last())
    }
}

/// A wrap after one more help item: the item joins the current line after two spaces if the
/// line stays narrow enough; otherwise the current line, if any, is finished and the item is
/// wrapped word by word.
pub open spec fn item_step(width: nat, state: (Seq<Seq<char>>, Seq<char>), item: Seq<char>) -> (
    Seq<Seq<char>>,
    Seq<char>,
) {
    let candidate = if state.1.len() == 0 {
        item
    } else {
        state.1 + seq![' ', ' '] + item
    };
    if line_width(candidate) <= width {
        (state.0, candidate)
    } else {
        words_wrapped(
            width,
            (
                if state.1.len() == 0 {
                    state.0
                } else {
                    state.0.push(state.1)
                },
                seq![],
            ),
            text_words(item),
        )
    }
}

/// A wrap after each of `items` in turn.
pub open spec fn items_wrapped(width: nat, state: (Seq<Seq<char>>, Seq<char>), items: Seq<Seq<char>>) -> (
    Seq<Seq<char>>,
    Seq<char>,
)
    decreases items.len(),
{
    if items.len() == 0 {
        state
    } else {
        item_step(width, items_wrapped(width, state, items.drop_last()), items.last())
    }
}

/// The wrapped lines after one more line of the source text, which starts a line of its own.
pub open spec fn line_wrapped(width: nat, lines: Seq<Seq<char>>, line: Seq<char>) -> Seq<Seq<char>> {
    let state = items_wrapped(width, (lines, seq![]), line_items(line));
    state.0.push(state.1)
}

/// The wrapped lines of each of `source` in turn.
pub open spec fn source_wrapped(width: nat, source: Seq<Seq<char>>) -> Seq<Seq<char>>
    decreases source.len(),
{
    if source.len() == 0 {
        seq![]
    } else {
        line_wrapped(width, source_wrapped(width, source.drop_last()), source.last())
    }
}

/// A help text wrapped to `width` columns; nothing at all for no columns.
pub open spec fn wrapped_help(text: Seq<char>, width: nat) -> Seq<char> {
    if width == 0 {
        seq![]
    } else {
        join_lines(source_wrapped(width, text_lines(text)))
    }
}

/// How many characters of `rest` go on one line when it is too wide.
fn cut_point(rest: &str, width: u16) -> (k: usize)
    requires
        rest@.len() > 0,
    ensures
        k == cut_length(width as nat, rest@),
        1 <= k <= rest@.len(),
{
    proof {
        lemma_first_too_wide_bounds(width as nat, rest@, 0);
    }
    let m = rest.unicode_len();
    let mut j: usize = 0;
    while j < m
        invariant
            m == rest@.len(),
            j <= m,
            first_too_wide(width as nat, rest@, 0) == first_too_wide(width as nat, rest@, j as int),
        decreases m - j,
    {
        let prefix = rest.substring_char(0, j + 1);
        assert(prefix@ =~= rest@.take(j + 1));
        if display_width(prefix) > width as usize {
            return if j == 0 {
                1
            } else {
                j
            };
        }
        j = j + 1;
    }
    m
}

/// Cuts a word too wide for a line into lines, and leaves its last part as the current line.
fn push_word(word: &str, width: u16, current: &mut String, lines: &mut Vec<String>)
    requires
        old(current)@.len() == 0,
    ensures
        (final(lines).deep_view(), final(current)@) == cut_word(width as nat, old(lines).deep_view(), word@),
{
    let mut rest: &str = word;
    while rest.unicode_len() > 0 && display_width(rest) > width as usize
        invariant
            cut_word(width as nat, lines.deep_view(), rest@) == cut_word(width as nat, old(lines).deep_view(), word@),
            current@.len() == 0,
        decreases rest@.len(),
    {
        let k = cut_point(rest, width);
        let n = rest.unicode_len();
        let piece = owned(rest.substring_char(0, k));
        let next = rest.substring_char(k, n);
        assert(piece@ =~= rest@.take(k as int));
        assert(next@ =~= rest@.skip(k as int));
        push_text(lines, piece);
        rest = next;
    }
    push_str(current, rest);
    assert(current@ =~= rest@);
}

/// Wraps the words of a help item that does not fit after the current line.
fn push_item(item: &str, width: u16, current: &mut String, lines: &mut Vec<String>)
    ensures
        (final(lines).deep_view(), final(current)@) == words_wrapped(
            width as nat,
            (old(lines).deep_view(), old(current)@),
            text_words(item@),
        ),
{
    let words = words_of(item);
    let mut i: usize = 0;
    assert(words.deep_view().take(0) =~= Seq::<Seq<char>>::empty());
    while i < words.len()
        invariant
            i <= words.len(),
            words.deep_view() == text_words(item@),
            (lines.deep_view(), current@) == words_wrapped(
                width as nat,
                (old(lines).deep_view(), old(current)@),
                words.deep_view().take(i as int),
            ),
        decreases words.len() - i,
    {
        let word = words[i].as_str();
        let ghost state = (lines.deep_view(), current@);
        let ghost taken = words.deep_view().take(i + 1);
        assert(taken.drop_last() =~= words.deep_view().take(i as int));
        assert(taken.last() == word@);
        let empty = current.as_str().unicode_len() == 0;
        let mut candidate = String::new();
        if !empty {
            push_str(&mut candidate, current.as_str());
            push_char(&mut candidate, ' ');
        }
        push_str(&mut candidate, word);
        assert(candidate@ =~= (if state.1.len() == 0 { word@ } else { state.1 + seq![' '] + word@ }));
        if display_width(candidate.as_str()) <= width as usize {
            *current = candidate;
        } else {
            if !empty {
                let mut finished = String::new();
                std::mem::swap(&mut finished, current);
                push_text(lines, finished);
            } else {
                *current = String::new();
            }
            push_word(word, width, current, lines);
        }
        i = i + 1;
    }
    assert(words.deep_view().take(words.len() as int) =~= words.deep_view());
}

/// A help text wrapped to `width` columns: each line of it is filled with whole help items
/// while they fit; an item that does not fit on a line of its own is wrapped word by word,
/// and a word that does not fit is cut.
pub fn wrap_help(text: &str, width: u16) -> (r: String)
    ensures
        r@ == wrapped_help(text@, width as nat),
{
    if width == 0 {
        return String::new();
    }
    let source = lines_of(text);
    let mut lines: Vec<String> = Vec::new();
    let mut l: usize = 0;
    assert(source.deep_view().take(0) =~= Seq::<Seq<char>>::empty());
    assert(lines.deep_view() =~= Seq::<Seq<char>>::empty());
    while l < source.len()
        invariant
            l <= source.len(),
            width > 0,
            source.deep_view() == text_lines(text@),
            lines.deep_view() == source_wrapped(width as nat, source.deep_view().take(l as int)),
        decreases source.len() - l,
    {
        let line = source[l].as_str();
        let ghost start = lines.deep_view();
        let ghost taken = source.deep_view().take(l + 1);
        assert(taken.drop_last() =~= source.deep_view().take(l as int));
        assert(taken.last() == line@);
        let items = items_of(line);
        let mut current = String::new();
        let mut t: usize = 0;
        assert(items.deep_view().take(0) =~= Seq::<Seq<char>>::empty());
        while t < items.len()
            invariant
                t <= items.len(),
                items.deep_view() == line_items(line@),
                (lines.deep_view(), current@) == items_wrapped(
                    width as nat,
                    (start, seq![]),
                    items.deep_view().take(t as int),
                ),
            decreases items.len() - t,
        {
            let item = items[t].as_str();
            let ghost state = (lines.deep_view(), current@);
            let ghost taken_items = items.deep_view().take(t + 1);
            assert(taken_items.drop_last() =~= items.deep_view().take(t as int));
            assert(taken_items.last() == item@);
            let empty = current.as_str().unicode_len() == 0;
            let mut candidate = String::new();
            if !empty {
                push_str(&mut candidate, current.as_str());
                push_str(&mut candidate, "  ");
            }
            push_str(&mut candidate, item);
            proof {
                reveal_strlit("  ");
            }
            assert(candidate@ =~= (if state.1.len() == 0 { item@ } else { state.1 + seq![' ', ' '] + item@ }));
            if display_width(candidate.as_str()) <= width as usize {
                current = candidate;
            } else {
                if !empty {
                    let mut finished = String::new();
                    std::mem::swap(&mut finished, &mut current);
                    push_text(&mut lines, finished);
                } else {
                    current = String::new();
                }
                assert(current@ =~= Seq::<char>::empty());
                push_item(item, width, &mut current, &mut lines);
            }
            t = t + 1;
        }
        assert(items.deep_view().take(items.len() as int) =~= items.deep_view());
        push_text(&mut lines, current);
        l = l + 1;
    }
    assert(source.deep_view().take(source.len() as int) =~= source.deep_view());
    joined_lines(&lines)
}

/// The number of lines of a text, capped at `u16::MAX`.
pub open spec fn text_height_of(text: Seq<char>) -> nat {
    if text_lines(text).len() > u16::MAX {
        u16::MAX as nat
    } else {
        text_lines(text).len()
    }
}

/// The number of lines of a text, capped at `u16::MAX`.
pub fn text_height(text: &str) -> (h: u16)
    ensures
        h as nat == text_height_of(text@),
{
    let n = lines_of(text).len();
    if n > u16::MAX as usize {
        u16::MAX
    } else {
        n as u16
    }
}

/// The help items of each of `lines` in turn.
pub open spec fn help_items(lines: Seq<Seq<char>>) -> Seq<Seq<char>>
    decreases lines.len(),
{
    if lines.len() == 0 {
        seq![]
    } else {
        help_items(lines.drop_last()) + line_items(lines.last())
    }
}

/// The display width of a text, capped at `u16::MAX`.
pub open spec fn capped_width(s: Seq<char>) -> nat {
    if line_width(s) > u16::MAX {
        u16::MAX as nat
    } else {
        line_width(s)
    }
}

/// The largest capped width among `items`, or zero for none.
pub open spec fn widest(items: Seq<Seq<char>>) -> nat
    decreases items.len(),
{
    if items.len() == 0 {
        0
    } else if capped_width(items.last()) > widest(items.drop_last()) {
        capped_width(items.last())
    } else {
        widest(items.drop_last())
    }
}

/// The width of the widest help item of a text: no narrower footer can show every item whole.
pub open spec fn help_item_width_of(text: Seq<char>) -> nat {
    widest(help_items(text_lines(text)))
}

/// The width of the widest help item of a text.
pub fn help_item_width(text: &str) -> (w: u16)
    ensures
        w as nat == help_item_width_of(text@),
{
    let source = lines_of(text);
    let mut all: Vec<String> = Vec::new();
    let mut l: usize = 0;
    assert(source.deep_view().take(0) =~= Seq::<Seq<char>>::empty());
    assert(all.deep_view() =~= Seq::<Seq<char>>::empty());
    while l < source.len()
        invariant
            l <= source.len(),
            all.deep_view() == help_items(source.deep_view().take(l as int)),
        decreases source.len() - l,
    {
        let items = items_of(source[l].as_str());
        let ghost start = all.deep_view();
        let ghost taken = source.deep_view().take(l + 1);
        assert(taken.drop_last() =~= source.deep_view().take(l as int));
        let mut t: usize = 0;
        assert(start + items.deep_view().take(0) =~= start);
        while t < items.len()
            invariant
                t <= items.len(),
                all.deep_view() == start + items.deep_view().take(t as int),
            decreases items.len() - t,
        {
            let item = items[t].clone();
            push_text(&mut all, item);
            assert(start + items.deep_view().take(t + 1) =~= all.deep_view());
            t = t + 1;
        }
        assert(items.deep_view().take(items.len() as int) =~= items.deep_view());
        l = l + 1;
    }
    assert(source.deep_view().take(source.len() as int) =~= source.deep_view());
    let mut widest_so_far: u16 = 0;
    let mut i: usize = 0;
    assert(all.deep_view().take(0) =~= Seq::<Seq<char>>::empty());
    while i < all.len()
        invariant
            i <= all.len(),
            all.deep_view() == help_items(text_lines(text@)),
            widest_so_far as nat == widest(all.deep_view().take(i as int)),
        decreases all.len() - i,
    {
        let ghost taken = all.deep_view().take(i + 1);
        assert(taken.drop_last() =~= all.deep_view().take(i as int));
        assert(taken.last() == all[i as int]@);
        let w = display_width(all[i].as_str());
        let capped: u16 = if w > u16::MAX as usize {
            u16::MAX
        } else {
            w as u16
        };
        if capped > widest_so_far {
            widest_so_far = capped;
        }
        i = i + 1;
    }
    assert(all.deep_view().take(all.len() as int) =~= all.deep_view());
    widest_so_far
}

/// How many lines a help text takes wrapped to `width` columns, or `None` when some help item
/// does not fit whole in that width.
pub open spec fn viable_help_height_of(text: Seq<char>, width: nat) -> Option<nat> {
    if width == 0 || help_item_width_of(text) > width {
        None
    } else {
        Some(text_height_of(wrapped_help(text, width)))
    }
}

/// How many lines a help text takes wrapped to `width` columns, if every help item fits.
pub fn viable_help_height(text: &str, width: u16) -> (h: Option<u16>)
    ensures
        h matches Some(x) ==> viable_help_height_of(text@, width as nat) == Some(x as nat),
        h is None <==> viable_help_height_of(text@, width as nat) is None,
{
    if width == 0 || help_item_width(text) > width {
        return None;
    }
    let wrapped = wrap_help(text, width);
    Some(text_height(wrapped.as_str()))
}

/// Whether a wrapped line fits `width` columns; a line of at most one character is allowed
/// to stand even where it does not.
pub open spec fn fits(width: nat, line: Seq<char>) -> bool {
    line.len() <= 1 || line_width(line) <= width
}

/// Whether every line of a wrap fits `width` columns.
pub open spec fn all_fit(width: nat, lines: Seq<Seq<char>>) -> bool {
    forall|i: int| 0 <= i < lines.len() ==> fits(width, #[trigger] lines[i])
}

/// Whether the finished lines and the current line of a wrap fit `width` columns.
pub open spec fn state_fits(width: nat, state: (Seq<Seq<char>>, Seq<char>)) -> bool {
    all_fit(width, state.0) && fits(width, state.1)
}

/// Every prefix shorter than the first one that is too wide fits.
proof fn lemma_before_first_too_wide(width: nat, rest: Seq<char>, from: int, i: int)
    requires
        0 <= from <= i < first_too_wide(width, rest, from),
    ensures
        line_width(rest.take(i + 1)) <= width,
    decreases i - from,
{
    if from < i {
        lemma_before_first_too_wide(width, rest, from + 1, i);
    }
}

/// The piece cut from a word too wide for a line fits, or is a single character.
proof fn lemma_cut_piece_fits(width: nat, rest: Seq<char>)
    requires
        rest.len() > 0,
        line_width(rest) > width,
    ensures
        fits(width, rest.take(cut_length(width, rest))),
        1 <= cut_length(width, rest) <= rest.len(),
{
    lemma_first_too_wide_bounds(width, rest, 0);
    let j = first_too_wide(width, rest, 0);
    if j == rest.len() {
        lemma_before_first_too_wide(width, rest, 0, rest.len() - 1);
        assert(rest.take(rest.len() as int) =~= rest);
    }
    if j > 0 {
        lemma_before_first_too_wide(width, rest, 0, j - 1);
    }
}

/// Cutting a word keeps every line fitting.
proof fn lemma_cut_word_fits(width: nat, lines: Seq<Seq<char>>, rest: Seq<char>)
    requires
        all_fit(width, lines),
    ensures
        state_fits(width, cut_word(width, lines, rest)),
    decreases rest.len(),
{
    if rest.len() > 0 && line_width(rest) > width {
        let k = cut_length(width, rest);
        lemma_cut_piece_fits(width, rest);
        let pushed = lines.push(rest.take(k));
        assert forall|i: int| 0 <= i < pushed.len() implies fits(width, #[trigger] pushed[i]) by {
            if i < lines.len() {
                assert(pushed[i] == lines[i]);
            }
        }
        lemma_cut_word_fits(width, pushed, rest.skip(k));
    }
}

/// Finishing a fitting current line keeps every line fitting.
proof fn lemma_finish_fits(width: nat, state: (Seq<Seq<char>>, Seq<char>))
    requires
        state_fits(width, state),
    ensures
        all_fit(width, state.0.push(state.1)),
{
    let pushed = state.0.push(state.1);
    assert forall|i: int| 0 <= i < pushed.len() implies fits(width, #[trigger] pushed[i]) by {
        if i < state.0.len() {
            assert(pushed[i] == state.0[i]);
        }
    }
}

/// Wrapping words keeps every line fitting.
proof fn lemma_words_fit(width: nat, state: (Seq<Seq<char>>, Seq<char>), words: Seq<Seq<char>>)
    requires
        state_fits(width, state),
    ensures
        state_fits(width, words_wrapped(width, state, words)),
    decreases words.len(),
{
    if words.len() > 0 {
        lemma_words_fit(width, state, words.drop_last());
        let before = words_wrapped(width, state, words.drop_last());
        lemma_finish_fits(width, before);
        lemma_cut_word_fits(width, before.0, words.last());
        if before.1.len() > 0 {
            lemma_cut_word_fits(width, before.0.push(before.1), words.last());
        }
    }
}

/// Wrapping help items keeps every line fitting.
proof fn lemma_items_fit(width: nat, state: (Seq<Seq<char>>, Seq<char>), items: Seq<Seq<char>>)
    requires
        state_fits(width, state),
    ensures
        state_fits(width, items_wrapped(width, state, items)),
    decreases items.len(),
{
    if items.len() > 0 {
        lemma_items_fit(width, state, items.drop_last());
        let before = items_wrapped(width, state, items.drop_last());
        lemma_finish_fits(width, before);
        let item = items.last();
        lemma_words_fit(width, (before.0, seq![]), text_words(item));
        if before.1.len() > 0 {
            lemma_words_fit(width, (before.0.push(before.1), seq![]), text_words(item));
        }
    }
}

/// Wrapping source lines keeps every line fitting.
proof fn lemma_source_fits(width: nat, source: Seq<Seq<char>>)
    ensures
        all_fit(width, source_wrapped(width, source)),
    decreases source.len(),
{
    if source.len() > 0 {
        lemma_source_fits(width, source.drop_last());
        let before = source_wrapped(width, source.drop_last());
        let line = source.last();
        lemma_items_fit(width, (before, seq![]), line_items(line));
        lemma_finish_fits(width, items_wrapped(width, (before, seq![]), line_items(line)));
    }
}

/// Every line of a wrapped help text fits the width, unless it holds a single character that
/// no line of that width could hold.
pub proof fn lemma_wrapped_lines_fit(text: Seq<char>, width: nat)
    ensures
        width > 0 ==> wrapped_help(text, width) == join_lines(source_wrapped(width, text_lines(text))),
        forall|i: int|
            0 <= i < source_wrapped(width, text_lines(text)).len() ==> fits(
                width,
                #[trigger] source_wrapped(width, text_lines(text))[i],
            ),
{
    lemma_source_fits(width, text_lines(text));
}

/// The characters of a text that are not white space, in order.
pub open spec fn visible(s: Seq<char>) -> Seq<char>
    decreases s.len(),
{
    if s.len() == 0 {
        seq![]
    } else if char_is_whitespace(s.last()) {
        visible(s.drop_last())
    } else {
        visible(s.drop_last()).push(s.last())
    }
}

/// The characters that are not white space of each of `lines` in turn.
pub open spec fn visible_all(lines: Seq<Seq<char>>) -> Seq<char>
    decreases lines.len(),
{
    if lines.len() == 0 {
        seq![]
    } else {
        visible_all(lines.drop_last()) + visible(lines.last())
    }
}

/// What is visible of two texts one after the other is what is visible of each.
proof fn lemma_visible_concat(a: Seq<char>, b: Seq<char>)
    ensures
        visible(a + b) == visible(a) + visible(b),
    decreases b.len(),
{
    if b.len() == 0 {
        assert(a + b =~= a);
        assert(visible(a) + visible(b) =~= visible(a));
    } else {
        lemma_visible_concat(a, b.drop_last());
        assert((a + b).drop_last() =~= a + b.drop_last());
        assert((a + b).last() == b.last());
        if char_is_whitespace(b.last()) {
        } else {
            assert(visible(a) + visible(b.drop_last()).push(b.last()) =~= (visible(a) + visible(b.drop_last())).push(
                b.last(),
            ));
        }
    }
}

/// A character in front of a text is visible unless it is white space.
proof fn lemma_visible_front(c: char, s: Seq<char>)
    ensures
        visible(seq![c] + s) == if char_is_whitespace(c) {
            visible(s)
        } else {
            seq![c] + visible(s)
        },
{
    lemma_visible_concat(seq![c], s);
    assert(seq![c].drop_last() =~= Seq::<char>::empty());
    assert(visible(Seq::<char>::empty()) =~= Seq::<char>::empty());
    assert(seq![c].last() == c);
    if char_is_whitespace(c) {
        assert(visible(seq![c]) =~= Seq::<char>::empty());
        assert(Seq::<char>::empty() + visible(s) =~= visible(s));
    } else {
        assert(visible(seq![c]) =~= seq![c]);
    }
}

/// What is visible of a nonempty text is what is visible of its first character and the rest.
proof fn lemma_visible_first(s: Seq<char>)
    requires
        s.len() > 0,
    ensures
        visible(s) == if char_is_whitespace(s[0]) {
            visible(s.drop_first())
        } else {
            seq![s[0]] + visible(s.drop_first())
        },
{
    assert(s =~= seq![s[0]] + s.drop_first());
    lemma_visible_front(s[0], s.drop_first());
}

/// What is visible of two lists of lines one after the other is what is visible of each.
proof fn lemma_visible_all_concat(a: Seq<Seq<char>>, b: Seq<Seq<char>>)
    ensures
        visible_all(a + b) == visible_all(a) + visible_all(b),
    decreases b.len(),
{
    if b.len() == 0 {
        assert(a + b =~= a);
        assert(visible_all(a) + visible_all(b) =~= visible_all(a));
    } else {
        lemma_visible_all_concat(a, b.drop_last());
        assert((a + b).drop_last() =~= a + b.drop_last());
        assert((a + b).last() == b.last());
        assert(visible_all(a) + (visible_all(b.drop_last()) + visible(b.last())) =~= (visible_all(a) + visible_all(
            b.drop_last(),
        )) + visible(b.last()));
    }
}

/// One more line adds what is visible of it.
proof fn lemma_visible_all_push(a: Seq<Seq<char>>, x: Seq<char>)
    ensures
        visible_all(a.push(x)) == visible_all(a) + visible(x),
{
    assert(a.push(x).drop_last() =~= a);
}

/// Keeping a piece only when it is nonempty hides nothing.
proof fn lemma_visible_kept(piece: Seq<char>)
    ensures
        visible_all(kept(piece)) == visible(piece),
{
    if piece.len() == 0 {
        assert(visible(piece) =~= Seq::<char>::empty());
    } else {
        lemma_visible_all_push(Seq::<Seq<char>>::empty(), piece);
        assert(Seq::<Seq<char>>::empty().push(piece) =~= kept(piece));
        assert(Seq::<char>::empty() + visible(piece) =~= visible(piece));
    }
}

/// Splitting at white space hides nothing that is visible.
proof fn lemma_visible_words(cur: Seq<char>, s: Seq<char>)
    ensures
        visible_all(words_after(cur, s)) == visible(cur) + visible(s),
    decreases s.len(),
{
    if s.len() == 0 {
        lemma_visible_kept(cur);
        assert(visible(cur) + visible(s) =~= visible(cur));
    } else {
        lemma_visible_first(s);
        if char_is_whitespace(s[0]) {
            lemma_visible_words(seq![], s.drop_first());
            lemma_visible_kept(cur);
            lemma_visible_all_concat(kept(cur), words_after(seq![], s.drop_first()));
            assert(visible(Seq::<char>::empty()) =~= Seq::<char>::empty());
            assert(Seq::<char>::empty() + visible(s.drop_first()) =~= visible(s.drop_first()));
        } else {
            lemma_visible_words(cur.push(s[0]), s.drop_first());
            lemma_visible_concat(cur, seq![s[0]]);
            assert(cur + seq![s[0]] =~= cur.push(s[0]));
            lemma_visible_front(s[0], Seq::<char>::empty());
            assert(seq![s[0]] + Seq::<char>::empty() =~= seq![s[0]]);
            assert(visible(Seq::<char>::empty()) =~= Seq::<char>::empty());
            assert(seq![s[0]] + Seq::<char>::empty() =~= seq![s[0]]);
            assert((visible(cur) + seq![s[0]]) + visible(s.drop_first()) =~= visible(cur) + (seq![s[0]] + visible(
                s.drop_first(),
            )));
        }
    }
}

/// Splitting at two spaces hides nothing that is visible.
proof fn lemma_visible_items(cur: Seq<char>, s: Seq<char>)
    ensures
        visible_all(items_after(cur, s)) == visible(cur) + visible(s),
    decreases s.len(),
{
    if s.len() == 0 {
        lemma_visible_kept(cur);
        assert(visible(cur) + visible(s) =~= visible(cur));
    } else if s.len() >= 2 && s[0] == ' ' && s[1] == ' ' {
        lemma_visible_items(seq![], s.skip(2));
        lemma_visible_kept(cur);
        lemma_visible_all_concat(kept(cur), items_after(seq![], s.skip(2)));
        lemma_visible_first(s);
        lemma_visible_first(s.drop_first());
        assert(s.drop_first().drop_first() =~= s.skip(2));
        assert(s.drop_first()[0] == ' ');
        assert(visible(Seq::<char>::empty()) =~= Seq::<char>::empty());
        assert(Seq::<char>::empty() + visible(s.skip(2)) =~= visible(s.skip(2)));
    } else {
        lemma_visible_first(s);
        lemma_visible_items(cur.push(s[0]), s.drop_first());
        lemma_visible_concat(cur, seq![s[0]]);
        assert(cur + seq![s[0]] =~= cur.push(s[0]));
        lemma_visible_front(s[0], Seq::<char>::empty());
        assert(seq![s[0]] + Seq::<char>::empty() =~= seq![s[0]]);
        assert(visible(Seq::<char>::empty()) =~= Seq::<char>::empty());
        assert((visible(cur) + visible(seq![s[0]])) + visible(s.drop_first()) =~= visible(cur) + (visible(seq![s[0]])
            + visible(s.drop_first())));
    }
}

/// Removing a line's closing `\r` hides nothing that is visible.
proof fn lemma_visible_without_cr(line: Seq<char>)
    ensures
        visible(without_cr(line)) == visible(line),
{
}

/// Splitting into lines hides nothing that is visible.
proof fn lemma_visible_lines(cur: Seq<char>, s: Seq<char>)
    ensures
        visible_all(lines_after(cur, s)) == visible(cur) + visible(s),
    decreases s.len(),
{
    if s.len() == 0 {
        lemma_visible_kept(cur);
        assert(visible(cur) + visible(s) =~= visible(cur));
    } else {
        lemma_visible_first(s);
        if s[0] == '\n' {
            lemma_visible_lines(seq![], s.drop_first());
            lemma_visible_without_cr(cur);
            lemma_visible_all_concat(seq![without_cr(cur)], lines_after(seq![], s.drop_first()));
            lemma_visible_all_push(Seq::<Seq<char>>::empty(), without_cr(cur));
            assert(Seq::<Seq<char>>::empty().push(without_cr(cur)) =~= seq![without_cr(cur)]);
            assert(visible(Seq::<char>::empty()) =~= Seq::<char>::empty());
            assert(Seq::<char>::empty() + visible(cur) =~= visible(cur));
            assert(Seq::<char>::empty() + visible(s.drop_first()) =~= visible(s.drop_first()));
        } else {
            lemma_visible_lines(cur.push(s[0]), s.drop_first());
            lemma_visible_concat(cur, seq![s[0]]);
            assert(cur + seq![s[0]] =~= cur.push(s[0]));
            lemma_visible_first(seq![s[0]]);
            assert(seq![s[0]].drop_first() =~= Seq::<char>::empty());
            assert(visible(Seq::<char>::empty()) =~= Seq::<char>::empty());
            if char_is_whitespace(s[0]) {
                assert(visible(cur) + visible(seq![s[0]]) =~= visible(cur));
            } else {
                assert(seq![s[0]] + Seq::<char>::empty() =~= seq![s[0]]);
                assert((visible(cur) + seq![s[0]]) + visible(s.drop_first()) =~= visible(cur) + (seq![s[0]]
                    + visible(s.drop_first())));
            }
        }
    }
}

/// What is visible of the finished lines and the current line of a wrap.
pub open spec fn state_visible(state: (Seq<Seq<char>>, Seq<char>)) -> Seq<char> {
    visible_all(state.0) + visible(state.1)
}

/// Joining lines with newlines hides nothing that is visible.
proof fn lemma_visible_join(lines: Seq<Seq<char>>)
    ensures
        visible(join_lines(lines)) == visible_all(lines),
    decreases lines.len(),
{
    if lines.len() == 1 {
        lemma_visible_all_push(Seq::<Seq<char>>::empty(), lines[0]);
        assert(Seq::<Seq<char>>::empty().push(lines[0]) =~= lines);
        assert(Seq::<char>::empty() + visible(lines[0]) =~= visible(lines[0]));
    } else if lines.len() > 1 {
        lemma_visible_join(lines.drop_last());
        let front = join_lines(lines.drop_last());
        lemma_visible_concat(front + seq!['\n'], lines.last());
        lemma_visible_concat(front, seq!['\n']);
        lemma_visible_first(seq!['\n']);
        assert(seq!['\n'].drop_first() =~= Seq::<char>::empty());
        assert(visible(seq!['\n']) =~= Seq::<char>::empty());
        assert(visible(front) + Seq::<char>::empty() =~= visible(front));
    }
}

/// Two texts with a white-space separator between them show what each shows.
proof fn lemma_visible_separated(a: Seq<char>, separator: Seq<char>, b: Seq<char>)
    requires
        forall|i: int| 0 <= i < separator.len() ==> char_is_whitespace(#[trigger] separator[i]),
    ensures
        visible(a + separator + b) == visible(a) + visible(b),
    decreases separator.len(),
{
    if separator.len() == 0 {
        assert(a + separator + b =~= a + b);
        lemma_visible_concat(a, b);
    } else {
        let rest = separator.drop_first();
        lemma_visible_separated(a, rest, b);
        lemma_visible_concat(a, separator + b);
        lemma_visible_concat(a, rest + b);
        assert(separator + b =~= seq![separator[0]] + (rest + b));
        lemma_visible_front(separator[0], rest + b);
        assert(a + separator + b =~= a + (separator + b));
        assert(a + rest + b =~= a + (rest + b));
    }
}

/// Cutting a word into lines hides nothing that is visible.
proof fn lemma_visible_cut(width: nat, lines: Seq<Seq<char>>, rest: Seq<char>)
    ensures
        state_visible(cut_word(width, lines, rest)) == visible_all(lines) + visible(rest),
    decreases rest.len(),
{
    if rest.len() > 0 && line_width(rest) > width {
        let k = cut_length(width, rest);
        lemma_first_too_wide_bounds(width, rest, 0);
        lemma_visible_cut(width, lines.push(rest.take(k)), rest.skip(k));
        lemma_visible_all_push(lines, rest.take(k));
        lemma_visible_concat(rest.take(k), rest.skip(k));
        assert(rest.take(k) + rest.skip(k) =~= rest);
        assert((visible_all(lines) + visible(rest.take(k))) + visible(rest.skip(k)) =~= visible_all(lines) + (visible(
            rest.take(k),
        ) + visible(rest.skip(k))));
    }
}

/// An empty text shows nothing.
proof fn lemma_visible_empty(s: Seq<char>)
    requires
        s.len() == 0,
    ensures
        visible(s) == Seq::<char>::empty(),
{
}

/// One more word adds what is visible of it.
proof fn lemma_visible_word_step(width: nat, state: (Seq<Seq<char>>, Seq<char>), word: Seq<char>)
    ensures
        state_visible(word_step(width, state, word)) == state_visible(state) + visible(word),
{
    let (lines, cur) = state;
    if cur.len() == 0 {
        lemma_visible_empty(cur);
        assert(visible_all(lines) + Seq::<char>::empty() =~= visible_all(lines));
        lemma_visible_cut(width, lines, word);
    } else {
        assert(char_is_whitespace(' '));
        lemma_visible_separated(cur, seq![' '], word);
        assert(cur + seq![' '] + word == cur + seq![' '] + word);
        lemma_visible_cut(width, lines.push(cur), word);
        lemma_visible_all_push(lines, cur);
    }
    assert((visible_all(lines) + visible(cur)) + visible(word) =~= visible_all(lines) + (visible(cur) + visible(word)));
}

/// Wrapping words adds what is visible of them.
proof fn lemma_visible_words_wrapped(width: nat, state: (Seq<Seq<char>>, Seq<char>), words: Seq<Seq<char>>)
    ensures
        state_visible(words_wrapped(width, state, words)) == state_visible(state) + visible_all(words),
    decreases words.len(),
{
    if words.len() == 0 {
        assert(state_visible(state) + visible_all(words) =~= state_visible(state));
    } else {
        lemma_visible_words_wrapped(width, state, words.drop_last());
        lemma_visible_word_step(width, words_wrapped(width, state, words.drop_last()), words.last());
        assert((state_visible(state) + visible_all(words.drop_last())) + visible(words.last()) =~= state_visible(state)
            + (visible_all(words.drop_last()) + visible(words.last())));
    }
}

/// One more help item adds what is visible of it.
proof fn lemma_visible_item_step(width: nat, state: (Seq<Seq<char>>, Seq<char>), item: Seq<char>)
    ensures
        state_visible(item_step(width, state, item)) == state_visible(state) + visible(item),
{
    let (lines, cur) = state;
    lemma_visible_words(seq![], item);
    lemma_visible_empty(Seq::<char>::empty());
    assert(Seq::<char>::empty() + visible(item) =~= visible(item));
    if cur.len() == 0 {
        lemma_visible_empty(cur);
        lemma_visible_words_wrapped(width, (lines, seq![]), text_words(item));
    } else {
        assert(char_is_whitespace(' '));
        lemma_visible_separated(cur, seq![' ', ' '], item);
        lemma_visible_words_wrapped(width, (lines.push(cur), seq![]), text_words(item));
        lemma_visible_all_push(lines, cur);
    }
    assert(visible_all(lines) + Seq::<char>::empty() =~= visible_all(lines));
    assert(visible_all(lines.push(cur)) + Seq::<char>::empty() =~= visible_all(lines.push(cur)));
    assert((visible_all(lines) + visible(cur)) + visible(item) =~= visible_all(lines) + (visible(cur) + visible(item)));
}

/// Wrapping help items adds what is visible of them.
proof fn lemma_visible_items_wrapped(width: nat, state: (Seq<Seq<char>>, Seq<char>), items: Seq<Seq<char>>)
    ensures
        state_visible(items_wrapped(width, state, items)) == state_visible(state) + visible_all(items),
    decreases items.len(),
{
    if items.len() == 0 {
        assert(state_visible(state) + visible_all(items) =~= state_visible(state));
    } else {
        lemma_visible_items_wrapped(width, state, items.drop_last());
        lemma_visible_item_step(width, items_wrapped(width, state, items.drop_last()), items.last());
        assert((state_visible(state) + visible_all(items.drop_last())) + visible(items.last()) =~= state_visible(state)
            + (visible_all(items.drop_last()) + visible(items.last())));
    }
}

/// Wrapping source lines hides nothing that is visible of them.
proof fn lemma_visible_source(width: nat, source: Seq<Seq<char>>)
    ensures
        visible_all(source_wrapped(width, source)) == visible_all(source),
    decreases source.len(),
{
    if source.len() > 0 {
        lemma_visible_source(width, source.drop_last());
        let before = source_wrapped(width, source.drop_last());
        let line = source.last();
        lemma_visible_items_wrapped(width, (before, seq![]), line_items(line));
        let state = items_wrapped(width, (before, seq![]), line_items(line));
        lemma_visible_all_push(state.0, state.1);
        lemma_visible_items(seq![], line);
        lemma_visible_empty(Seq::<char>::empty());
        assert(visible_all(before) + Seq::<char>::empty() =~= visible_all(before));
        assert(Seq::<char>::empty() + visible(line) =~= visible(line));
    }
}

/// Wrapping a help text moves its lines apart and drops or adds white space only: the
/// characters that are not white space are those of the text, in order.
pub proof fn lemma_wrapping_keeps_visible_text(text: Seq<char>, width: nat)
    requires
        width > 0,
    ensures
        visible(wrapped_help(text, width)) == visible(text),
{
    lemma_visible_join(source_wrapped(width, text_lines(text)));
    lemma_visible_source(width, text_lines(text));
    lemma_visible_lines(seq![], text);
    lemma_visible_empty(Seq::<char>::empty());
    assert(Seq::<char>::empty() + visible(text) =~= visible(text));
}

} // verus!
