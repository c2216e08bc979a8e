//! Text shown for durations, timer states and keys.
use vstd::prelude::*;

use crate::config::keys::ConfigKey;
use crate::duration::Duration;
use crate::text::{clock_text, push_char, push_clock, push_str};
use crate::timer::{SessionKind, TimerState};

verus! {

/// Rows of one big glyph.
pub const BIG_GLYPH_HEIGHT: usize = 5;

/// The height of a big duration at scale one.
pub const BIG_DURATION_HEIGHT: u16 = 5;

/// The width of a big `MM:SS` duration at scale one.
pub const BIG_DURATION_WIDTH: u16 = 30;

/// The block character that draws lit cells.
pub const BIG_BLOCK: char = '\u{2588}';

/// `MM:SS` text of the whole seconds of a duration.
pub fn format_duration(duration: Duration) -> (s: String)
    ensures
        s@ == clock_text(duration@ / 1_000_000_000),
{
    let mut s = String::new();
    push_clock(&mut s, duration.as_secs());
    assert(s@ =~= clock_text(duration@ / 1_000_000_000));
    s
}

/// The cells of row `row` of the glyph of `c`: `'1'` is lit.
pub open spec fn pattern(c: char, row: int) -> Seq<char> {
    let rows: Seq<Seq<char>> = if c == '0' { seq!["111"@, "101"@, "101"@, "101"@, "111"@] }
        else if c == '1' { seq!["001"@, "001"@, "001"@, "001"@, "001"@] }
        else if c == '2' { seq!["111"@, "001"@, "111"@, "100"@, "111"@] }
        else if c == '3' { seq!["111"@, "001"@, "111"@, "001"@, "111"@] }
        else if c == '4' { seq!["101"@, "101"@, "111"@, "001"@, "001"@] }
        else if c == '5' { seq!["111"@, "100"@, "111"@, "001"@, "111"@] }
        else if c == '6' { seq!["111"@, "100"@, "111"@, "101"@, "111"@] }
        else if c == '7' { seq!["111"@, "001"@, "001"@, "001"@, "001"@] }
        else if c == '8' { seq!["111"@, "101"@, "111"@, "101"@, "111"@] }
        else if c == '9' { seq!["111"@, "101"@, "111"@, "001"@, "111"@] }
        else if c == ':' { seq!["0"@, "1"@, "0"@, "1"@, "0"@] }
        else { seq!["000"@, "000"@, "000"@, "000"@, "000"@] };
    rows[row]
}

/// Two block characters for a lit cell, two spaces otherwise.
pub open spec fn cells_text(cells: Seq<char>) -> Seq<char>
    decreases cells.len(),
{
    if cells.len() == 0 {
        seq![]
    } else {
        cells_text(cells.drop_last()) + if cells.last() == '1' { seq![BIG_BLOCK, BIG_BLOCK] } else { seq![' ', ' '] }
    }
}

/// Row `row` of the big rendering of `text` at scale one: glyph rows separated by a space.
pub open spec fn big_line(text: Seq<char>, row: int) -> Seq<char>
    decreases text.len(),
{
    if text.len() == 0 {
        seq![]
    } else if text.len() == 1 {
        cells_text(pattern(text[0], row))
    } else {
        big_line(text.drop_last(), row) + seq![' '] + cells_text(pattern(text.last(), row))
    }
}

/// `s` with every character repeated `k` times.
pub open spec fn widen(s: Seq<char>, k: nat) -> Seq<char>
    decreases s.len(),
{
    if s.len() == 0 { seq![] } else { widen(s.drop_last(), k) + Seq::new(k, |_i: int| s.last()) }
}

/// The big rendering of `text`: each glyph row widened by `scale` and repeated `scale` times.
pub open spec fn big_rows(text: Seq<char>, scale: nat) -> Seq<Seq<char>> {
    Seq::new(5 * scale, |i: int| widen(big_line(text, i / scale as int), scale))
}

/// Lines joined by newlines.
pub open spec fn join_lines(lines: Seq<Seq<char>>) -> Seq<char>
    decreases lines.len(),
{
    if lines.len() == 0 {
        seq![]
    } else if lines.len() == 1 {
        lines[0]
    } else {
        join_lines(lines.drop_last()) + seq!['\n'] + lines.last()
    }
}

fn glyph_pattern(c: char, row: usize) -> (p: &'static str)
    requires
        row < 5,
    ensures
        p@ == pattern(c, row as int),
{
    let rows: [&'static str; 5] = if c == '0' { ["111", "101", "101", "101", "111"] }
        else if c == '1' { ["001", "001", "001", "001", "001"] }
        else if c == '2' { ["111", "001", "111", "100", "111"] }
        else if c == '3' { ["111", "001", "111", "001", "111"] }
        else if c == '4' { ["101", "101", "111", "001", "001"] }
        else if c == '5' { ["111", "100", "111", "001", "111"] }
        else if c == '6' { ["111", "100", "111", "101", "111"] }
        else if c == '7' { ["111", "001", "001", "001", "001"] }
        else if c == '8' { ["111", "101", "111", "101", "111"] }
        else if c == '9' { ["111", "101", "111", "001", "111"] }
        else if c == ':' { ["0", "1", "0", "1", "0"] }
        else { ["000", "000", "000", "000", "000"] };
    rows[row]
}

fn push_cells(s: &mut String, cells: &str)
    ensures
        final(s)@ == old(s)@ + cells_text(cells@),
{
    let n = cells.unicode_len();
    let mut i: usize = 0;
    while i < n
        invariant
            n == cells@.len(),
            i <= n,
            s@ == old(s)@ + cells_text(cells@.take(i as int)),
        decreases n - i,
    {
        let c = cells.get_char(i);
        assert(cells@.take(i + 1).drop_last() =~= cells@.take(i as int));
        if c == '1' {
            push_char(s, BIG_BLOCK);
            push_char(s, BIG_BLOCK);
        } else {
            push_char(s, ' ');
            push_char(s, ' ');
        }
        assert(s@ =~= old(s)@ + cells_text(cells@.take(i + 1)));
        i = i + 1;
    }
    assert(cells@.take(n as int) =~= cells@);
}

fn line_for(text: &str, row: usize) -> (s: String)
    requires
        row < 5,
    ensures
        s@ == big_line(text@, row as int),
{
    let n = text.unicode_len();
    let mut s = String::new();
    let mut i: usize = 0;
    while i < n
        invariant
            n == text@.len(),
            row < 5,
            i <= n,
            s@ == big_line(text@.take(i as int), row as int),
        decreases n - i,
    {
        let c = text.get_char(i);
        let ghost before = s@;
        assert(text@.take(i + 1).drop_last() =~= text@.take(i as int));
        assert(text@.take(i + 1).last() == c);
        if i > 0 {
            push_char(&mut s, ' ');
        }
        push_cells(&mut s, glyph_pattern(c, row));
        proof {
            if i == 0 {
                assert(text@.take(1)[0] == c);
                assert(s@ =~= big_line(text@.take(1), row as int));
            } else {
                assert(s@ =~= big_line(text@.take(i + 1), row as int));
            }
        }
        i = i + 1;
    }
    assert(text@.take(n as int) =~= text@);
    s
}

fn widen_text(line: &str, scale: usize) -> (s: String)
    ensures
        s@ == widen(line@, scale as nat),
{
    let n = line.unicode_len();
    let mut s = String::new();
    let mut i: usize = 0;
    while i < n
        invariant
            n == line@.len(),
            i <= n,
            s@ == widen(line@.take(i as int), scale as nat),
        decreases n - i,
    {
        let c = line.get_char(i);
        let ghost before = s@;
        let mut k: usize = 0;
        while k < scale
            invariant
                k <= scale,
                s@ == before + Seq::new(k as nat, |_j: int| c),
            decreases scale - k,
        {
            push_char(&mut s, c);
            assert(s@ =~= before + Seq::new((k + 1) as nat, |_j: int| c));
            k = k + 1;
        }
        assert(line@.take(i + 1).drop_last() =~= line@.take(i as int));
        assert(line@.take(i + 1).last() == c);
        assert(s@ =~= widen(line@.take(i + 1), scale as nat));
        i = i + 1;
    }
    assert(line@.take(n as int) =~= line@);
    s
}

/// The big block-glyph rendering of `text` at `scale`, as lines joined by newlines.
fn render_big_text(text: &str, scale: usize) -> (s: String)
    requires
        1 <= scale <= 65535,
    ensures
        s@ == join_lines(big_rows(text@, scale as nat)),
{
    let ghost rows = big_rows(text@, scale as nat);
    let mut s = String::new();
    let mut row: usize = 0;
    let mut count: usize = 0;
    while row < BIG_GLYPH_HEIGHT
        invariant
            1 <= scale <= 65535,
            row <= 5,
            count == row * scale,
            rows == big_rows(text@, scale as nat),
            s@ == join_lines(rows.take(count as int)),
        decreases 5 - row,
    {
        let line = line_for(text, row);
        let wide = widen_text(line.as_str(), scale);
        let mut k: usize = 0;
        while k < scale
            invariant
                1 <= scale <= 65535,
                row < 5,
                k <= scale,
                count == row * scale + k,
                rows == big_rows(text@, scale as nat),
                wide@ == widen(big_line(text@, row as int), scale as nat),
                s@ == join_lines(rows.take(count as int)),
            decreases scale - k,
        {
            assert(count < 5 * scale) by (nonlinear_arith)
                requires count == row * scale + k, k < scale, row < 5;
            assert((count as int) / (scale as int) == row as int) by (nonlinear_arith)
                requires count == row * scale + k, k < scale, scale >= 1;
            assert(rows[count as int] == wide@);
            if count > 0 {
                push_char(&mut s, '\n');
            }
            push_str(&mut s, wide.as_str());
            assert(rows.take(count + 1).drop_last() =~= rows.take(count as int));
            proof {
                if count == 0 {
                    assert(s@ =~= join_lines(rows.take(1)));
                } else {
                    assert(s@ =~= join_lines(rows.take(count + 1)));
                }
            }
            k = k + 1;
            count = count + 1;
        }
        assert(count == (row + 1) * scale) by (nonlinear_arith)
            requires count == row * scale + k, k == scale;
        row = row + 1;
    }
    assert(rows.take(count as int) =~= rows);
    s
}

/// A duration drawn in block glyphs, scaled by `scale` (at least one) in both dimensions.
pub fn format_big_duration_at_scale(duration: Duration, scale: u16) -> (s: String)
    ensures
        s@ == join_lines(big_rows(clock_text(duration@ / 1_000_000_000), if scale == 0 { 1 } else { scale as nat })),
{
    let text = format_duration(duration);
    let effective: usize = if scale == 0 { 1 } else { scale as usize };
    render_big_text(text.as_str(), effective)
}

/// The cells of a glyph row as blocks take two columns each.
proof fn lemma_cells_text_len(cells: Seq<char>)
    ensures
        cells_text(cells).len() == 2 * cells.len(),
    decreases cells.len(),
{
    if cells.len() > 0 {
        lemma_cells_text_len(cells.drop_last());
    }
}

/// A digit's glyph rows are three cells wide and the colon's one cell.
proof fn lemma_pattern_len(c: char, row: int)
    requires
        0 <= row < 5,
        crate::text::is_digit(c) || c == ':',
    ensures
        pattern(c, row).len() == if c == ':' { 1nat } else { 3nat },
{
    reveal_strlit("111");
    reveal_strlit("101");
    reveal_strlit("001");
    reveal_strlit("100");
    reveal_strlit("000");
    reveal_strlit("0");
    reveal_strlit("1");
    assert(c == ':' || c == '0' || c == '1' || c == '2' || c == '3' || c == '4' || c == '5' || c == '6' || c == '7'
        || c == '8' || c == '9') by {
        assert(c == ':' || ('0' as u32 <= c as u32 && c as u32 <= '9' as u32));
    }
}

/// The columns of one row of a big rendering at scale one: six per digit, two for a colon,
/// and one between neighbouring glyphs.
pub open spec fn big_width(text: Seq<char>) -> nat
    decreases text.len(),
{
    if text.len() == 0 {
        0
    } else {
        let glyph: nat = if text.last() == ':' { 2 } else { 6 };
        if text.len() == 1 { glyph } else { big_width(text.drop_last()) + 1 + glyph }
    }
}

/// Every row of the big rendering of digits and colons has the same width.
proof fn lemma_big_line_len(text: Seq<char>, row: int)
    requires
        0 <= row < 5,
        forall|i: int| 0 <= i < text.len() ==> crate::text::is_digit(#[trigger] text[i]) || text[i] == ':',
    ensures
        big_line(text, row).len() == big_width(text),
    decreases text.len(),
{
    if text.len() > 0 {
        lemma_pattern_len(text.last(), row);
        lemma_cells_text_len(pattern(text.last(), row));
        if text.len() > 1 {
            assert forall|i: int| 0 <= i < text.drop_last().len() implies crate::text::is_digit(
                #[trigger] text.drop_last()[i],
            ) || text.drop_last()[i] == ':' by {
                assert(text.drop_last()[i] == text[i]);
            }
            lemma_big_line_len(text.drop_last(), row);
        } else {
            lemma_pattern_len(text[0], row);
        }
    }
}

/// Widening repeats every character `k` times.
proof fn lemma_widen_len(s: Seq<char>, k: nat)
    ensures
        widen(s, k).len() == s.len() * k,
    decreases s.len(),
{
    if s.len() > 0 {
        lemma_widen_len(s.drop_last(), k);
        assert((s.len() - 1) * k + k == s.len() * k) by (nonlinear_arith);
    }
}

/// A big duration below a hundred minutes has `5 × scale` rows of `30 × scale` columns, in
/// groups of `scale` identical rows, with no line break inside a row; scale zero draws as
/// scale one.
pub proof fn lemma_big_duration_shape(seconds: nat, scale: nat)
    requires
        seconds < 6000,
        scale > 0,
    ensures
        big_rows(clock_text(seconds), scale).len() == 5 * scale,
        forall|i: int| 0 <= i < 5 * scale ==> (#[trigger] big_rows(clock_text(seconds), scale)[i]).len() == 30 * scale,
        forall|i: int, j: int|
            0 <= i < 5 * scale && 0 <= j < 5 * scale && i / (scale as int) == j / (scale as int) ==> #[trigger] big_rows(
                clock_text(seconds),
                scale,
            )[i] == #[trigger] big_rows(clock_text(seconds), scale)[j],
        forall|i: int, c: int|
            0 <= i < 5 * scale && 0 <= c < 30 * scale ==> #[trigger] big_rows(clock_text(seconds), scale)[i][c] != '\n',
{
    let t = clock_text(seconds);
    crate::text::lemma_decimal2_reads_back(seconds / 60);
    crate::text::lemma_decimal2_reads_back(seconds % 60);
    assert(t.len() == 5);
    assert forall|i: int| 0 <= i < t.len() implies crate::text::is_digit(#[trigger] t[i]) || t[i] == ':' by {
        if i < 2 {
            assert(t[i] == crate::text::decimal2(seconds / 60)[i]);
        } else if i > 2 {
            assert(t[i] == crate::text::decimal2(seconds % 60)[i - 3]);
        }
    }
    let t1 = t.drop_last();
    let t2 = t1.drop_last();
    let t3 = t2.drop_last();
    let t4 = t3.drop_last();
    assert(t[2] == ':');
    assert(t[0] != ':' && t[1] != ':' && t[3] != ':' && t[4] != ':');
    assert(t4.len() == 1 && t4.last() == t[0]);
    assert(big_width(t4) == 6);
    assert(t3.last() == t[1]);
    assert(big_width(t3) == 13);
    assert(t2.last() == t[2]);
    assert(big_width(t2) == 16);
    assert(t1.last() == t[3]);
    assert(big_width(t1) == 23);
    assert(t.last() == t[4]);
    assert(big_width(t) == 30);
    let rows = big_rows(t, scale);
    assert forall|i: int| 0 <= i < 5 * scale implies (#[trigger] rows[i]).len() == 30 * scale by {
        let r = i / (scale as int);
        assert(0 <= r < 5) by (nonlinear_arith)
            requires
                0 <= i < 5 * scale,
                scale > 0,
                r == i / (scale as int),
        ;
        lemma_big_line_len(t, r);
        lemma_widen_len(big_line(t, r), scale);
    }
    assert forall|i: int, c: int| 0 <= i < 5 * scale && 0 <= c < 30 * scale implies #[trigger] rows[i][c] != '\n' by {
        let r = i / (scale as int);
        assert(0 <= r < 5) by (nonlinear_arith)
            requires
                0 <= i < 5 * scale,
                scale > 0,
                r == i / (scale as int),
        ;
        lemma_big_line_no_newline(t, r);
        lemma_widen_no_newline(big_line(t, r), scale, c);
    }
}

/// A big rendering row holds only blocks and spaces.
proof fn lemma_big_line_no_newline(text: Seq<char>, row: int)
    ensures
        forall|c: int| 0 <= c < big_line(text, row).len() ==> #[trigger] big_line(text, row)[c] != '\n',
    decreases text.len(),
{
    if text.len() > 0 {
        let glyph = cells_text(pattern(text.last(), row));
        lemma_cells_no_newline(pattern(text.last(), row));
        if text.len() > 1 {
            lemma_big_line_no_newline(text.drop_last(), row);
            let front = big_line(text.drop_last(), row) + seq![' '];
            assert(big_line(text, row) == front + glyph);
            assert forall|c: int| 0 <= c < big_line(text, row).len() implies #[trigger] big_line(text, row)[c] != '\n' by {
                if c < front.len() - 1 {
                    assert(big_line(text, row)[c] == big_line(text.drop_last(), row)[c]);
                } else if c == front.len() - 1 {
                    assert(big_line(text, row)[c] == ' ');
                } else {
                    assert(big_line(text, row)[c] == glyph[c - front.len()]);
                }
            }
        } else {
            lemma_cells_no_newline(pattern(text[0], row));
        }
    }
}

/// Cells are drawn with blocks and spaces only.
proof fn lemma_cells_no_newline(cells: Seq<char>)
    ensures
        forall|c: int| 0 <= c < cells_text(cells).len() ==> #[trigger] cells_text(cells)[c] != '\n',
    decreases cells.len(),
{
    if cells.len() > 0 {
        lemma_cells_no_newline(cells.drop_last());
        let front = cells_text(cells.drop_last());
        let tail = if cells.last() == '1' { seq![BIG_BLOCK, BIG_BLOCK] } else { seq![' ', ' '] };
        assert(cells_text(cells) == front + tail);
        assert forall|c: int| 0 <= c < cells_text(cells).len() implies #[trigger] cells_text(cells)[c] != '\n' by {
            if c < front.len() {
                assert(cells_text(cells)[c] == front[c]);
            } else {
                assert(cells_text(cells)[c] == tail[c - front.len()]);
            }
        }
    }
}

/// Widening brings in no character that was not there.
proof fn lemma_widen_no_newline(s: Seq<char>, k: nat, c: int)
    requires
        forall|x: int| 0 <= x < s.len() ==> #[trigger] s[x] != '\n',
    ensures
        0 <= c < widen(s, k).len() ==> widen(s, k)[c] != '\n',
    decreases s.len(),
{
    if s.len() > 0 {
        let front = widen(s.drop_last(), k);
        if c < front.len() {
            assert forall|x: int| 0 <= x < s.drop_last().len() implies #[trigger] s.drop_last()[x] != '\n' by {
                assert(s.drop_last()[x] == s[x]);
            }
            lemma_widen_no_newline(s.drop_last(), k, c);
        }
    }
}

/// The label of a timer state.
pub open spec fn state_label(state: TimerState) -> Seq<char> {
    match state {
        TimerState::Ready(SessionKind::Focus) => "Focus ready"@,
        TimerState::Ready(SessionKind::ShortBreak) => "Short break ready"@,
        TimerState::Ready(SessionKind::LongBreak) => "Long break ready"@,
        TimerState::Running(SessionKind::Focus) => "Focus"@,
        TimerState::Running(SessionKind::ShortBreak) => "Short break"@,
        TimerState::Running(SessionKind::LongBreak) => "Long break"@,
        TimerState::Paused(SessionKind::Focus) => "Focus paused"@,
        TimerState::Paused(SessionKind::ShortBreak) => "Short break paused"@,
        TimerState::Paused(SessionKind::LongBreak) => "Long break paused"@,
    }
}

/// The label of a timer state.
pub fn format_state(state: TimerState) -> (s: &'static str)
    ensures
        s@ == state_label(state),
{
    match state {
        TimerState::Ready(SessionKind::Focus) => "Focus ready",
        TimerState::Ready(SessionKind::ShortBreak) => "Short break ready",
        TimerState::Ready(SessionKind::LongBreak) => "Long break ready",
        TimerState::Running(SessionKind::Focus) => "Focus",
        TimerState::Running(SessionKind::ShortBreak) => "Short break",
        TimerState::Running(SessionKind::LongBreak) => "Long break",
        TimerState::Paused(SessionKind::Focus) => "Focus paused",
        TimerState::Paused(SessionKind::ShortBreak) => "Short break paused",
        TimerState::Paused(SessionKind::LongBreak) => "Long break paused",
    }
}

/// The label of a key in help text.
pub open spec fn key_label(key: ConfigKey) -> Seq<char> {
    match key {
        ConfigKey::Character(c) => seq![c],
        ConfigKey::Space => "space"@,
        ConfigKey::Enter => "Enter"@,
        ConfigKey::Escape => "Esc"@,
        ConfigKey::Backspace => "Backspace"@,
        ConfigKey::Up => seq!['\u{2191}'],
        ConfigKey::Down => seq!['\u{2193}'],
        ConfigKey::Left => seq!['\u{2190}'],
        ConfigKey::Right => seq!['\u{2192}'],
    }
}

/// The label of a key in help text.
pub fn format_key(key: ConfigKey) -> (s: String)
    ensures
        s@ == key_label(key),
{
    let mut s = String::new();
    match key {
        ConfigKey::Character(c) => push_char(&mut s, c),
        ConfigKey::Space => push_str(&mut s, "space"),
        ConfigKey::Enter => push_str(&mut s, "Enter"),
        ConfigKey::Escape => push_str(&mut s, "Esc"),
        ConfigKey::Backspace => push_str(&mut s, "Backspace"),
        ConfigKey::Up => push_char(&mut s, '\u{2191}'),
        ConfigKey::Down => push_char(&mut s, '\u{2193}'),
        ConfigKey::Left => push_char(&mut s, '\u{2190}'),
        ConfigKey::Right => push_char(&mut s, '\u{2192}'),
    }
    assert(s@ =~= key_label(key));
    s
}

/// The lit segments of a decimal digit on a seven-segment display, in the order top, upper
/// right, lower right, bottom, lower left, upper left, middle.
pub open spec fn segments(d: nat) -> (bool, bool, bool, bool, bool, bool, bool) {
    if d == 0 { (true, true, true, true, true, true, false) }
    else if d == 1 { (false, true, true, false, false, false, false) }
    else if d == 2 { (true, true, false, true, true, false, true) }
    else if d == 3 { (true, true, true, true, false, false, true) }
    else if d == 4 { (false, true, true, false, false, true, true) }
    else if d == 5 { (true, false, true, true, false, true, true) }
    else if d == 6 { (true, false, true, true, true, true, true) }
    else if d == 7 { (true, true, true, false, false, false, false) }
    else if d == 8 { (true, true, true, true, true, true, true) }
    else { (true, true, true, true, false, true, true) }
}

/// A cell of the three-by-five grid on which seven segments are drawn: the top, middle and
/// bottom segments run along rows 0, 2 and 4, the side segments down columns 0 and 2, and a
/// corner cell is lit when any segment that meets there is.
pub open spec fn segment_cell(s: (bool, bool, bool, bool, bool, bool, bool), row: int, col: int) -> bool {
    let (top, upper_right, lower_right, bottom, lower_left, upper_left, middle) = s;
    if row == 0 {
        if col == 0 { top || upper_left } else if col == 1 { top } else { top || upper_right }
    } else if row == 1 {
        if col == 0 { upper_left } else if col == 1 { false } else { upper_right }
    } else if row == 2 {
        if col == 0 { upper_left || lower_left || middle } else if col == 1 { middle }
        else { upper_right || lower_right || middle }
    } else if row == 3 {
        if col == 0 { lower_left } else if col == 1 { false } else { lower_right }
    } else {
        if col == 0 { lower_left || bottom } else if col == 1 { bottom } else { lower_right || bottom }
    }
}

/// The cell character of a lit or dark cell.
pub open spec fn cell_char(lit: bool) -> char {
    if lit { '1' } else { '0' }
}

/// Every digit's glyph is its seven-segment picture: row `row` of the glyph of digit `d`
/// lights exactly the grid cells of the segments that the digit lights on a seven-segment
/// display. The colon lights the middle of its second and fourth rows.
pub proof fn lemma_digit_glyphs_are_seven_segment(d: nat, row: int)
    requires
        d < 10,
        0 <= row < 5,
    ensures
        pattern(crate::text::digit_char(d), row) == seq![
            cell_char(segment_cell(segments(d), row, 0)),
            cell_char(segment_cell(segments(d), row, 1)),
            cell_char(segment_cell(segments(d), row, 2)),
        ],
        pattern(':', row) == seq![cell_char(row == 1 || row == 3)],
{
    reveal_strlit("111");
    reveal_strlit("101");
    reveal_strlit("001");
    reveal_strlit("100");
    reveal_strlit("0");
    reveal_strlit("1");
    crate::text::lemma_digit_char(d);
    let expected = seq![
        cell_char(segment_cell(segments(d), row, 0)),
        cell_char(segment_cell(segments(d), row, 1)),
        cell_char(segment_cell(segments(d), row, 2)),
    ];
    assert(pattern(crate::text::digit_char(d), row) =~= expected);
    assert(pattern(':', row) =~= seq![cell_char(row == 1 || row == 3)]);
}

/// Different digits draw different glyphs.
pub proof fn lemma_digit_glyphs_distinct(d: nat, e: nat)
    requires
        d < 10,
        e < 10,
        d != e,
    ensures
        exists|row: int| 0 <= row < 5 && #[trigger] pattern(crate::text::digit_char(d), row) != pattern(
            crate::text::digit_char(e), row),
{
    let cd = crate::text::digit_char(d);
    let ce = crate::text::digit_char(e);
    lemma_digit_glyphs_are_seven_segment(d, 0);
    lemma_digit_glyphs_are_seven_segment(e, 0);
    lemma_digit_glyphs_are_seven_segment(d, 1);
    lemma_digit_glyphs_are_seven_segment(e, 1);
    lemma_digit_glyphs_are_seven_segment(d, 2);
    lemma_digit_glyphs_are_seven_segment(e, 2);
    lemma_digit_glyphs_are_seven_segment(d, 3);
    lemma_digit_glyphs_are_seven_segment(e, 3);
    lemma_digit_glyphs_are_seven_segment(d, 4);
    lemma_digit_glyphs_are_seven_segment(e, 4);
    if pattern(cd, 0) == pattern(ce, 0) && pattern(cd, 1) == pattern(ce, 1) && pattern(cd, 2) == pattern(ce, 2)
        && pattern(cd, 3) == pattern(ce, 3) && pattern(cd, 4) == pattern(ce, 4) {
        assert(pattern(cd, 0)[1] == pattern(ce, 0)[1]);
        assert(pattern(cd, 1)[0] == pattern(ce, 1)[0]);
        assert(pattern(cd, 1)[2] == pattern(ce, 1)[2]);
        assert(pattern(cd, 2)[1] == pattern(ce, 2)[1]);
        assert(pattern(cd, 3)[0] == pattern(ce, 3)[0]);
        assert(pattern(cd, 3)[2] == pattern(ce, 3)[2]);
        assert(pattern(cd, 4)[1] == pattern(ce, 4)[1]);
        assert(segments(d) == segments(e));
        assert(false);
    } else if pattern(cd, 0) != pattern(ce, 0) {
        assert(pattern(cd, 0) != pattern(ce, 0));
    } else if pattern(cd, 1) != pattern(ce, 1) {
        assert(pattern(cd, 1) != pattern(ce, 1));
    } else if pattern(cd, 2) != pattern(ce, 2) {
        assert(pattern(cd, 2) != pattern(ce, 2));
    } else if pattern(cd, 3) != pattern(ce, 3) {
        assert(pattern(cd, 3) != pattern(ce, 3));
    } else {
        assert(pattern(cd, 4) != pattern(ce, 4));
    }
}

} // verus!
