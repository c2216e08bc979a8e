//! The texts of the clock panel, shortened to the width that they are given.
use vstd::prelude::*;
use vstd::string::*;
use vstd::utf8::encode_utf8;

use crate::display::{big_width, format_duration, format_state, state_label};
use crate::duration::Duration;
use crate::text::{clock_text, decimal, decimal_text, owned, push_char, push_str};
use crate::timer::{state_session, SessionKind, TimerState};
use crate::ui::help::{session_label, session_name};

verus! {

/// The number of bytes of a text in UTF-8, which is what `str::len` counts.
pub open spec fn byte_len(s: Seq<char>) -> nat {
    encode_utf8(s).len()
}

/// The number of bytes of a text, as `str::len` gives it.
pub fn byte_count(s: &str) -> (n: usize)
    ensures
        n as nat == byte_len(s@),
{
    s.as_bytes().len()
}

/// The session that a timer state is about.
pub fn current_session(state: TimerState) -> (s: SessionKind)
    ensures
        s == state_session(state),
{
    match state {
        TimerState::Ready(session) | TimerState::Running(session) | TimerState::Paused(session) => session,
    }
}

/// The full status line of the clock: the pending automatic start if there is one, else the
/// timer state.
pub open spec fn state_line(state: TimerState, pending: Option<(SessionKind, u64)>) -> Seq<char> {
    match pending {
        Some((session, seconds)) => "Next: "@ + session_name(session) + " (autostart in "@ + decimal(seconds as nat)
            + "s)"@,
        None => state_label(state),
    }
}

/// The full status line of the clock, before it is shortened to its width.
pub fn clock_state_text(state: TimerState, pending: Option<(SessionKind, u64)>) -> (s: String)
    ensures
        s@ == state_line(state, pending),
{
    match pending {
        Some((session, seconds)) => {
            let mut s = owned("Next: ");
            push_str(&mut s, session_label(session));
            push_str(&mut s, " (autostart in ");
            push_str(&mut s, decimal_text(seconds).as_str());
            push_str(&mut s, "s)");
            s
        },
        None => owned(format_state(state)),
    }
}

/// What the timer is doing in a state, in one word.
pub open spec fn activity_name(state: TimerState) -> Seq<char> {
    match state {
        TimerState::Ready(_) => "Ready"@,
        TimerState::Running(_) => "Running"@,
        TimerState::Paused(_) => "Paused"@,
    }
}

/// The status line of the clock in `width` columns: the whole text if it fits, else the
/// activity alone, else the session alone, else nothing.
pub open spec fn status_text(full: Seq<char>, state: TimerState, width: nat) -> Seq<char> {
    if byte_len(full) <= width {
        full
    } else if byte_len(activity_name(state)) <= width {
        activity_name(state)
    } else if byte_len(session_name(state_session(state))) <= width {
        session_name(state_session(state))
    } else {
        seq![]
    }
}

/// The status line of the clock, shortened to `width` columns.
pub fn clock_status_text(full: &str, state: TimerState, width: u16) -> (s: String)
    ensures
        s@ == status_text(full@, state, width as nat),
{
    if byte_count(full) <= width as usize {
        return owned(full);
    }
    let activity: &str = match state {
        TimerState::Ready(_) => "Ready",
        TimerState::Running(_) => "Running",
        TimerState::Paused(_) => "Paused",
    };
    if byte_count(activity) <= width as usize {
        return owned(activity);
    }
    let session = session_label(current_session(state));
    if byte_count(session) <= width as usize {
        owned(session)
    } else {
        String::new()
    }
}

/// The count of completed focus sessions in `width` columns: with its caption if it fits,
/// else the number alone, else nothing.
pub open spec fn completed_text(completed: nat, width: nat) -> Seq<char> {
    let full = "Focus sessions completed: "@ + decimal(completed);
    if byte_len(full) <= width {
        full
    } else if byte_len(decimal(completed)) <= width {
        decimal(completed)
    } else {
        seq![]
    }
}

/// The count of completed focus sessions, shortened to `width` columns.
pub fn clock_completed_text(completed: u32, width: u16) -> (s: String)
    ensures
        s@ == completed_text(completed as nat, width as nat),
{
    let count = decimal_text(completed as u64);
    let mut full = owned("Focus sessions completed: ");
    push_str(&mut full, count.as_str());
    if byte_count(full.as_str()) <= width as usize {
        full
    } else if byte_count(count.as_str()) <= width as usize {
        count
    } else {
        String::new()
    }
}

/// The initial that stands for a session kind on a narrow button.
pub open spec fn session_initial(session: SessionKind) -> char {
    match session {
        SessionKind::Focus => 'F',
        SessionKind::ShortBreak => 'S',
        SessionKind::LongBreak => 'L',
    }
}

/// The label of a session button in `width` columns: the bracketed name if it fits, else the
/// bracketed initial, else the bare initial, or nothing in no columns.
pub open spec fn control_text(session: SessionKind, name: Seq<char>, width: nat) -> Seq<char> {
    let full = "[ "@ + name + " ]"@;
    let bracketed = seq!['[', session_initial(session), ']'];
    if byte_len(full) <= width {
        full
    } else if byte_len(bracketed) <= width {
        bracketed
    } else if width > 0 {
        seq![session_initial(session)]
    } else {
        seq![]
    }
}

/// The label of a session button, shortened to `width` columns.
pub fn session_control_label(session: SessionKind, full: &str, width: u16) -> (s: String)
    ensures
        s@ == control_text(session, full@, width as nat),
{
    let mut label = owned("[ ");
    push_str(&mut label, full);
    push_str(&mut label, " ]");
    if byte_count(label.as_str()) <= width as usize {
        return label;
    }
    let initial = match session {
        SessionKind::Focus => 'F',
        SessionKind::ShortBreak => 'S',
        SessionKind::LongBreak => 'L',
    };
    let mut bracketed = String::new();
    push_char(&mut bracketed, '[');
    push_char(&mut bracketed, initial);
    push_char(&mut bracketed, ']');
    assert(bracketed@ =~= seq!['[', session_initial(session), ']']);
    if byte_count(bracketed.as_str()) <= width as usize {
        bracketed
    } else if width > 0 {
        let mut single = String::new();
        push_char(&mut single, initial);
        assert(single@ =~= seq![session_initial(session)]);
        single
    } else {
        String::new()
    }
}

/// How the clock shows the time left: as plain text, or in block glyphs at a scale.
#[derive(Debug, Clone, Copy, PartialEq, Eq, Structural)]
pub enum ClockFace {
    Text,
    Glyphs { scale: u16 },
}

/// The largest glyph scale that fits a clock box's inside `width` by `height`: the glyphs of
/// `text` are `big_width(text)` columns and five rows at scale one, and three rows stay for the
/// state, the completed count and the session controls; zero when scale one does not fit.
pub open spec fn glyph_scale(width: nat, height: nat, text: Seq<char>) -> nat {
    if height < 8 || big_width(text) == 0 {
        0
    } else {
        let by_width = width / big_width(text);
        let by_height = ((height - 3) / 5) as nat;
        if by_width <= by_height { by_width } else { by_height }
    }
}

/// The glyph scale fits, and the next scale does not.
pub proof fn lemma_glyph_scale_is_largest(width: nat, height: nat, text: Seq<char>)
    requires
        big_width(text) > 0,
    ensures
        big_width(text) * glyph_scale(width, height, text) <= width,
        glyph_scale(width, height, text) > 0 ==> 5 * glyph_scale(width, height, text) + 3 <= height,
        big_width(text) * (glyph_scale(width, height, text) + 1) > width || 5 * (glyph_scale(width, height,
            text) + 1) + 3 > height,
{
    let w = big_width(text);
    let k = glyph_scale(width, height, text);
    if height < 8 {
        assert(5 * (k + 1) + 3 > height);
    } else {
        let by_width = width / w;
        let by_height = ((height - 3) / 5) as nat;
        assert(w * by_width <= width && w * (by_width + 1) > width) by (nonlinear_arith)
            requires
                w > 0,
                by_width == width / w,
        ;
        assert(5 * by_height + 3 <= height && 5 * (by_height + 1) + 3 > height) by (nonlinear_arith)
            requires
                height >= 8,
                by_height == (height - 3) / 5,
        ;
        if by_width <= by_height {
            assert(5 * by_width + 3 <= height) by (nonlinear_arith)
                requires
                    by_width <= by_height,
                    5 * by_height + 3 <= height,
            ;
        } else {
            assert(w * by_height <= width) by (nonlinear_arith)
                requires
                    by_height < by_width,
                    w * by_width <= width,
                    w > 0,
            ;
        }
    }
}

/// The width of a clock text drawn in glyphs at scale one.
fn glyph_width(text: &str) -> (w: u128)
    ensures
        w as nat == big_width(text@),
{
    let n = text.unicode_len();
    let mut w: u128 = 0;
    let mut i: usize = 0;
    while i < n
        invariant
            n == text@.len(),
            i <= n,
            w as nat == big_width(text@.subrange(0, i as int)),
            w <= 7 * i,
        decreases n - i,
    {
        let ghost before = text@.subrange(0, i as int);
        assert(text@.subrange(0, i + 1).drop_last() =~= before);
        let glyph: u128 = if text.get_char(i) == ':' { 2 } else { 6 };
        if i == 0 {
            w = glyph;
        } else {
            w = w + 1 + glyph;
        }
        i = i + 1;
    }
    assert(text@.subrange(0, n as int) =~= text@);
    w
}

/// The face of a clock box `width` by `height`, borders included, showing `duration`: glyphs
/// at the largest scale that fits inside the borders, or text when even scale one does not.
pub fn clock_face(width: u16, height: u16, duration: Duration) -> (f: ClockFace)
    ensures
        ({
            let k = glyph_scale(
                if width >= 2 { (width - 2) as nat } else { 0 },
                if height >= 2 { (height - 2) as nat } else { 0 },
                clock_text(duration@ / 1_000_000_000),
            );
            f == if k == 0 { ClockFace::Text } else { ClockFace::Glyphs { scale: k as u16 } }
        }),
{
    let text = format_duration(duration);
    let inner_width: u16 = if width >= 2 { width - 2 } else { 0 };
    let inner_height: u16 = if height >= 2 { height - 2 } else { 0 };
    let glyphs = glyph_width(text.as_str());
    if inner_height < 8 || glyphs == 0 {
        return ClockFace::Text;
    }
    let by_width = inner_width as u128 / glyphs;
    let by_height = ((inner_height - 3) / 5) as u128;
    let k = if by_width <= by_height { by_width } else { by_height };
    if k == 0 {
        ClockFace::Text
    } else {
        ClockFace::Glyphs { scale: k as u16 }
    }
}

} // verus!
