//! The footer's stable metrics: how tall the help of each focus is at a width, from which
//! width the help is shown, and how many rows the footer takes.
use vstd::prelude::*;

use super::help::{normal_help, normal_help_text};
use super::wrap::{help_item_width, help_item_width_of, viable_help_height, viable_help_height_of};
use crate::app::UiFocus;
use crate::config::KeysConfig;

verus! {

/// The rows a bordered clock needs to draw its time in glyphs: five glyph rows, the state,
/// completed-count and session-control rows, and two borders.
pub const CLOCK_HEIGHT: u16 = 10;

/// The wrapped help height of each focus at one width, `None` where some help item does not
/// fit whole.
#[derive(Debug, Clone, Copy, PartialEq, Eq, Structural)]
pub struct FooterHeights {
    pub clock: Option<u16>,
    pub todo: Option<u16>,
    pub done: Option<u16>,
}

/// The rows the footer reserves so that every focus's help fits: the largest of the three
/// heights, or `None` when any help does not fit.
pub open spec fn reserve_of(h: FooterHeights) -> Option<u16> {
    match (h.clock, h.todo, h.done) {
        (Some(a), Some(b), Some(c)) => Some(
            if a >= b && a >= c {
                a
            } else if b >= c {
                b
            } else {
                c
            },
        ),
        _ => None,
    }
}

impl FooterHeights {
    /// The rows the footer reserves so that every focus's help fits.
    pub fn reserve(&self) -> (r: Option<u16>)
        ensures
            r == reserve_of(*self),
    {
        match (self.clock, self.todo, self.done) {
            (Some(a), Some(b), Some(c)) => Some(
                if a >= b && a >= c {
                    a
                } else if b >= c {
                    b
                } else {
                    c
                },
            ),
            _ => None,
        }
    }
}

/// The footer height at `width`: nothing below the cutoff or when some help does not fit,
/// else the whole reserve.
pub open spec fn effective_height(width: u16, cutoff: u16, heights: FooterHeights) -> u16 {
    if width < cutoff {
        0
    } else {
        match reserve_of(heights) {
            Some(r) => r,
            None => 0,
        }
    }
}

/// The footer height at `width`: nothing below the cutoff or when some help does not fit,
/// else the whole reserve.
pub fn effective_footer_height(width: u16, cutoff: u16, heights: FooterHeights) -> (h: u16)
    ensures
        h == effective_height(width, cutoff, heights),
{
    if width < cutoff {
        0
    } else {
        match heights.reserve() {
            Some(r) => r,
            None => 0,
        }
    }
}

/// The rows the footer takes in a workspace `width` by `height`: its whole effective height
/// when a clock's height is left above it, else none, so that help is never cut down.
pub fn footer_height(width: u16, height: u16, cutoff: u16, heights: FooterHeights) -> (h: u16)
    ensures
        h == if height as int >= CLOCK_HEIGHT + effective_height(width, cutoff, heights) {
            effective_height(width, cutoff, heights)
        } else {
            0
        },
{
    let reserve = effective_footer_height(width, cutoff, heights);
    if height as u32 >= CLOCK_HEIGHT as u32 + reserve as u32 {
        reserve
    } else {
        0
    }
}

/// A height as a `u16`, kept when it is one.
pub open spec fn short_height(h: Option<nat>) -> Option<u16> {
    match h {
        Some(x) => Some(x as u16),
        None => None,
    }
}

/// The help heights of the three focuses at `width`.
pub open spec fn heights_at(keys: Seq<Seq<crate::config::ConfigKey>>, width: nat) -> FooterHeights {
    FooterHeights {
        clock: short_height(viable_help_height_of(normal_help(keys, UiFocus::Clock), width)),
        todo: short_height(viable_help_height_of(normal_help(keys, UiFocus::Todo), width)),
        done: short_height(viable_help_height_of(normal_help(keys, UiFocus::Done), width)),
    }
}

/// The width of the widest help item of any focus.
pub open spec fn item_width_of(keys: Seq<Seq<crate::config::ConfigKey>>) -> nat {
    let a = help_item_width_of(normal_help(keys, UiFocus::Clock));
    let b = help_item_width_of(normal_help(keys, UiFocus::Todo));
    let c = help_item_width_of(normal_help(keys, UiFocus::Done));
    if a >= b && a >= c {
        a
    } else if b >= c {
        b
    } else {
        c
    }
}

/// Whether at `width` every focus's help fits and the reserve is at most a clock's height.
pub open spec fn footer_fits(keys: Seq<Seq<crate::config::ConfigKey>>, width: nat) -> bool {
    reserve_of(heights_at(keys, width)) matches Some(r) && r <= CLOCK_HEIGHT
}

/// The footer's metrics: the help heights at the workspace width, the widest help item, the
/// narrowest width from which the reserve is at most a clock's height, and the cutoff below
/// which no help is shown.
#[derive(Debug, Clone, Copy, PartialEq, Eq, Structural)]
pub struct FooterMetrics {
    pub heights: FooterHeights,
    pub item_width: u16,
    pub height_width: u16,
    pub cutoff: u16,
}

fn help_heights(clock: &str, todo: &str, done: &str, width: u16) -> (h: FooterHeights)
    ensures
        h.clock == short_height(viable_help_height_of(clock@, width as nat)),
        h.todo == short_height(viable_help_height_of(todo@, width as nat)),
        h.done == short_height(viable_help_height_of(done@, width as nat)),
{
    FooterHeights {
        clock: viable_help_height(clock, width),
        todo: viable_help_height(todo, width),
        done: viable_help_height(done, width),
    }
}

/// The footer metrics for these keys in a workspace `width` columns wide.
pub fn stable_footer_metrics(keys: &KeysConfig, width: u16) -> (m: FooterMetrics)
    ensures
        m.heights == heights_at(keys@, width as nat),
        m.item_width == item_width_of(keys@),
        (if m.item_width >= 1 { m.item_width } else { 1 }) <= m.height_width,
        forall|w: nat|
            (if m.item_width >= 1 { m.item_width as nat } else { 1 }) <= w < m.height_width ==> !#[trigger] footer_fits(
                keys@,
                w,
            ),
        m.height_width == u16::MAX || footer_fits(keys@, m.height_width as nat),
        m.cutoff == if m.item_width >= m.height_width { m.item_width } else { m.height_width },
{
    let clock = normal_help_text(keys, UiFocus::Clock);
    let todo = normal_help_text(keys, UiFocus::Todo);
    let done = normal_help_text(keys, UiFocus::Done);
    let a = help_item_width(clock.as_str());
    let b = help_item_width(todo.as_str());
    let c = help_item_width(done.as_str());
    let item_width = if a >= b && a >= c {
        a
    } else if b >= c {
        b
    } else {
        c
    };
    let low: u16 = if item_width >= 1 { item_width } else { 1 };
    let mut candidate: u16 = low;
    let mut height_width: u16 = u16::MAX;
    loop
        invariant_except_break
            low <= candidate,
            clock@ == normal_help(keys@, UiFocus::Clock),
            todo@ == normal_help(keys@, UiFocus::Todo),
            done@ == normal_help(keys@, UiFocus::Done),
            height_width == u16::MAX,
            forall|w: nat| low <= w < candidate ==> !#[trigger] footer_fits(keys@, w),
        ensures
            low <= height_width,
            forall|w: nat| low <= w < height_width ==> !#[trigger] footer_fits(keys@, w),
            height_width == u16::MAX || footer_fits(keys@, height_width as nat),
        decreases u16::MAX - candidate,
    {
        let heights = help_heights(clock.as_str(), todo.as_str(), done.as_str(), candidate);
        let fits = match heights.reserve() {
            Some(r) => r <= CLOCK_HEIGHT,
            None => false,
        };
        if fits {
            height_width = candidate;
            break;
        }
        if candidate == u16::MAX {
            break;
        }
        candidate = candidate + 1;
    }
    let heights = help_heights(clock.as_str(), todo.as_str(), done.as_str(), width);
    let cutoff = if item_width >= height_width { item_width } else { height_width };
    FooterMetrics { heights, item_width, height_width, cutoff }
}

} // verus!
