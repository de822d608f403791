//! The status bar: a status or error message on the left, the countdown to
//! the next refresh on the right, separated by a vertical bar.

use vstd::prelude::*;

use crate::text::{decimal, display_width, push_decimal, str_width};
use crate::viewport::sat_sub;

verus! {

/// How long ago the data was last refreshed, as read from the clock.
#[derive(Clone, Copy, Debug, PartialEq, Eq, Structural)]
pub enum RefreshState {
    /// No refresh has happened yet.
    NotLoaded,
    /// The last refresh was this many seconds ago.
    Elapsed(u64),
    /// The clock reads a time before the last refresh.
    ClockAhead,
}

/// The system state the status bar shows.
#[derive(Debug)]
pub struct SystemStatus {
    pub refresh: RefreshState,
    pub refresh_interval: u32,
    pub status_message: Option<String>,
    pub status_is_error: bool,
}

/// The status bar component.
#[derive(Debug)]
pub struct StatusBar;

/// The widget that draws the status bar.
#[derive(Debug)]
pub struct StatusBarWidget {
    pub refresh: RefreshState,
    pub refresh_interval: u32,
    pub status_message: Option<String>,
    pub is_error: bool,
}

/// `a - b`, or 0 where `b > a`.
pub open spec fn sat_sub32(a: u32, b: u32) -> u32 {
    if a >= b {
        (a - b) as u32
    } else {
        0
    }
}

/// The text on the right: "Loading..." before the first refresh, the
/// seconds left until the next one ("Refresh in 55s"), "Refreshing..." when
/// none are left, and "Refresh in ?s" when the clock reads a time before the
/// last refresh.  The elapsed seconds are taken modulo 2^32.
pub open spec fn refresh_text(refresh: RefreshState, interval: u32) -> Seq<char> {
    match refresh {
        RefreshState::NotLoaded => "Loading..."@,
        RefreshState::ClockAhead => "Refresh in ?s"@,
        RefreshState::Elapsed(secs) => {
            let remaining = sat_sub32(interval, secs as u32);
            if remaining > 0 {
                "Refresh in "@ + decimal(remaining as nat) + "s"@
            } else {
                "Refreshing..."@
            }
        },
    }
}

/// The message on the left (empty without one).
pub open spec fn left_text(message: Option<String>) -> Seq<char> {
    match message {
        Some(m) => m@,
        None => Seq::empty(),
    }
}

/// The column of the vertical bar: the width less the right text with its
/// margin and one more column.
pub open spec fn bar_position(width: u16, right_width: usize) -> u16 {
    sat_sub(width, ((right_width as u16) + 1) as u16)
}

/// The columns the left part takes: nothing without a message, otherwise a
/// space and the message.
pub open spec fn left_columns(left: Seq<char>, left_width: usize) -> u16 {
    (if left.len() == 0 {
        0usize
    } else {
        (left_width + 1) as usize
    }) as u16
}

/// How the message on the left is drawn.
#[derive(Clone, Copy, Debug, PartialEq, Eq, Structural)]
pub enum MessageStyle {
    /// An error: drawn in red.
    Error,
    /// A plain status message: drawn in the text colour.
    Normal,
}

/// The style of the message: red for an error, plain otherwise.
pub open spec fn message_style_of(is_error: bool) -> MessageStyle {
    if is_error {
        MessageStyle::Error
    } else {
        MessageStyle::Normal
    }
}

/// The layout of the two lines of the status bar.  The second line holds,
/// when there is a message, a space and the message drawn in its style,
/// then the padding, the vertical bar, a space and the refresh text.
#[derive(Debug)]
pub struct StatusBarLayout {
    /// Column of the vertical bar (and of the connector above it).
    pub bar_position: u16,
    /// The message on the left; empty without one.
    pub left_text: String,
    /// The refresh text on the right.
    pub right_text: String,
    /// Spaces between the left part and the vertical bar.
    pub padding: usize,
    /// Horizontal line characters after the connector on the first line.
    pub right_fill: u16,
    /// How the message is drawn.
    pub message_style: MessageStyle,
}

impl StatusBar {
    /// The widget showing the given system state.
    pub fn view(&self, props: &SystemStatus) -> (w: StatusBarWidget)
        ensures
            w.refresh == props.refresh,
            w.refresh_interval == props.refresh_interval,
            left_text(w.status_message) == left_text(props.status_message),
            w.status_message is Some <==> props.status_message is Some,
            w.is_error == props.status_is_error,
    {
        StatusBarWidget {
            refresh: props.refresh,
            refresh_interval: props.refresh_interval,
            status_message: match &props.status_message {
                Some(m) => Some(m.clone()),
                None => None,
            },
            is_error: props.status_is_error,
        }
    }
}

impl StatusBarWidget {
    /// The refresh text shown on the right.
    pub fn refresh_text(&self) -> (s: String)
        ensures
            s@ == refresh_text(self.refresh, self.refresh_interval),
    {
        proof {
            reveal_strlit("Loading...");
            reveal_strlit("Refresh in ?s");
            reveal_strlit("Refresh in ");
            reveal_strlit("s");
            reveal_strlit("Refreshing...");
        }
        match self.refresh {
            RefreshState::NotLoaded => String::from_str("Loading..."),
            RefreshState::ClockAhead => String::from_str("Refresh in ?s"),
            RefreshState::Elapsed(secs) => {
                let remaining = self.refresh_interval.saturating_sub(secs as u32);
                if remaining > 0 {
                    let mut s = String::from_str("Refresh in ");
                    push_decimal(&mut s, remaining as u64);
                    s.append("s");
                    s
                } else {
                    String::from_str("Refreshing...")
                }
            },
        }
    }

    /// The layout of the status bar in `width` columns, given the display
    /// width of the refresh text with its trailing space and that of the
    /// message.
    pub fn layout_with_widths(&self, width: u16, right_width: usize, left_width: usize) -> (l:
        StatusBarLayout)
        requires
            (right_width as u16) < u16::MAX,
            left_text(self.status_message).len() > 0 ==> left_width < usize::MAX,
        ensures
            l.right_text@ == refresh_text(self.refresh, self.refresh_interval),
            l.left_text@ == left_text(self.status_message),
            l.bar_position == bar_position(width, right_width),
            l.padding == sat_sub(
                l.bar_position,
                left_columns(left_text(self.status_message), left_width),
            ),
            l.right_fill == sat_sub(width, (l.bar_position + 1) as u16),
            l.message_style == message_style_of(self.is_error),
    {
        let right_text = self.refresh_text();
        let bar = width.saturating_sub(right_width as u16 + 1);
        let left = match &self.status_message {
            Some(m) => m.clone(),
            None => String::new(),
        };
        let left_len: usize = if left.unicode_len() == 0 {
            0
        } else {
            left_width + 1
        };
        let padding = bar.saturating_sub(left_len as u16) as usize;
        let right_fill = width.saturating_sub(bar + 1);
        let message_style = if self.is_error {
            MessageStyle::Error
        } else {
            MessageStyle::Normal
        };
        StatusBarLayout {
            bar_position: bar,
            left_text: left,
            right_text,
            padding,
            right_fill,
            message_style,
        }
    }

    /// The layout of the status bar in `width` columns, with display widths
    /// measured by `unicode-width`; None where the refresh text is as wide
    /// as the 16-bit column range or the message as wide as `usize::MAX`.
    pub fn layout(&self, width: u16) -> (r: Option<StatusBarLayout>)
        ensures
            ({
                let right = refresh_text(self.refresh, self.refresh_interval) + " "@;
                let left = left_text(self.status_message);
                let ok = (display_width(right) as u16) < u16::MAX && (left.len() > 0
                    ==> display_width(left) < usize::MAX);
                match r {
                    Some(l) => ok && l.right_text@ == right.drop_last() && l.left_text@ == left
                        && l.bar_position == bar_position(width, display_width(right))
                        && l.padding == sat_sub(
                        l.bar_position,
                        left_columns(left, display_width(left)),
                    ) && l.right_fill == sat_sub(width, (l.bar_position + 1) as u16)
                        && l.message_style == message_style_of(self.is_error),
                    None => !ok,
                }
            }),
    {
        let mut margin = self.refresh_text();
        margin.append(" ");
        proof {
            reveal_strlit(" ");
        }
        let right_width = str_width(margin.as_str());
        let (has_left, left_width) = match &self.status_message {
            Some(m) => (m.unicode_len() > 0, str_width(m.as_str())),
            None => (false, 0),
        };
        if right_width as u16 == u16::MAX || (has_left && left_width == usize::MAX) {
            return None;
        }
        let l = self.layout_with_widths(width, right_width, left_width);
        assert(l.right_text@ =~= margin@.drop_last());
        Some(l)
    }

    /// A boxed copy of the widget.
    pub fn clone_box(&self) -> (b: Box<Self>)
        ensures
            b.refresh == self.refresh,
            b.refresh_interval == self.refresh_interval,
            left_text(b.status_message) == left_text(self.status_message),
            b.is_error == self.is_error,
    {
        Box::new(
            StatusBarWidget {
                refresh: self.refresh,
                refresh_interval: self.refresh_interval,
                status_message: match &self.status_message {
                    Some(m) => Some(m.clone()),
                    None => None,
                },
                is_error: self.is_error,
            },
        )
    }

    /// The height of the status bar: a separator line and a status line.
    pub fn preferred_height(&self) -> (h: Option<u16>)
        ensures
            h == Some(2u16),
    {
        Some(2)
    }
}

} // verus!
