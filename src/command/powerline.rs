//! A prompt line made of coloured segments, each opened by a divider that
//! depends on the segment before it.
use vstd::prelude::*;
use vstd::string::StringExecFns;

verus! {

/// A terminal colour, by its SGR digit.
#[derive(Clone, Copy, Debug, PartialEq, Eq, Structural)]
pub enum Color {
    Black,
    Red,
    Green,
    Yellow,
    Blue,
    Magenta,
    Cyan,
    Reset,
}

/// The SGR digit of a colour.
pub open spec fn digit(c: Color) -> Seq<char> {
    match c {
        Color::Black => "0"@,
        Color::Red => "1"@,
        Color::Green => "2"@,
        Color::Yellow => "3"@,
        Color::Blue => "4"@,
        Color::Magenta => "5"@,
        Color::Cyan => "6"@,
        Color::Reset => "9"@,
    }
}

/// The SGR digit of a colour.
pub fn color_digit(c: Color) -> (r: &'static str)
    ensures
        r@ == digit(c),
{
    match c {
        Color::Black => "0",
        Color::Red => "1",
        Color::Green => "2",
        Color::Yellow => "3",
        Color::Blue => "4",
        Color::Magenta => "5",
        Color::Cyan => "6",
        Color::Reset => "9",
    }
}

/// One segment of a line: its background, foreground and text.
pub struct Segment {
    pub bg: Color,
    pub fg: Color,
    pub text: Seq<char>,
}

/// A segment.
pub open spec fn seg(bg: Color, fg: Color, text: Seq<char>) -> Segment {
    Segment { bg, fg, text }
}

/// `seq![s]` where `cond` holds, else nothing.
pub open spec fn seg_if(cond: bool, s: Segment) -> Seq<Segment> {
    if cond {
        seq![s]
    } else {
        Seq::empty()
    }
}

/// What opens a segment on background `to` with foreground `fg` after a
/// segment on background `last`: the first segment sets both colours; one
/// on the same background only a space and the foreground; one on another
/// background the divider glyph in the old background's colour.
pub open spec fn divider(last: Option<Color>, to: Color, fg: Color) -> Seq<char> {
    match last {
        Option::None => "\x1b[3"@ + digit(fg) + ";4"@ + digit(to) + "m "@,
        Option::Some(l) => if l == to {
            " \x1b[3"@ + digit(fg) + "m"@
        } else {
            " \x1b[3"@ + digit(l) + ";4"@ + digit(to) + "m"@ + "\u{e0b0}"@ + "\x1b[3"@ + digit(fg)
                + "m "@
        },
    }
}

/// The background of the last segment.
pub open spec fn last_bg(segs: Seq<Segment>) -> Option<Color> {
    if segs.len() == 0 {
        Option::None
    } else {
        Option::Some(segs.last().bg)
    }
}

/// The text of a line of segments.
pub open spec fn line_text(segs: Seq<Segment>) -> Seq<char>
    decreases segs.len(),
{
    if segs.len() == 0 {
        Seq::empty()
    } else {
        let s = segs.last();
        line_text(segs.drop_last()) + divider(last_bg(segs.drop_last()), s.bg, s.fg) + s.text
    }
}

/// The divider before the first segment.
fn first_divider(to: Color, fg: Color) -> (r: String)
    ensures
        r@ == "\x1b[3"@ + digit(fg) + ";4"@ + digit(to) + "m "@,
{
    String::from_str("\x1b[3").concat(color_digit(fg)).concat(";4").concat(color_digit(to)).concat(
        "m ",
    )
}

/// The divider between two segments on one background.
fn same_divider(fg: Color) -> (r: String)
    ensures
        r@ == " \x1b[3"@ + digit(fg) + "m"@,
{
    String::from_str(" \x1b[3").concat(color_digit(fg)).concat("m")
}

/// The divider between segments on two backgrounds.
fn change_divider(last: Color, to: Color, fg: Color) -> (r: String)
    ensures
        r@ == " \x1b[3"@ + digit(last) + ";4"@ + digit(to) + "m"@ + "\u{e0b0}"@ + "\x1b[3"@
            + digit(fg) + "m "@,
{
    String::from_str(" \x1b[3").concat(color_digit(last)).concat(";4").concat(
        color_digit(to),
    ).concat("m").concat("\u{e0b0}").concat("\x1b[3").concat(color_digit(fg)).concat("m ")
}

/// The divider that opens a segment on `to` with foreground `fg`.
pub fn divider_text(last: Option<Color>, to: Color, fg: Color) -> (r: String)
    ensures
        r@ == divider(last, to, fg),
{
    match last {
        Option::None => first_divider(to, fg),
        Option::Some(l) => if l == to {
            same_divider(fg)
        } else {
            change_divider(l, to, fg)
        },
    }
}

/// A line being written, segment by segment.
pub struct Line {
    pub text: String,
    pub last: Option<Color>,
    pub segs: Ghost<Seq<Segment>>,
}

impl Line {
    /// Whether the text and the last background are those of the segments.
    pub open spec fn wf(&self) -> bool {
        self.text@ == line_text(self.segs@) && self.last == last_bg(self.segs@)
    }

    /// An empty line.
    pub fn new() -> (r: Line)
        ensures
            r.wf(),
            r.segs@ == Seq::<Segment>::empty(),
    {
        Line { text: String::new(), last: Option::None, segs: Ghost(Seq::empty()) }
    }

    /// Opens a segment on `bg` with foreground `fg`; its text follows.
    pub fn open(&mut self, bg: Color, fg: Color)
        requires
            old(self).wf(),
        ensures
            final(self).text@ == old(self).text@ + divider(old(self).last, bg, fg),
            final(self).last == Option::Some(bg),
    {
        let d = divider_text(self.last, bg, fg);
        self.text.append(d.as_str());
        self.last = Option::Some(bg);
    }

    /// Adds a segment on `bg` with foreground `fg` and the given text.
    pub fn push(&mut self, bg: Color, fg: Color, text: &str)
        requires
            old(self).wf(),
        ensures
            final(self).wf(),
            final(self).segs@ == old(self).segs@.push(seg(bg, fg, text@)),
    {
        let ghost segs = self.segs@.push(seg(bg, fg, text@));
        self.open(bg, fg);
        self.text.append(text);
        self.segs = Ghost(segs);
        proof {
            assert(segs.drop_last() =~= old(self).segs@);
            assert(self.text@ =~= line_text(segs));
        }
    }
}

} // verus!
