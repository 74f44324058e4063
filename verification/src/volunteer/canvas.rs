//! What is to be drawn, as a list.

use vstd::prelude::*;
use vstd::string::StringExecFns;

use super::brand::Rgb;

verus! {

/// A rectangle of places in a window.
#[derive(Debug, Clone, Copy, PartialEq, Eq, Structural)]
pub struct Rect {
    pub x: u16,
    pub y: u16,
    pub width: u16,
    pub height: u16,
}

impl Rect {
    /// The places can be counted.
    pub open spec fn counts(self) -> bool {
        self.x + self.width <= u16::MAX && self.y + self.height <= u16::MAX
    }

    /// The place (`x`, `y`) is in the rectangle.
    pub open spec fn has_place(self, x: int, y: int) -> bool {
        self.x <= x < self.x + self.width && self.y <= y < self.y + self.height
    }

    /// `self` lies in `outer`.
    pub open spec fn lies_in(self, outer: Rect) -> bool {
        &&& outer.x <= self.x && self.x + self.width <= outer.x + outer.width
        &&& outer.y <= self.y && self.y + self.height <= outer.y + outer.height
    }
}

/// How text stands out.
#[derive(Debug, Clone, Copy)]
pub struct Style {
    pub fg: Rgb,
    pub bold: bool,
}

/// Something to draw.
#[derive(Debug)]
pub enum Draw {
    /// Text from a place on, cut off at the window's edge.
    Text { x: u16, y: u16, text: String, style: Style },
    /// One character at a place.
    Cell { x: u16, y: u16, ch: char, style: Style },
    /// Lines in a frame with a title.
    Panel {
        area: Rect,
        border: Rgb,
        title: Option<(String, Rgb)>,
        fill: Option<Rgb>,
        centered: bool,
        lines: Vec<(String, Rgb)>,
    },
}

/// Something to draw, its texts as characters.
#[verifier::ext_equal]
pub enum DrawModel {
    Text { x: u16, y: u16, text: Seq<char>, style: Style },
    Cell { x: u16, y: u16, ch: char, style: Style },
    Panel {
        area: Rect,
        border: Rgb,
        title: Option<(Seq<char>, Rgb)>,
        fill: Option<Rgb>,
        centered: bool,
        lines: Seq<(Seq<char>, Rgb)>,
    },
}

/// Lines and their colours, as characters.
pub open spec fn lines_view(s: Seq<(String, Rgb)>) -> Seq<(Seq<char>, Rgb)> {
    s.map_values(|e: (String, Rgb)| (e.0@, e.1))
}

/// A title and its colour, as characters.
pub open spec fn title_view(t: Option<(String, Rgb)>) -> Option<(Seq<char>, Rgb)> {
    match t {
        Some((s, c)) => Some((s@, c)),
        None => None,
    }
}

impl View for Draw {
    type V = DrawModel;

    open spec fn view(&self) -> DrawModel {
        match self {
            Draw::Text { x, y, text, style } => DrawModel::Text {
                x: *x,
                y: *y,
                text: text@,
                style: *style,
            },
            Draw::Cell { x, y, ch, style } => DrawModel::Cell { x: *x, y: *y, ch: *ch, style: *style },
            Draw::Panel { area, border, title, fill, centered, lines } => DrawModel::Panel {
                area: *area,
                border: *border,
                title: title_view(*title),
                fill: *fill,
                centered: *centered,
                lines: lines_view(lines@),
            },
        }
    }
}

/// A list of things to draw, in order.
#[derive(Debug)]
pub struct Canvas {
    pub draws: Vec<Draw>,
}

impl View for Canvas {
    type V = Seq<DrawModel>;

    open spec fn view(&self) -> Seq<DrawModel> {
        self.draws@.map_values(|d: Draw| d@)
    }
}

/// A style in a colour.
pub open spec fn ink(fg: Rgb) -> Style {
    Style { fg, bold: false }
}

/// A style in a colour, bold.
pub open spec fn bold(fg: Rgb) -> Style {
    Style { fg, bold: true }
}

/// Text from a place on.
pub open spec fn text_at(x: int, y: int, text: Seq<char>, style: Style) -> DrawModel {
    DrawModel::Text { x: x as u16, y: y as u16, text, style }
}

/// One character at a place.
pub open spec fn cell_at(x: int, y: int, ch: char, style: Style) -> DrawModel {
    DrawModel::Cell { x: x as u16, y: y as u16, ch, style }
}

/// A style in a colour.
pub fn plain_style(fg: Rgb) -> (r: Style)
    ensures
        r == ink(fg),
{
    Style { fg, bold: false }
}

/// A style in a colour, bold.
pub fn bold_style(fg: Rgb) -> (r: Style)
    ensures
        r == bold(fg),
{
    Style { fg, bold: true }
}

impl Canvas {
    /// Nothing to draw.
    pub fn new() -> (r: Self)
        ensures
            r@ == Seq::<DrawModel>::empty(),
    {
        let r = Canvas { draws: Vec::new() };
        assert(r@ =~= Seq::<DrawModel>::empty());
        r
    }

    fn add_draw(&mut self, d: Draw)
        ensures
            final(self)@ == old(self)@.push(d@),
    {
        self.draws.push(d);
        assert(self@ =~= old(self)@.push(d@));
    }

    /// Text from a place on.
    pub fn text(&mut self, x: u16, y: u16, text: &str, style: Style)
        ensures
            final(self)@ == old(self)@.push(text_at(x as int, y as int, text@, style)),
    {
        self.add_draw(Draw::Text { x, y, text: text.to_string(), style });
    }

    /// One character at a place.
    pub fn cell(&mut self, x: u16, y: u16, ch: char, style: Style)
        ensures
            final(self)@ == old(self)@.push(cell_at(x as int, y as int, ch, style)),
    {
        self.add_draw(Draw::Cell { x, y, ch, style });
    }

    /// Lines in a frame with a title.
    pub fn panel(
        &mut self,
        area: Rect,
        border: Rgb,
        title: Option<(String, Rgb)>,
        fill: Option<Rgb>,
        centered: bool,
        lines: Vec<(String, Rgb)>,
    )
        ensures
            final(self)@ == old(self)@.push(
                DrawModel::Panel {
                    area,
                    border,
                    title: title_view(title),
                    fill,
                    centered,
                    lines: lines_view(lines@),
                },
            ),
    {
        self.add_draw(Draw::Panel { area, border, title, fill, centered, lines });
    }
}

/// How many places a text takes: its characters, in 16 bits.
pub open spec fn places(s: Seq<char>) -> u16 {
    (s.len() % 0x1_0000) as u16
}

/// How many places a text takes.
pub fn str_w(s: &str) -> (r: u16)
    ensures
        r == places(s@),
{
    (s.unicode_len() % 0x1_0000) as u16
}

/// Nothing is drawn outside `window`: a text begins in one of its rows, a character stands in one of
/// its places, and a panel's area lies in it.
pub open spec fn stays_in(d: DrawModel, window: Rect) -> bool {
    match d {
        DrawModel::Text { x, y, text, style } => window.y <= y < window.y + window.height && window.x
            <= x,
        DrawModel::Cell { x, y, ch, style } => window.has_place(x as int, y as int),
        DrawModel::Panel { area, .. } => area.lies_in(window),
    }
}

/// Nothing of a list is drawn outside `window`.
pub open spec fn all_stay_in(s: Seq<DrawModel>, window: Rect) -> bool {
    forall|i: int| 0 <= i < s.len() ==> stays_in(#[trigger] s[i], window)
}

} // verus!
