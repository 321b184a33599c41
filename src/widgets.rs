//! Draw commands: what one frame asks the display surface to draw, in order.
//! Later commands are drawn over earlier ones.
use crate::geometry::{clip, clip_spec, lemma_clip_inside, Rect};
use crate::style::Style;
use vstd::prelude::*;

verus! {

/// One line of a selection list.
#[derive(Debug)]
pub struct ListLine {
    pub text: String,
    pub style: Style,
}

/// One draw command for the display surface.
#[derive(Debug)]
pub enum Widget {
    /// Text clipped to `area`.
    Text { area: Rect, text: String, style: Style },
    /// A bordered block with a title in its top border, filling `area` with `style`.
    Block { area: Rect, title: String, style: Style },
    /// Text inside a bordered block; an empty title draws none.
    Boxed { area: Rect, title: String, text: String, style: Style, centered: bool },
    /// A horizontal gauge filled to `percent`, inside a bordered block when `title`
    /// is given; without a label the surface shows the percentage.
    Gauge { area: Rect, title: Option<String>, label: Option<String>, percent: u16, style: Style },
    /// A bordered, titled list of styled lines.
    List { area: Rect, title: String, items: Vec<ListLine> },
}

/// The mathematical value of a draw command: strings seen as character sequences.
pub enum Drawn {
    Text { area: Rect, text: Seq<char>, style: Style },
    Block { area: Rect, title: Seq<char>, style: Style },
    Boxed { area: Rect, title: Seq<char>, text: Seq<char>, style: Style, centered: bool },
    Gauge {
        area: Rect,
        title: Option<Seq<char>>,
        label: Option<Seq<char>>,
        percent: u16,
        style: Style,
    },
    List { area: Rect, title: Seq<char>, items: Seq<(Seq<char>, Style)> },
}

impl Drawn {
    pub open spec fn area(self) -> Rect {
        match self {
            Drawn::Text { area, .. } => area,
            Drawn::Block { area, .. } => area,
            Drawn::Boxed { area, .. } => area,
            Drawn::Gauge { area, .. } => area,
            Drawn::List { area, .. } => area,
        }
    }
}

pub open spec fn opt_view(s: Option<String>) -> Option<Seq<char>> {
    match s {
        Some(t) => Some(t@),
        None => None,
    }
}

impl View for Widget {
    type V = Drawn;

    open spec fn view(&self) -> Drawn {
        match self {
            Widget::Text { area, text, style } => Drawn::Text { area: *area, text: text@, style: *style },
            Widget::Block { area, title, style } => Drawn::Block {
                area: *area,
                title: title@,
                style: *style,
            },
            Widget::Boxed { area, title, text, style, centered } => Drawn::Boxed {
                area: *area,
                title: title@,
                text: text@,
                style: *style,
                centered: *centered,
            },
            Widget::Gauge { area, title, label, percent, style } => Drawn::Gauge {
                area: *area,
                title: opt_view(*title),
                label: opt_view(*label),
                percent: *percent,
                style: *style,
            },
            Widget::List { area, title, items } => Drawn::List {
                area: *area,
                title: title@,
                items: items@.map_values(|l: ListLine| (l.text@, l.style)),
            },
        }
    }
}

/// The draw commands of a sequence of widgets.
pub open spec fn drawn(ws: Seq<Widget>) -> Seq<Drawn> {
    ws.map_values(|w: Widget| w@)
}

/// Every command lies inside `area` and covers at least one cell.
pub open spec fn all_inside(ds: Seq<Drawn>, area: Rect) -> bool {
    forall|i: int|
        0 <= i < ds.len() ==> area.contains(#[trigger] ds[i].area()) && ds[i].area().width > 0
            && ds[i].area().height > 0
}

/// The concatenation of `f(0)`, ..., `f(n - 1)`.
pub open spec fn gather(n: int, f: spec_fn(int) -> Seq<Drawn>) -> Seq<Drawn>
    decreases n,
{
    if n <= 0 {
        seq![]
    } else {
        gather(n - 1, f) + f(n - 1)
    }
}

/// `s` written `n` times in a row.
pub open spec fn repeat_text(s: Seq<char>, n: int) -> Seq<char>
    decreases n,
{
    if n <= 0 {
        seq![]
    } else {
        repeat_text(s, n - 1) + s
    }
}

/// The text command that `put` issues: the box clipped to `area`, or nothing.
#[verifier::opaque]
pub open spec fn put_spec(
    area: Rect,
    x: int,
    y: int,
    w: int,
    h: int,
    text: Seq<char>,
    style: Style,
) -> Seq<Drawn> {
    match clip_spec(area, x, y, w, h) {
        Some(r) => seq![Drawn::Text { area: r, text, style }],
        None => seq![],
    }
}

pub proof fn lemma_all_inside_concat(a: Seq<Drawn>, b: Seq<Drawn>, area: Rect)
    requires
        all_inside(a, area),
        all_inside(b, area),
    ensures
        all_inside(a + b, area),
{
    assert forall|i: int| 0 <= i < (a + b).len() implies area.contains(#[trigger] (a + b)[i].area())
        && (a + b)[i].area().width > 0 && (a + b)[i].area().height > 0 by {
        if i < a.len() {
            assert((a + b)[i] == a[i]);
        } else {
            assert((a + b)[i] == b[i - a.len()]);
        }
    }
}

pub proof fn lemma_put_inside(area: Rect, x: int, y: int, w: int, h: int, text: Seq<char>, style: Style)
    requires
        area.wf(),
    ensures
        all_inside(put_spec(area, x, y, w, h, text, style), area),
{
    reveal(put_spec);
    lemma_clip_inside(area, x, y, w, h);
}

/// Appends one widget.
pub fn push_widget(out: &mut Vec<Widget>, w: Widget)
    ensures
        drawn(final(out)@) == drawn(old(out)@).push(w@),
{
    out.push(w);
    assert(drawn(out@) =~= drawn(old(out)@).push(w@));
}

/// Appends `text` in the `w` by `h` box at `(x, y)`, clipped to `area`; draws
/// nothing when no cell of the box lies inside.
pub fn put(
    out: &mut Vec<Widget>,
    area: Rect,
    x: i32,
    y: i32,
    w: u16,
    h: u16,
    text: &str,
    style: Style,
)
    requires
        area.wf(),
    ensures
        drawn(final(out)@) == drawn(old(out)@) + put_spec(
            area,
            x as int,
            y as int,
            w as int,
            h as int,
            text@,
            style,
        ),
{
    put_string(out, area, x, y, w, h, String::from_str(text), style);
}

/// `put` for an owned string.
pub fn put_string(
    out: &mut Vec<Widget>,
    area: Rect,
    x: i32,
    y: i32,
    w: u16,
    h: u16,
    text: String,
    style: Style,
)
    requires
        area.wf(),
    ensures
        drawn(final(out)@) == drawn(old(out)@) + put_spec(
            area,
            x as int,
            y as int,
            w as int,
            h as int,
            text@,
            style,
        ),
{
    reveal(put_spec);
    let ghost before = drawn(out@);
    match clip(area, x, y, w, h) {
        Some(r) => {
            let ghost t = text@;
            push_widget(out, Widget::Text { area: r, text, style });
            assert(drawn(out@) =~= before + seq![Drawn::Text { area: r, text: t, style }]);
        },
        None => {
            assert(drawn(out@) =~= before + seq![]);
        },
    }
}

/// `glyph` written `n` times in a row.
pub fn repeat_str(glyph: &str, n: u16) -> (r: String)
    ensures
        r@ == repeat_text(glyph@, n as int),
{
    let mut s = String::new();
    let mut i: u16 = 0;
    while i < n
        invariant
            i <= n,
            s@ == repeat_text(glyph@, i as int),
        decreases n - i,
    {
        s.append(glyph);
        i = i + 1;
    }
    s
}

} // verus!
