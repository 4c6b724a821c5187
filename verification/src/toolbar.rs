use vstd::prelude::*;
use crate::geometry::{clamp_position, Rect};
use crate::icon::Placement;
use crate::particle::Particle;

verus! {

/// One entry of the toolbar as it is drawn.
#[derive(Clone, Copy, Debug, PartialEq, Eq, Structural)]
pub struct ToolbarOption {
    /// The cell of the entry.
    pub frame: Rect,
    /// Whether the entry is the selected one and gets a highlight border.
    pub highlighted: bool,
    /// The particle icon in the middle of the cell.
    pub icon: Placement,
}

/// The toolbar as it is drawn: a background strip, and on it the entries
/// from top to bottom.
pub struct ToolbarLayout {
    pub background: Rect,
    pub options: Vec<ToolbarOption>,
}

/// Number of entries on the toolbar: one for each class of particle.
pub const TOOLBAR_ENTRIES: usize = 3;

/// The class offered by entry `index`, counted from the top.
pub open spec fn toolbar_choice(index: int) -> Particle {
    if index == 0 {
        Particle::Positive
    } else if index == 1 {
        Particle::Negative
    } else {
        Particle::Neutral
    }
}

/// The entries of the toolbar, from top to bottom.
pub open spec fn toolbar_choices() -> Seq<Particle> {
    Seq::new(TOOLBAR_ENTRIES as nat, |index: int| toolbar_choice(index))
}

/// The toolbar takes the rightmost tenth of the canvas: it starts here.
pub open spec fn toolbar_left(width: int) -> int {
    width * 9 / 10
}

/// The height of one toolbar cell: the canvas height shared out evenly.
pub open spec fn row_height(height: int) -> int {
    height / (TOOLBAR_ENTRIES as int)
}

/// The cell of entry `index` on a canvas of the given size.
pub open spec fn option_rect(width: int, height: int, index: int) -> Rect {
    Rect::clamped(
        toolbar_left(width),
        index * row_height(height),
        width - toolbar_left(width),
        row_height(height),
    )
}

/// The strip behind the entries.
pub open spec fn background_rect(width: int, height: int) -> Rect {
    Rect::clamped(toolbar_left(width), 0, width / 10, height)
}

/// The topmost entry whose cell covers `(x, y)`, if there is one.
pub open spec fn hit_option(width: int, height: int, x: int, y: int) -> Option<int> {
    if option_rect(width, height, 0).covers(x, y) {
        Some(0)
    } else if option_rect(width, height, 1).covers(x, y) {
        Some(1)
    } else if option_rect(width, height, 2).covers(x, y) {
        Some(2)
    } else {
        None
    }
}

/// The selection after a press at `(x, y)`: the entry hit, or else the
/// selection as it was.
pub open spec fn selection_after(
    selected: Option<Particle>,
    width: int,
    height: int,
    x: int,
    y: int,
) -> Option<Particle> {
    match hit_option(width, height, x, y) {
        Some(i) => Some(toolbar_choice(i)),
        None => selected,
    }
}

/// `v` reduced to 16 bits, as two's complement does.
pub open spec fn wrapped_i16(v: int) -> i16 {
    ((v + 32768) % 65536 - 32768) as i16
}

/// Where the icon of a cell goes: its centre, rounded down.
pub open spec fn icon_in(frame: Rect, particle: Particle) -> Placement {
    Placement {
        particle,
        x: wrapped_i16(frame.x + frame.w / 2),
        y: wrapped_i16(frame.y + frame.h / 2),
    }
}

/// Entry `index` as drawn while `selected` is the selection.
pub open spec fn option_view(
    selected: Option<Particle>,
    width: int,
    height: int,
    index: int,
) -> ToolbarOption {
    let frame = option_rect(width, height, index);
    let particle = toolbar_choice(index);
    ToolbarOption {
        frame,
        highlighted: selected == Some(particle),
        icon: icon_in(frame, particle),
    }
}

/// The strip at the right edge of the canvas that offers the three classes of
/// particle and remembers which one was picked last.
pub struct Toolbar {
    selected_part: Option<Particle>,
    choices: Vec<Particle>,
}

impl Default for Toolbar {
    /// A toolbar with nothing selected.
    fn default() -> (toolbar: Toolbar)
        ensures
            toolbar.selected() == None::<Particle>,
    {
        let mut choices: Vec<Particle> = Vec::new();
        choices.push(Particle::Positive);
        choices.push(Particle::Negative);
        choices.push(Particle::Neutral);
        assert(choices@ =~= toolbar_choices());
        Toolbar { selected_part: None, choices }
    }
}

impl Toolbar {
    #[verifier::type_invariant]
    spec fn inv(&self) -> bool {
        self.choices@ == toolbar_choices()
    }

    /// The entry picked last, if any.
    pub closed spec fn selected(&self) -> Option<Particle> {
        self.selected_part
    }

    /// The cell of entry `index` on a canvas of the given size.
    pub fn get_option_rect(&self, width: u32, height: u32, index: usize) -> (r: Rect)
        requires
            index < TOOLBAR_ENTRIES,
        ensures
            r == option_rect(width as int, height as int, index as int),
            r.wf(),
    {
        proof {
            use_type_invariant(self);
        }
        let left: u32 = toolbar_edge(width);
        let row: u32 = height / (self.choices.len() as u32);
        assert(row == row_height(height as int));
        let nth: u32 = index as u32;
        assert(nth * row <= 2 * row) by (nonlinear_arith)
            requires
                nth <= 2,
                row >= 0,
        ;
        let top: u32 = nth * row;
        Rect::new(position(left), position(top), width - left, row)
    }

    pub fn get_selected_option(&self) -> (selected: Option<Particle>)
        ensures
            selected == self.selected(),
    {
        self.selected_part
    }

    /// A press at `(x, y)` selects the topmost entry whose cell covers the
    /// point; a press that hits no entry changes nothing.
    pub fn handle_mouse_down(&mut self, width: u32, height: u32, x: i32, y: i32)
        ensures
            final(self).selected() == selection_after(
                old(self).selected(),
                width as int,
                height as int,
                x as int,
                y as int,
            ),
    {
        proof {
            use_type_invariant(&*self);
        }
        let n = self.choices.len();
        let mut i: usize = 0;
        while i < n
            invariant
                i <= n,
                n == TOOLBAR_ENTRIES,
                self.choices@ == toolbar_choices(),
                self.selected_part == old(self).selected_part,
                forall|j: int|
                    0 <= j < i ==> !(#[trigger] option_rect(width as int, height as int, j)).covers(
                        x as int,
                        y as int,
                    ),
            decreases n - i,
        {
            let cell = self.get_option_rect(width, height, i);
            if cell.contains(x, y) {
                self.selected_part = Some(self.choices[i]);
                return ;
            }
            i = i + 1;
        }
    }

    /// The toolbar as it is drawn on a canvas of the given size.
    pub fn on_update(&self, width: u32, height: u32) -> (layout: ToolbarLayout)
        ensures
            layout.background == background_rect(width as int, height as int),
            layout.options@.len() == TOOLBAR_ENTRIES,
            forall|i: int|
                0 <= i < layout.options@.len() ==> layout.options@[i] == option_view(
                    self.selected(),
                    width as int,
                    height as int,
                    i,
                ),
    {
        proof {
            use_type_invariant(self);
        }
        let background = Rect::new(position(toolbar_edge(width)), 0, width / 10, height);
        let mut options: Vec<ToolbarOption> = Vec::new();
        let n = self.choices.len();
        let mut i: usize = 0;
        while i < n
            invariant
                i <= n,
                n == TOOLBAR_ENTRIES,
                self.choices@ == toolbar_choices(),
                options@.len() == i,
                forall|j: int|
                    0 <= j < i ==> options@[j] == option_view(
                        self.selected(),
                        width as int,
                        height as int,
                        j,
                    ),
            decreases n - i,
        {
            let frame = self.get_option_rect(width, height, i);
            let particle = self.choices[i];
            let highlighted = match self.selected_part {
                Some(p) => p == particle,
                None => false,
            };
            let icon = Placement {
                particle,
                x: wrap_i16(frame.x + frame.w / 2),
                y: wrap_i16(frame.y + frame.h / 2),
            };
            options.push(ToolbarOption { frame, highlighted, icon });
            i = i + 1;
        }
        ToolbarLayout { background, options }
    }
}

/// The left edge of the toolbar on a canvas `width` pixels wide.
fn toolbar_edge(width: u32) -> (left: u32)
    ensures
        left == toolbar_left(width as int),
        left <= width,
{
    ((width as u64) * 9 / 10) as u32
}

/// An unsigned coordinate as a signed one. Coordinates beyond the `i32`
/// range lie beyond what a rectangle can hold anyway.
fn position(v: u32) -> (p: i32)
    ensures
        clamp_position(p as int) == clamp_position(v as int),
{
    if v > i32::MAX as u32 {
        i32::MAX
    } else {
        v as i32
    }
}

/// `v` reduced to 16 bits. The sum is shifted by a multiple of 65536 first,
/// so that the remainder is taken of a number that is not negative.
fn wrap_i16(v: i32) -> (r: i16)
    ensures
        r == wrapped_i16(v as int),
{
    let shifted: i64 = v as i64 + 2147483648 + 32768;
    (shifted % 65536 - 32768) as i16
}

} // verus!
