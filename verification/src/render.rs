//! Drawing a module's frame on a character terminal: which characters go
//! where. Writing them to a terminal is the caller's part.

use vstd::prelude::*;

verus! {

/// An axis-aligned rectangle in terminal cells.
#[derive(Clone, Copy, Debug, PartialEq, Eq, Structural)]
pub struct Rect {
    pub x: i32,
    pub y: i32,
    pub width: i32,
    pub height: i32,
}

/// One step of drawing: moving the cursor to a cell, or printing a
/// character where the cursor stands.
#[derive(Clone, Copy, Debug, PartialEq, Eq, Structural)]
pub enum TerminalOp {
    MoveTo { x: i32, y: i32 },
    Print(char),
}

/// The dashes of a horizontal edge of a frame `width` cells wide: one fewer
/// than the width, and none for a width below 2.
pub open spec fn dashes(width: int) -> Seq<TerminalOp> {
    Seq::new(
        if width > 1 {
            (width - 1) as nat
        } else {
            0
        },
        |i: int| TerminalOp::Print('-'),
    )
}

/// A vertical edge of `count` bars in column `x`, from row `y` downwards:
/// for each bar, the move to its cell and the bar.
pub open spec fn bars(x: int, y: int, count: int) -> Seq<TerminalOp> {
    Seq::new(
        if count > 0 {
            (2 * count) as nat
        } else {
            0
        },
        |i: int|
            if i % 2 == 0 {
                TerminalOp::MoveTo { x: x as i32, y: (y + i / 2) as i32 }
            } else {
                TerminalOp::Print('|')
            },
    )
}

/// The steps that draw the frame of `rect`: the top edge from the
/// rectangle's corner, the left edge from the row below it down to the row
/// `height` below it, the bottom edge in that row, and the right edge in the
/// last column, from the row below the top edge to the row above the bottom
/// edge.
pub open spec fn frame(rect: Rect) -> Seq<TerminalOp> {
    seq![TerminalOp::MoveTo { x: rect.x, y: rect.y }] + dashes(rect.width as int) + bars(
        rect.x as int,
        rect.y + 1,
        rect.height as int,
    ) + seq![TerminalOp::MoveTo { x: rect.x, y: (rect.y + rect.height) as i32 }] + dashes(
        rect.width as int,
    ) + bars(rect.x + rect.width - 1, rect.y + 1, rect.height - 1)
}

impl Rect {
    /// Builds the rectangle with the given corner and extent.
    pub fn new(x: i32, y: i32, width: i32, height: i32) -> (rect: Self)
        ensures
            rect == (Rect { x, y, width, height }),
    {
        Self { x, y, width, height }
    }

    /// Every cell that the frame's steps name has coordinates that fit the
    /// coordinate type, and so has every sum on the way to them.
    pub open spec fn spec_drawable(&self) -> bool {
        &&& i32::MIN <= self.y + self.height <= i32::MAX
        &&& self.height > 1 ==> i32::MIN < self.x + self.width <= i32::MAX
    }

    /// Tests whether the frame of the rectangle can be drawn.
    #[verifier::when_used_as_spec(spec_drawable)]
    pub fn drawable(&self) -> (fits: bool)
        ensures
            fits == self.spec_drawable(),
    {
        let bottom = self.y.checked_add(self.height);
        let right = self.x.checked_add(self.width);
        bottom.is_some() && (self.height <= 1 || (right.is_some() && right.unwrap() > i32::MIN))
    }
}

/// The terminal cell that a cursor position names. A terminal counts its
/// columns and rows in 16 bits: of each coordinate the low 16 bits count,
/// so a coordinate off that range wraps around.
pub open spec fn spec_move_cursor(x: i32, y: i32) -> (u16, u16) {
    (x as u16, y as u16)
}

/// Computes the terminal cell to which the cursor moves for the position
/// `(x, y)`: its column and its row.
#[verifier::when_used_as_spec(spec_move_cursor)]
pub fn move_cursor(x: i32, y: i32) -> (cell: (u16, u16))
    ensures
        cell == spec_move_cursor(x, y),
        0 <= x <= u16::MAX ==> cell.0 == x,
        0 <= y <= u16::MAX ==> cell.1 == y,
{
    (#[verifier::truncate] (x as u16), #[verifier::truncate] (y as u16))
}

/// The steps that draw the character `c` at the position `(x, y)`: the
/// move there, and the character.
pub open spec fn char_steps(c: char, x: i32, y: i32) -> Seq<TerminalOp> {
    seq![TerminalOp::MoveTo { x, y }, TerminalOp::Print(c)]
}

/// Computes the steps that draw the character `c` at the position
/// `(x, y)`.
pub fn draw_char(c: char, x: i32, y: i32) -> (ops: Vec<TerminalOp>)
    ensures
        ops@ == char_steps(c, x, y),
{
    let mut ops: Vec<TerminalOp> = Vec::new();
    ops.push(TerminalOp::MoveTo { x, y });
    ops.push(TerminalOp::Print(c));
    ops
}

/// Appends the dashes of a horizontal edge.
fn push_dashes(ops: &mut Vec<TerminalOp>, width: i32)
    ensures
        final(ops)@ == old(ops)@ + dashes(width as int),
{
    let mut k: i32 = 1;
    while k < width
        invariant
            1 <= k,
            k <= width || k == 1,
            ops@ == old(ops)@ + dashes(k as int),
        decreases width - k,
    {
        ops.push(TerminalOp::Print('-'));
        k += 1;
    }
}

/// Appends a vertical edge of `count` bars in column `x`, from row `y`
/// downwards.
fn push_bars(ops: &mut Vec<TerminalOp>, x: i32, y: i32, count: i32)
    requires
        count > 0 ==> y + count - 1 <= i32::MAX,
    ensures
        final(ops)@ == old(ops)@ + bars(x as int, y as int, count as int),
{
    let mut k: i32 = 0;
    while k < count
        invariant
            0 <= k,
            k <= count || k == 0,
            count > 0 ==> y + count - 1 <= i32::MAX,
            ops@ == old(ops)@ + bars(x as int, y as int, k as int),
        decreases count - k,
    {
        ops.push(TerminalOp::MoveTo { x, y: y + k });
        ops.push(TerminalOp::Print('|'));
        k += 1;
    }
}

/// Computes the steps that draw the frame of `rect`.
pub fn draw_module(rect: Rect) -> (ops: Vec<TerminalOp>)
    requires
        rect.drawable(),
    ensures
        ops@ == frame(rect),
{
    let mut ops: Vec<TerminalOp> = Vec::new();
    ops.push(TerminalOp::MoveTo { x: rect.x, y: rect.y });
    push_dashes(&mut ops, rect.width);
    if rect.height > 0 {
        push_bars(&mut ops, rect.x, rect.y + 1, rect.height);
    } else {
    }
    ops.push(TerminalOp::MoveTo { x: rect.x, y: rect.y + rect.height });
    push_dashes(&mut ops, rect.width);
    if rect.height > 1 {
        push_bars(&mut ops, rect.x + rect.width - 1, rect.y + 1, rect.height - 1);
    } else {
    }
    ops
}

} // verus!
