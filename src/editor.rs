//! The level editor: a modal state machine over a level, with a runner for test play.
use vstd::prelude::*;
use crate::game::{LevelRunner, with_letter, RUNNER_MARGIN, at_exit, corner_ok, runner_input_post, runner_input_result, follow_spec, follow_view, inner_view, is_base_color};
use crate::input::{Event, KeyCode, MOD_CONTROL, MOD_NONE, MOD_SHIFT, MouseEventKind, is_key};
use crate::level::{COORD_LIMIT, Cell, CellColor, Level, Trigger, coord_ok, empty_cell};
use crate::ui::{UiContext, UiEvent, UiEventType, UiId, buffer_size, is_terminal};
use crate::vecmath::{Rectangle, V2, v2, v2_add};

verus! {

/// The margin, in cells, that the editor keeps between its cursor and the viewport's edges.
pub const EDITOR_MARGIN: i32 = 2;

#[derive(Debug, PartialEq, Eq, Structural, Copy, Clone)]
pub enum EditorMode {
    View,
    WriteText,
    ErrorMessage,
    Paint,
    SetMarkers,
    Play,
}

/// What a paint stroke does to a cell.
#[derive(Debug, PartialEq, Eq, Structural, Copy, Clone)]
pub enum PaintMode {
    BlackBackgroundNormal,
    WhiteBackgroundNormal,
    Invert,
    TextLightGray,
    TextDarkGray,
    BackgroundGray,
    BackgroundDarkGray,
}

/// Work that the editor asks of its surroundings, which own the terminal and the disk.
#[derive(Debug, PartialEq, Eq, Structural, Copy, Clone)]
pub enum EditorRequest {
    /// Leave the full-screen raw mode, to show a message.
    LeaveScreen,
    /// Go back to the full-screen raw mode with mouse capture.
    EnterScreen,
    /// Save the level to the editor's path, then call `save_finished`.
    Save,
}

pub open spec fn invert_spec(c: CellColor) -> CellColor {
    match c {
        CellColor::Black => CellColor::White,
        CellColor::White => CellColor::Black,
        other => other,
    }
}

/// Black and white swap; the grays stay.
pub fn invert_color(c: CellColor) -> (r: CellColor)
    ensures
        r == invert_spec(c),
{
    match c {
        CellColor::Black => CellColor::White,
        CellColor::White => CellColor::Black,
        CellColor::LightGray => CellColor::LightGray,
        CellColor::DarkGray => CellColor::DarkGray,
    }
}

/// The cell `c` painted in mode `m`; its glyph stays.
pub open spec fn paint_spec(c: Cell, m: PaintMode) -> Cell {
    match m {
        PaintMode::BlackBackgroundNormal => Cell {
            background: CellColor::Black,
            foreground: CellColor::White,
            ..c
        },
        PaintMode::WhiteBackgroundNormal => Cell {
            background: CellColor::White,
            foreground: CellColor::Black,
            ..c
        },
        PaintMode::Invert => Cell {
            background: invert_spec(c.background),
            foreground: invert_spec(c.foreground),
            ..c
        },
        PaintMode::TextLightGray => Cell { foreground: CellColor::LightGray, ..c },
        PaintMode::TextDarkGray => Cell { foreground: CellColor::DarkGray, ..c },
        PaintMode::BackgroundGray => Cell { background: CellColor::LightGray, ..c },
        PaintMode::BackgroundDarkGray => Cell { background: CellColor::DarkGray, ..c },
    }
}

pub fn paint_cell(c: Cell, m: PaintMode) -> (r: Cell)
    ensures
        r == paint_spec(c, m),
{
    let mut cell = c;
    match m {
        PaintMode::BlackBackgroundNormal => {
            cell.background = CellColor::Black;
            cell.foreground = CellColor::White;
        },
        PaintMode::WhiteBackgroundNormal => {
            cell.background = CellColor::White;
            cell.foreground = CellColor::Black;
        },
        PaintMode::Invert => {
            if is_base_color(cell.background) {
                cell.background = invert_color(cell.background);
            }
            if is_base_color(cell.foreground) {
                cell.foreground = invert_color(cell.foreground);
            }
        },
        PaintMode::TextLightGray => {
            cell.foreground = CellColor::LightGray;
        },
        PaintMode::TextDarkGray => {
            cell.foreground = CellColor::DarkGray;
        },
        PaintMode::BackgroundGray => {
            cell.background = CellColor::LightGray;
        },
        PaintMode::BackgroundDarkGray => {
            cell.background = CellColor::DarkGray;
        },
    }
    cell
}

pub open spec fn letter_paint_spec(c: char) -> PaintMode {
    if c == 'x' {
        PaintMode::BlackBackgroundNormal
    } else if c == 'c' {
        PaintMode::Invert
    } else if c == 'v' {
        PaintMode::TextLightGray
    } else if c == 'b' {
        PaintMode::TextDarkGray
    } else if c == 'n' {
        PaintMode::BackgroundGray
    } else if c == 'm' {
        PaintMode::BackgroundDarkGray
    } else {
        PaintMode::WhiteBackgroundNormal
    }
}

/// The paint mode chosen by a key of the bottom row: `z`, `x`, `c`, `v`, `b`, `n`, `m`.
pub fn letter_to_paintmode(c: char) -> (r: PaintMode)
    ensures
        r == letter_paint_spec(c),
{
    match c {
        'z' => PaintMode::WhiteBackgroundNormal,
        'x' => PaintMode::BlackBackgroundNormal,
        'c' => PaintMode::Invert,
        'v' => PaintMode::TextLightGray,
        'b' => PaintMode::TextDarkGray,
        'n' => PaintMode::BackgroundGray,
        'm' => PaintMode::BackgroundDarkGray,
        _ => PaintMode::WhiteBackgroundNormal,
    }
}

/// Unicode's control characters: U+0000 to U+001F and U+007F to U+009F.
pub open spec fn is_control_spec(c: char) -> bool {
    (c as u32) <= 0x1f || (0x7f <= (c as u32) && (c as u32) <= 0x9f)
}

pub fn is_control(c: char) -> (r: bool)
    ensures
        r == is_control_spec(c),
{
    let n = c as u32;
    n <= 0x1f || (0x7f <= n && n <= 0x9f)
}

/// `p` moved by `d`, or `p` where that would leave the coordinate limits.
pub open spec fn step_within(p: V2, d: V2) -> V2 {
    if coord_ok(v2_add(p, d)) {
        v2_add(p, d)
    } else {
        p
    }
}

pub fn step_point(p: V2, d: V2) -> (r: V2)
    requires
        coord_ok(p),
        -1 <= d.x <= 1,
        -1 <= d.y <= 1,
    ensures
        r == step_within(p, d),
        coord_ok(r),
{
    let q = p + d;
    if -COORD_LIMIT <= q.x && q.x <= COORD_LIMIT && -COORD_LIMIT <= q.y && q.y <= COORD_LIMIT {
        q
    } else {
        p
    }
}

/// Both corners of the rectangle lie within the coordinate limits.
pub open spec fn rect_ok(r: Rectangle) -> bool {
    &&& coord_ok(r.pos)
    &&& -COORD_LIMIT <= r.spec_right() <= COORD_LIMIT
    &&& -COORD_LIMIT <= r.spec_bottom() <= COORD_LIMIT
}

/// The cells of `rec` that a row-by-row walk has visited before reaching column `x` of
/// row `y`.
pub open spec fn visited(rec: Rectangle, y: int, x: int, p: V2) -> bool {
    ||| (rec.spec_top() <= p.y < y && rec.spec_left() <= p.x <= rec.spec_right())
    ||| (p.y == y && rec.spec_left() <= p.x < x)
}

/// The point of `rec` that lands on `q` when `rec` is moved to `target`.
pub open spec fn source_of(rec: Rectangle, target: V2, q: V2) -> V2 {
    v2(q.x - target.x + rec.pos.x, q.y - target.y + rec.pos.y)
}

/// The cell at `q` of `dst` after the cells of `src` under `rec` are copied with their
/// corner at `target`; what falls outside `dst` is dropped.
pub open spec fn pasted_cell(dst: Level, src: Level, rec: Rectangle, target: V2, q: V2) -> Cell {
    if dst.spec_contains(q) && rec.spec_contains(source_of(rec, target, q)) {
        src.cell_at(source_of(rec, target, q))
    } else {
        dst.cell_at(q)
    }
}

/// `after` is well formed and keeps the size, start point and triggers of `before`.
pub open spec fn same_frame(before: Level, after: Level) -> bool {
    &&& after.wf()
    &&& after.width == before.width
    &&& after.height == before.height
    &&& after.p0 == before.p0
    &&& after.triggers == before.triggers
}

/// Copies the cells of `src` under `rec` into `dst`, with the rectangle's corner at `target`.
pub fn paste_rect(dst: &mut Level, src: &Level, rec: Rectangle, target: V2)
    requires
        old(dst).wf(),
        src.wf(),
        rect_ok(rec),
        coord_ok(target),
    ensures
        same_frame(*old(dst), *final(dst)),
        forall|q: V2| #[trigger] final(dst).cell_at(q) == pasted_cell(*old(dst), *src, rec, target, q),
{
    let ghost d0 = *dst;
    let mut y: i32 = rec.top();
    while y <= rec.bottom()
        invariant
            rect_ok(rec),
            coord_ok(target),
            src.wf(),
            rec.spec_top() <= y,
            y == rec.spec_top() || y <= rec.spec_bottom() + 1,
            same_frame(d0, *dst),
            forall|q: V2| #[trigger] dst.cell_at(q) == if d0.spec_contains(q) && visited(rec, y as int, rec.spec_left(), source_of(rec, target, q)) {
                src.cell_at(source_of(rec, target, q))
            } else {
                d0.cell_at(q)
            },
        decreases rec.spec_bottom() + 1 - y,
    {
        let mut x: i32 = rec.left();
        while x <= rec.right()
            invariant
                rect_ok(rec),
                coord_ok(target),
                src.wf(),
                rec.spec_top() <= y <= rec.spec_bottom(),
                rec.spec_left() <= x,
                x == rec.spec_left() || x <= rec.spec_right() + 1,
                same_frame(d0, *dst),
                forall|q: V2| #[trigger] dst.cell_at(q) == if d0.spec_contains(q) && visited(rec, y as int, x as int, source_of(rec, target, q)) {
                    src.cell_at(source_of(rec, target, q))
                } else {
                    d0.cell_at(q)
                },
            decreases rec.spec_right() + 1 - x,
        {
            let from = V2::make(x, y);
            let c = src.get(from);
            let to = V2::make(x - rec.pos.x + target.x, y - rec.pos.y + target.y);
            dst.set(to, c);
            proof {
                assert forall|q: V2| #[trigger] dst.cell_at(q) == if d0.spec_contains(q) && visited(rec, y as int, x + 1, source_of(rec, target, q)) {
                    src.cell_at(source_of(rec, target, q))
                } else {
                    d0.cell_at(q)
                } by {
                    if q == to {
                        assert(source_of(rec, target, q) == from);
                    }
                }
            }
            x = x + 1;
        }
        proof {
            assert forall|q: V2| #[trigger] dst.cell_at(q) == if d0.spec_contains(q) && visited(rec, y + 1, rec.spec_left(), source_of(rec, target, q)) {
                src.cell_at(source_of(rec, target, q))
            } else {
                d0.cell_at(q)
            } by {
                let s = source_of(rec, target, q);
                assert(visited(rec, y + 1, rec.spec_left(), s) == visited(rec, y as int, x as int, s));
            }
        }
        y = y + 1;
    }
    proof {
        assert forall|q: V2| #[trigger] dst.cell_at(q) == pasted_cell(d0, *src, rec, target, q) by {
            let s = source_of(rec, target, q);
            assert(visited(rec, y as int, rec.spec_left(), s) == rec.spec_contains(s));
        }
    }
}

/// What `overwrite_rect` writes over each cell of a rectangle.
pub enum Overwrite {
    /// The given cell.
    Fill(Cell),
    /// The cell painted in the given mode, with its glyph removed.
    Clear(PaintMode),
}

pub open spec fn overwritten(how: Overwrite, c: Cell) -> Cell {
    match how {
        Overwrite::Fill(f) => f,
        Overwrite::Clear(m) => with_letter(paint_spec(c, m), ' '),
    }
}

/// Overwrites each cell of `rec` that lies in the grid.
pub fn overwrite_rect(dst: &mut Level, rec: Rectangle, how: Overwrite)
    requires
        old(dst).wf(),
        rect_ok(rec),
    ensures
        same_frame(*old(dst), *final(dst)),
        forall|q: V2| #[trigger] final(dst).cell_at(q) == if old(dst).spec_contains(q) && rec.spec_contains(q) {
            overwritten(how, old(dst).cell_at(q))
        } else {
            old(dst).cell_at(q)
        },
{
    let ghost d0 = *dst;
    let mut y: i32 = rec.top();
    while y <= rec.bottom()
        invariant
            rect_ok(rec),
            rec.spec_top() <= y,
            y == rec.spec_top() || y <= rec.spec_bottom() + 1,
            same_frame(d0, *dst),
            forall|q: V2| #[trigger] dst.cell_at(q) == if d0.spec_contains(q) && visited(rec, y as int, rec.spec_left(), q) {
                overwritten(how, d0.cell_at(q))
            } else {
                d0.cell_at(q)
            },
        decreases rec.spec_bottom() + 1 - y,
    {
        let mut x: i32 = rec.left();
        while x <= rec.right()
            invariant
                rect_ok(rec),
                rec.spec_top() <= y <= rec.spec_bottom(),
                rec.spec_left() <= x,
                x == rec.spec_left() || x <= rec.spec_right() + 1,
                same_frame(d0, *dst),
                forall|q: V2| #[trigger] dst.cell_at(q) == if d0.spec_contains(q) && visited(rec, y as int, x as int, q) {
                    overwritten(how, d0.cell_at(q))
                } else {
                    d0.cell_at(q)
                },
            decreases rec.spec_right() + 1 - x,
        {
            let from = V2::make(x, y);
            let c = match &how {
                Overwrite::Fill(f) => *f,
                Overwrite::Clear(m) => {
                    let mut painted = paint_cell(dst.get(from), *m);
                    painted.letter = ' ';
                    painted
                },
            };
            dst.set(from, c);
            x = x + 1;
        }
        proof {
            assert forall|q: V2| #[trigger] dst.cell_at(q) == if d0.spec_contains(q) && visited(rec, y + 1, rec.spec_left(), q) {
                overwritten(how, d0.cell_at(q))
            } else {
                d0.cell_at(q)
            } by {
                assert(visited(rec, y + 1, rec.spec_left(), q) == visited(rec, y as int, x as int, q));
            }
        }
        y = y + 1;
    }
    proof {
        assert forall|q: V2| #[trigger] dst.cell_at(q) == if d0.spec_contains(q) && rec.spec_contains(q) {
            overwritten(how, d0.cell_at(q))
        } else {
            d0.cell_at(q)
        } by {
            assert(visited(rec, y as int, rec.spec_left(), q) == rec.spec_contains(q));
        }
    }
}

/// The triggers of `ts` that are not at `pos`, in their order.
pub open spec fn triggers_without(ts: Seq<Trigger>, pos: V2) -> Seq<Trigger>
    decreases ts.len(),
{
    if ts.len() == 0 {
        Seq::empty()
    } else if ts.last().pos == pos {
        triggers_without(ts.drop_last(), pos)
    } else {
        triggers_without(ts.drop_last(), pos).push(ts.last())
    }
}

/// The triggers of `ts` that are not at `pos`, in their order.
pub fn remove_triggers_at(ts: &Vec<Trigger>, pos: V2) -> (r: Vec<Trigger>)
    ensures
        r@ == triggers_without(ts@, pos),
{
    let mut out: Vec<Trigger> = Vec::new();
    let mut i: usize = 0;
    while i < ts.len()
        invariant
            i <= ts@.len(),
            out@ == triggers_without(ts@.subrange(0, i as int), pos),
        decreases ts@.len() - i,
    {
        proof {
            assert(ts@.subrange(0, i + 1).drop_last() =~= ts@.subrange(0, i as int));
        }
        if ts[i].pos != pos {
            out.push(Trigger { pos: ts[i].pos, id: ts[i].id.clone() });
        }
        i = i + 1;
    }
    proof {
        assert(ts@.subrange(0, ts@.len() as int) =~= ts@);
    }
    out
}

/// The cell at `q` of a level resized from `l` to `size`: what was there where both
/// grids hold `q`, the empty cell where only the new one does.
pub open spec fn resized_cell(l: Level, size: V2, q: V2) -> Cell {
    if 0 <= q.x < size.x && 0 <= q.y < size.y {
        l.cell_at(q)
    } else {
        empty_cell()
    }
}

/// `row` cut or extended with empty cells to `w` cells.
fn resized_row(row: &Vec<Cell>, w: usize) -> (r: Vec<Cell>)
    ensures
        r@.len() == w,
        forall|i: int| 0 <= i < w ==> #[trigger] r@[i] == if i < row@.len() { row@[i] } else { empty_cell() },
{
    let mut out: Vec<Cell> = Vec::new();
    let mut i: usize = 0;
    while i < w
        invariant
            i <= w,
            out@.len() == i,
            forall|j: int| 0 <= j < i ==> #[trigger] out@[j] == if j < row@.len() { row@[j] } else { empty_cell() },
        decreases w - i,
    {
        if i < row.len() {
            out.push(row[i]);
        } else {
            out.push(Cell::make_empty());
        }
        i = i + 1;
    }
    out
}

/// Resizes `l` to `size`, keeping the cells that both sizes hold.
pub fn resize_grid(l: &mut Level, size: V2)
    requires
        old(l).wf(),
        0 <= size.x <= COORD_LIMIT,
        0 <= size.y <= COORD_LIMIT,
    ensures
        final(l).wf(),
        final(l).width == size.x,
        final(l).height == size.y,
        final(l).p0 == old(l).p0,
        final(l).triggers == old(l).triggers,
        forall|q: V2| #[trigger] final(l).cell_at(q) == resized_cell(*old(l), size, q),
{
    let ghost l0 = *l;
    let w = size.x as usize;
    let h = size.y as usize;
    let mut data: Vec<Vec<Cell>> = Vec::new();
    let mut y: usize = 0;
    while y < h
        invariant
            l.wf(),
            *l == l0,
            y <= h,
            h == size.y,
            w == size.x,
            data@.len() == y,
            forall|j: int| 0 <= j < y ==> #[trigger] data@[j]@.len() == w,
            forall|j: int, i: int| 0 <= j < y && 0 <= i < w ==> #[trigger] data@[j]@[i] == resized_cell(l0, size, v2(i, j)),
        decreases h - y,
    {
        if y < l.data.len() {
            let row = resized_row(&l.data[y], w);
            data.push(row);
        } else {
            let row = resized_row(&Vec::new(), w);
            data.push(row);
        }
        y = y + 1;
    }
    l.data = data;
    l.width = size.x;
    l.height = size.y;
    proof {
        assert forall|q: V2| #[trigger] l.cell_at(q) == resized_cell(l0, size, q) by {
            if l.spec_contains(q) {
                assert(q == v2(q.x as int, q.y as int));
            }
        }
    }
}

/// The level editor.
pub struct LevelEditor {
    pub id: UiId,
    pub level: Level,
    pub cursor_pos: V2,
    pub view_corner: V2,
    /// The column that Enter returns to in text mode, and a marked corner.
    pub wrap_pos: V2,
    pub need_refresh: bool,
    pub mode: EditorMode,
    /// Where the level is saved.
    pub path: Option<String>,
    pub paint_mode: PaintMode,
    /// The runner of test play, on a copy of the level.
    pub test_runer: LevelRunner,
    pub show_triggers: bool,
    pub selection_rect: Rectangle,
    pub selecting_rect: bool,
    /// Requests not yet taken by `take_requests`, oldest first.
    pub requests: Vec<EditorRequest>,
}

impl LevelEditor {
    /// The level and the test runner are well formed, and the cursor, the marked corner,
    /// the viewport and the selection lie within the coordinate limits.
    pub open spec fn wf(&self) -> bool {
        &&& self.level.wf()
        &&& self.test_runer.wf()
        &&& coord_ok(self.cursor_pos)
        &&& coord_ok(self.wrap_pos)
        &&& corner_ok(self.view_corner)
        &&& rect_ok(self.selection_rect)
    }

    /// An editor on an empty 250 by 250 level, in view mode.
    pub fn new(ui: &mut UiContext) -> (r: LevelEditor)
        requires
            old(ui).wf(),
            old(ui).counter() < u64::MAX - 1,
        ensures
            r.wf(),
            final(ui).wf(),
            final(ui).counter() == old(ui).counter() + 2,
            r.id.spec_value() == old(ui).counter(),
            r.level.width == 250,
            r.level.height == 250,
            forall|p: V2| #[trigger] r.level.cell_at(p) == empty_cell(),
            r.cursor_pos == (V2 { x: 0, y: 0 }),
            r.view_corner == (V2 { x: 0, y: 0 }),
            r.mode == EditorMode::View,
            r.paint_mode == PaintMode::WhiteBackgroundNormal,
            r.path is None,
            r.show_triggers,
            !r.selecting_rect,
            r.requests@.len() == 0,
            r.need_refresh,
    {
        let id = ui.next_id();
        let test_runer = LevelRunner::new(ui);
        let mut result = LevelEditor {
            id,
            level: Level::new(250, 250),
            cursor_pos: V2::new(),
            view_corner: V2::new(),
            wrap_pos: V2::new(),
            need_refresh: true,
            mode: EditorMode::View,
            path: None,
            paint_mode: PaintMode::WhiteBackgroundNormal,
            test_runer,
            show_triggers: true,
            selection_rect: Rectangle { pos: V2::make(0, 0), size: V2::make(1, 1) },
            selecting_rect: false,
            requests: Vec::new(),
        };
        result.fill_level();
        result
    }

    /// Fills the whole level with empty cells: no glyph, white on black.
    pub fn fill_level(&mut self)
        requires
            old(self).wf(),
        ensures
            final(self).wf(),
            same_frame(old(self).level, final(self).level),
            forall|p: V2| #[trigger] final(self).level.cell_at(p) == empty_cell(),
            *final(self) == (LevelEditor { level: final(self).level, ..*old(self) }),
    {
        let mut cell = Cell::make_empty();
        cell.background = CellColor::Black;
        cell.foreground = CellColor::White;
        let bounds = self.level.bounds();
        overwrite_rect(&mut self.level, bounds, Overwrite::Fill(cell));
    }

    /// Resizes the level to `size`, where both sides are at least 5; else nothing changes.
    pub fn resize(&mut self, size: V2)
        requires
            old(self).wf(),
            coord_ok(size),
        ensures
            final(self).wf(),
            size.x < 5 || size.y < 5 ==> *final(self) == *old(self),
            !(size.x < 5 || size.y < 5) ==> {
                &&& final(self).level.width == size.x
                &&& final(self).level.height == size.y
                &&& final(self).level.p0 == old(self).level.p0
                &&& final(self).level.triggers == old(self).level.triggers
                &&& forall|q: V2| #[trigger] final(self).level.cell_at(q) == resized_cell(old(self).level, size, q)
                &&& *final(self) == (LevelEditor { level: final(self).level, ..*old(self) })
            },
    {
        if size.x < 5 || size.y < 5 {
            return;
        }
        resize_grid(&mut self.level, size);
    }

    pub fn get_id(&self) -> (r: UiId)
        ensures
            r == self.id,
    {
        self.id
    }

    /// `e` bubbled up from this editor.
    pub fn event(&self, e: UiEventType) -> (r: Option<UiEvent>)
        ensures
            r == Some(UiEvent { id: self.id, e }),
    {
        Some(UiEvent { id: self.id, e })
    }

    pub fn mark_refresh(&mut self, value: bool)
        ensures
            *final(self) == (LevelEditor { need_refresh: value, ..*old(self) }),
    {
        self.need_refresh = value;
    }

    pub fn need_refresh(&self) -> (r: bool)
        ensures
            r == self.need_refresh,
    {
        self.need_refresh
    }

    /// The terminal was resized: draw again.
    pub fn resize_widget(&mut self, _widget_size: &Rectangle)
        ensures
            *final(self) == (LevelEditor { need_refresh: true, ..*old(self) }),
    {
        self.need_refresh = true;
    }

    /// The viewport: its corner, and the terminal's size.
    pub fn get_view_rect(&self) -> (r: Rectangle)
        ensures
            r.pos == self.view_corner,
            0 <= r.size.x <= u16::MAX,
            0 <= r.size.y <= u16::MAX,
    {
        let size = buffer_size();
        Rectangle { pos: self.view_corner, size: V2::from(size) }
    }

    /// Moves the viewport so that the cursor stays `EDITOR_MARGIN` cells inside a
    /// terminal of `size` columns and rows.
    pub fn follow_cursor(&mut self, size: (u16, u16))
        requires
            old(self).wf(),
        ensures
            final(self).wf(),
            final(self).view_corner == if inner_view(old(self).view_corner, V2::from_spec(size), EDITOR_MARGIN as int).spec_contains(old(self).cursor_pos) {
                old(self).view_corner
            } else {
                follow_spec(old(self).view_corner, old(self).cursor_pos, V2::from_spec(size), EDITOR_MARGIN as int)
            },
            *final(self) == (LevelEditor { view_corner: final(self).view_corner, ..*old(self) }),
    {
        let (c, _moved) = follow_view(self.view_corner, self.cursor_pos, V2::from(size), EDITOR_MARGIN);
        self.view_corner = c;
    }

    /// Moves the viewport so that the cursor stays `EDITOR_MARGIN` cells inside the terminal.
    pub fn keep_cursor_in_view(&mut self)
        requires
            old(self).wf(),
        ensures
            final(self).wf(),
            *final(self) == (LevelEditor { view_corner: final(self).view_corner, ..*old(self) }),
            exists|size: (u16, u16)| final(self).view_corner == editor_follow(old(self).view_corner, old(self).cursor_pos, size),
    {
        let ghost s0 = *self;
        let size = buffer_size();
        self.follow_cursor(size);
        assert(self.view_corner == editor_follow(s0.view_corner, s0.cursor_pos, size));
    }

    /// Shows a message outside the full-screen mode.
    pub fn switch_to_err(&mut self)
        ensures
            final(self).requests@ == old(self).requests@.push(EditorRequest::LeaveScreen),
            *final(self) == (LevelEditor { mode: EditorMode::ErrorMessage, requests: final(self).requests, ..*old(self) }),
    {
        self.mode = EditorMode::ErrorMessage;
        self.requests.push(EditorRequest::LeaveScreen);
    }

    /// Back to editing in the full-screen mode.
    pub fn switch_to_edit(&mut self)
        ensures
            final(self).requests@ == old(self).requests@.push(EditorRequest::EnterScreen),
            *final(self) == (LevelEditor { mode: EditorMode::View, requests: final(self).requests, ..*old(self) }),
    {
        self.mode = EditorMode::View;
        self.requests.push(EditorRequest::EnterScreen);
    }

    /// The outcome of a save that `EditorRequest::Save` asked for: the message to show
    /// until a key is pressed.
    pub fn save_finished(&mut self, succeeded: bool) -> (message: String)
        ensures
            succeeded ==> message@ == "Saved!"@,
            !succeeded ==> message@ == "Failed to save"@,
            *final(self) == (LevelEditor { mode: EditorMode::ErrorMessage, ..*old(self) }),
    {
        self.mode = EditorMode::ErrorMessage;
        if succeeded {
            "Saved!".to_string()
        } else {
            "Failed to save".to_string()
        }
    }

    /// Hands out the requests made so far, oldest first, and forgets them.
    pub fn take_requests(&mut self) -> (r: Vec<EditorRequest>)
        ensures
            r@ == old(self).requests@,
            *final(self) == (LevelEditor { requests: final(self).requests, ..*old(self) }),
            final(self).requests@.len() == 0,
    {
        let mut taken: Vec<EditorRequest> = Vec::new();
        std::mem::swap(&mut taken, &mut self.requests);
        taken
    }

    /// Test play on a copy of the level, with the actor at `pos`.
    pub fn start_level_test(&mut self, pos: V2)
        requires
            old(self).wf(),
            coord_ok(pos),
        ensures
            test_started(*old(self), *final(self), pos),
    {
        self.test_runer.level = self.level.duplicate();
        self.test_runer.start();
        self.test_runer.pos = pos;
        self.mode = EditorMode::Play;
    }

    /// Test play from the level's start point.
    pub fn start_level_test_normal(&mut self)
        requires
            old(self).wf(),
        ensures
            test_started(*old(self), *final(self), old(self).level.p0),
    {
        self.start_level_test(self.level.p0);
    }

    /// Paints the cell at `pos` in the current paint mode.
    pub fn paint_cell_here(&mut self, pos: V2)
        requires
            old(self).wf(),
        ensures
            painted_at(*old(self), *final(self), pos),
    {
        let cell = paint_cell(self.level.get(pos), self.paint_mode);
        self.level.set(pos, cell);
    }

    /// Moves the cursor one step and paints the cell it lands on.
    pub fn move_and_paint(&mut self, dir: V2)
        requires
            old(self).wf(),
            -1 <= dir.x <= 1,
            -1 <= dir.y <= 1,
        ensures
            final(self).cursor_pos == step_within(old(self).cursor_pos, dir),
            painted_at(LevelEditor { cursor_pos: final(self).cursor_pos, ..*old(self) }, *final(self), final(self).cursor_pos),
    {
        self.cursor_pos = step_point(self.cursor_pos, dir);
        self.paint_cell_here(self.cursor_pos);
    }

    /// Copies the cells under `rec` so that its corner lands on `target`.
    pub fn copy_rect(&mut self, rec: Rectangle, target: V2)
        requires
            old(self).wf(),
            rect_ok(rec),
            coord_ok(target),
        ensures
            rect_copied(*old(self), *final(self), rec, target),
    {
        let level_copy = self.level.duplicate();
        proof {
            crate::level::lemma_same_cells(&level_copy, &self.level);
        }
        paste_rect(&mut self.level, &level_copy, rec, target);
    }

    /// Moves the cells under `rec` so that its corner lands on `target`: the cells left
    /// behind are painted in the current mode and lose their glyphs.
    pub fn move_rect(&mut self, rec: Rectangle, target: V2)
        requires
            old(self).wf(),
            rect_ok(rec),
            coord_ok(target),
        ensures
            rect_moved(*old(self), *final(self), rec, target),
    {
        let level_copy = self.level.duplicate();
        proof {
            crate::level::lemma_same_cells(&level_copy, &self.level);
        }
        overwrite_rect(&mut self.level, rec, Overwrite::Clear(self.paint_mode));
        paste_rect(&mut self.level, &level_copy, rec, target);
    }

    /// Fills `rec` with a copy of the cell at its corner.
    pub fn fill_rect0(&mut self, rec: Rectangle)
        requires
            old(self).wf(),
            rect_ok(rec),
        ensures
            rect_filled(*old(self), *final(self), rec),
    {
        let c = self.level.get(rec.pos);
        overwrite_rect(&mut self.level, rec, Overwrite::Fill(c));
    }

    /// Moves the cursor to `p` where `p` is within the limits, then the viewport follows it.
    fn move_cursor_to(&mut self, p: V2, size: (u16, u16))
        requires
            old(self).wf(),
            -3 * COORD_LIMIT <= p.x <= 3 * COORD_LIMIT,
            -3 * COORD_LIMIT <= p.y <= 3 * COORD_LIMIT,
        ensures
            final(self).wf(),
            cursor_moved(*old(self), *final(self), p, size),
    {
        if -COORD_LIMIT <= p.x && p.x <= COORD_LIMIT && -COORD_LIMIT <= p.y && p.y <= COORD_LIMIT {
            self.cursor_pos = p;
        }
        self.follow_cursor(size);
    }

    /// The keys that act the same in every editing mode; says whether `e` was one.
    fn input_global(&mut self, e: &Event, size: (u16, u16)) -> (handled: bool)
        requires
            old(self).wf(),
        ensures
            final(self).wf(),
            handled == is_global_key(*e),
            handled ==> global_post(*old(self), *final(self), *e, size),
            !handled ==> *final(self) == *old(self),
    {
        match e {
            Event::Key(k) => {
                if k.modifiers == MOD_NONE {
                    match k.code {
                        KeyCode::Up => {
                            let p = step_point(self.cursor_pos, V2::make(0, -1));
                            self.move_cursor_to(p, size);
                            true
                        },
                        KeyCode::Down => {
                            let p = step_point(self.cursor_pos, V2::make(0, 1));
                            self.move_cursor_to(p, size);
                            true
                        },
                        KeyCode::Left => {
                            let p = step_point(self.cursor_pos, V2::make(-1, 0));
                            self.move_cursor_to(p, size);
                            true
                        },
                        KeyCode::Right => {
                            let p = step_point(self.cursor_pos, V2::make(1, 0));
                            self.move_cursor_to(p, size);
                            true
                        },
                        KeyCode::F(2) => {
                            self.mode = EditorMode::View;
                            true
                        },
                        KeyCode::F(3) => {
                            self.mode = EditorMode::WriteText;
                            self.wrap_pos = self.cursor_pos;
                            true
                        },
                        KeyCode::F(4) => {
                            self.wrap_pos = self.cursor_pos;
                            true
                        },
                        KeyCode::F(5) => {
                            self.mode = EditorMode::Paint;
                            true
                        },
                        KeyCode::F(6) => {
                            self.mode = EditorMode::SetMarkers;
                            true
                        },
                        KeyCode::F(8) => {
                            self.start_level_test_normal();
                            true
                        },
                        KeyCode::F(9) => {
                            self.switch_to_err();
                            self.requests.push(EditorRequest::Save);
                            true
                        },
                        _ => false,
                    }
                } else if k.modifiers == MOD_SHIFT && k.code == KeyCode::F(8) {
                    self.start_level_test(self.cursor_pos);
                    true
                } else {
                    false
                }
            },
            Event::Mouse(m) => {
                if m.kind == MouseEventKind::LeftDown && m.modifiers == MOD_NONE {
                    let p = V2::make(self.view_corner.x + m.column as i32, self.view_corner.y + m.row as i32);
                    self.move_cursor_to(p, size);
                    true
                } else {
                    false
                }
            },
            _ => false,
        }
    }

    /// The keys of view mode: text mode, resizing, selecting, copying, moving, filling.
    fn input_view(&mut self, e: &Event)
        requires
            old(self).wf(),
        ensures
            final(self).wf(),
            view_post(*old(self), *final(self), *e),
    {
        proof {
            crate::vecmath::lemma_normalize_idempotent(self.selection_rect);
        }
        if let Event::Key(k) = e {
            let code = k.code;
            let m = k.modifiers;
            if m == MOD_NONE && code == KeyCode::Char('e') {
                self.mode = EditorMode::WriteText;
                self.wrap_pos = self.cursor_pos;
            } else if (m == MOD_NONE && code == KeyCode::Char('R')) || (m == MOD_SHIFT && code == KeyCode::Char('R')) || (m == MOD_SHIFT && code == KeyCode::Char('r')) {
                self.resize(self.cursor_pos);
            } else if m == MOD_NONE && code == KeyCode::Char('m') && !self.selecting_rect {
                self.selecting_rect = true;
                self.selection_rect.pos = self.cursor_pos;
                self.selection_rect.size = V2::make(1, 1);
            } else if m == MOD_NONE && (code == KeyCode::Enter || code == KeyCode::Char('m') || code == KeyCode::Esc) && self.selecting_rect {
                self.selecting_rect = false;
                self.selection_rect = self.selection_rect.normalized();
            } else if m == MOD_NONE && code == KeyCode::Char('k') {
                self.copy_rect(self.selection_rect.normalized(), self.cursor_pos);
            } else if m == MOD_NONE && code == KeyCode::Char('l') {
                self.move_rect(self.selection_rect.normalized(), self.cursor_pos);
            } else if m == MOD_NONE && code == KeyCode::Char('0') {
                self.fill_rect0(self.selection_rect.normalized());
            }
        }
    }

    /// The keys of text mode: typing, Enter, erasing, Escape.
    fn input_text(&mut self, e: &Event)
        requires
            old(self).wf(),
        ensures
            final(self).wf(),
            text_post(*old(self), *final(self), *e),
    {
        if let Event::Key(k) = e {
            let code = k.code;
            let m = k.modifiers;
            if m == MOD_NONE && code == KeyCode::Enter {
                if self.cursor_pos.y < COORD_LIMIT {
                    self.cursor_pos = V2::make(self.wrap_pos.x, self.cursor_pos.y + 1);
                }
            } else if m == MOD_NONE && code == KeyCode::Esc {
                self.mode = EditorMode::View;
            } else if (m == MOD_NONE && code == KeyCode::Backspace) || (m == MOD_CONTROL && code == KeyCode::Char('h')) {
                self.cursor_pos = step_point(self.cursor_pos, V2::make(-1, 0));
                let mut data = self.level.get(self.cursor_pos);
                data.letter = '\0';
                self.level.set(self.cursor_pos, data);
            } else if let KeyCode::Char(c) = code {
                if !is_control(c) && (m == MOD_NONE || m == MOD_SHIFT) {
                    let mut data = self.level.get(self.cursor_pos);
                    data.letter = c;
                    self.level.set(self.cursor_pos, data);
                    self.cursor_pos = step_point(self.cursor_pos, V2::make(1, 0));
                }
            }
        }
    }

    /// The keys of paint mode: painting while moving, choosing a mode, painting here.
    fn input_paint(&mut self, e: &Event)
        requires
            old(self).wf(),
        ensures
            final(self).wf(),
            paint_post(*old(self), *final(self), *e),
    {
        if let Event::Key(k) = e {
            let code = k.code;
            let m = k.modifiers;
            if m == MOD_NONE {
                match code {
                    KeyCode::Esc => {
                        self.mode = EditorMode::View;
                    },
                    KeyCode::Char('w') => self.move_and_paint(V2::make(0, -1)),
                    KeyCode::Char('s') => self.move_and_paint(V2::make(0, 1)),
                    KeyCode::Char('a') => self.move_and_paint(V2::make(-1, 0)),
                    KeyCode::Char('d') => self.move_and_paint(V2::make(1, 0)),
                    KeyCode::Char(c) => {
                        if c == 'z' || c == 'x' || c == 'c' || c == 'v' || c == 'b' || c == 'n' || c == 'm' {
                            self.paint_mode = letter_to_paintmode(c);
                        } else if c == ' ' {
                            self.paint_cell_here(self.cursor_pos);
                        }
                    },
                    _ => {},
                }
            }
        }
    }

    /// Replaces the triggers at the cursor with one named `name`.
    fn place_trigger(&mut self, name: &str)
        requires
            old(self).wf(),
        ensures
            final(self).wf(),
            ({
                let rest = triggers_without(old(self).level.triggers@, old(self).cursor_pos);
                &&& final(self).level.triggers@.len() == rest.len() + 1
                &&& final(self).level.triggers@.subrange(0, rest.len() as int) == rest
                &&& final(self).level.triggers@.last().pos == old(self).cursor_pos
                &&& final(self).level.triggers@.last().id@ == name@
                &&& triggers_now(*old(self), *final(self), final(self).level.triggers@)
            }),
    {
        let mut ts = remove_triggers_at(&self.level.triggers, self.cursor_pos);
        let ghost rest = ts@;
        ts.push(Trigger { pos: self.cursor_pos, id: name.to_string() });
        assert(ts@.subrange(0, rest.len() as int) =~= rest);
        self.level.triggers = ts;
    }

    /// The keys of marker mode: the start point, exits, erasing.
    fn input_markers(&mut self, e: &Event)
        requires
            old(self).wf(),
        ensures
            final(self).wf(),
            markers_post(*old(self), *final(self), *e),
    {
        proof {
            reveal_strlit("exit0");
            reveal_strlit("exit1");
            reveal_strlit("exit2");
            assert("exit0"@ =~= seq!['e', 'x', 'i', 't', '0']);
            assert("exit1"@ =~= seq!['e', 'x', 'i', 't', '1']);
            assert("exit2"@ =~= seq!['e', 'x', 'i', 't', '2']);
        }
        if let Event::Key(k) = e {
            let code = k.code;
            let m = k.modifiers;
            if m == MOD_NONE && code == KeyCode::Esc {
                self.mode = EditorMode::View;
            } else if m == MOD_NONE && code == KeyCode::Char('z') {
                self.level.p0 = self.cursor_pos;
            } else if (m == MOD_NONE && code == KeyCode::Backspace) || (m == MOD_CONTROL && code == KeyCode::Char('h')) {
                self.level.triggers = remove_triggers_at(&self.level.triggers, self.cursor_pos);
            } else if m == MOD_NONE && code == KeyCode::Char('x') {
                self.place_trigger("exit1");
            } else if m == MOD_NONE && code == KeyCode::Char('c') {
                self.place_trigger("exit2");
            } else if m == MOD_NONE && code == KeyCode::Char('v') {
                self.place_trigger("exit0");
            }
        }
    }

    /// A result of test play ends it: back to view mode, with a redraw.
    pub fn handle_test_play(&mut self, ev: Option<UiEvent>) -> (r: Option<UiEvent>)
        ensures
            ev is Some && is_terminal(ev->0.e) ==> {
                &&& r == changed(old(self).id)
                &&& *final(self) == (LevelEditor { mode: EditorMode::View, ..*old(self) })
            },
            !(ev is Some && is_terminal(ev->0.e)) ==> r == ev && *final(self) == *old(self),
    {
        match ev {
            Some(UiEvent { id: _, e: UiEventType::Canceled }) | Some(UiEvent { id: _, e: UiEventType::Done }) | Some(
                UiEvent { id: _, e: UiEventType::Result(_) },
            ) => {
                self.mode = EditorMode::View;
                self.event(UiEventType::Changed)
            },
            _ => ev,
        }
    }

    /// Handles an input event with the terminal at `size`.
    pub fn input_sized(&mut self, e: &Event, size: (u16, u16)) -> (r: Option<UiEvent>)
        requires
            old(self).wf(),
        ensures
            final(self).wf(),
            input_post(*old(self), *final(self), *e, size, r),
    {
        self.mark_refresh(true);
        match self.mode {
            EditorMode::ErrorMessage => {
                // any key leaves the message
                return match e {
                    Event::Key(_) => {
                        self.switch_to_edit();
                        self.event(UiEventType::Changed)
                    },
                    _ => None,
                };
            },
            EditorMode::Play => {
                if let Event::Key(k) = e {
                    if k.code == KeyCode::Esc && k.modifiers == MOD_NONE {
                        self.mode = EditorMode::View;
                        return self.event(UiEventType::Changed);
                    }
                }
                let r = self.test_runer.input_sized(e, size);
                return self.handle_test_play(r);
            },
            _ => {},
        }
        if self.input_global(e, size) {
            return self.event(UiEventType::Changed);
        }
        if self.mode != EditorMode::WriteText && self.mode != EditorMode::Paint {
            if let Some(d) = pan_direction(e) {
                let c = self.view_corner + d;
                if -2 * COORD_LIMIT <= c.x && c.x <= 2 * COORD_LIMIT && -2 * COORD_LIMIT <= c.y && c.y <= 2 * COORD_LIMIT {
                    self.view_corner = c;
                }
                return self.event(UiEventType::Changed);
            }
        }
        if self.mode != EditorMode::WriteText {
            if let Event::Key(k) = e {
                if k.code == KeyCode::Char('t') && k.modifiers == MOD_NONE {
                    self.show_triggers = !self.show_triggers;
                    return self.event(UiEventType::Changed);
                }
            }
        }
        match self.mode {
            EditorMode::View => self.input_view(e),
            EditorMode::WriteText => self.input_text(e),
            EditorMode::Paint => self.input_paint(e),
            EditorMode::SetMarkers => self.input_markers(e),
            _ => {},
        }
        None
    }

    /// Handles an input event: as `input_sized`, with the terminal's current size.
    pub fn input(&mut self, e: &Event) -> (r: Option<UiEvent>)
        requires
            old(self).wf(),
        ensures
            final(self).wf(),
            exists|size: (u16, u16)| input_post(*old(self), *final(self), *e, size, r),
    {
        let size = buffer_size();
        self.input_sized(e, size)
    }

    /// A tick with the terminal at `size`: test play runs its own tick, and a result of it
    /// ends test play; in view mode a selection being made stretches to the cursor.
    pub fn update_sized(&mut self, size: (u16, u16)) -> (r: Option<UiEvent>)
        requires
            old(self).wf(),
        ensures
            final(self).wf(),
            update_post(*old(self), *final(self), size, r),
    {
        if self.mode == EditorMode::Play {
            let r = self.test_runer.update_sized(size);
            return self.handle_test_play(r);
        } else if self.mode == EditorMode::View {
            if self.selecting_rect {
                let br = self.selection_rect.bottom_right();
                if br.x != self.cursor_pos.x || br.y != self.cursor_pos.y {
                    self.selection_rect.size = V2::make(
                        self.cursor_pos.x - self.selection_rect.pos.x + 1,
                        self.cursor_pos.y - self.selection_rect.pos.y + 1,
                    );
                }
            }
        }
        None
    }

    /// A tick: as `update_sized`, with the terminal's current size.
    pub fn update(&mut self) -> (r: Option<UiEvent>)
        requires
            old(self).wf(),
        ensures
            final(self).wf(),
            exists|size: (u16, u16)| update_post(*old(self), *final(self), size, r),
    {
        let size = buffer_size();
        self.update_sized(size)
    }
}

/// `n` is `o` with test play started on a copy of its level, the actor at `pos`.
pub open spec fn test_started(o: LevelEditor, n: LevelEditor, pos: V2) -> bool {
    &&& n.wf()
    &&& n.test_runer.level.same_as(&o.level)
    &&& n.test_runer.backup_level.same_as(&o.level)
    &&& n.test_runer.pos == pos
    &&& n.test_runer.id == o.test_runer.id
    &&& n == (LevelEditor { mode: EditorMode::Play, test_runer: n.test_runer, ..o })
}

/// `n` is `o` with the cell at `pos` painted in `o`'s paint mode.
pub open spec fn painted_at(o: LevelEditor, n: LevelEditor, pos: V2) -> bool {
    &&& n.wf()
    &&& o.level.set_result(&n.level, pos, paint_spec(o.level.cell_at(pos), o.paint_mode))
    &&& n == (LevelEditor { level: n.level, ..o })
}

/// `n` is `o` with the cell at `pos` given the glyph `letter`.
pub open spec fn lettered_at(o: LevelEditor, n: LevelEditor, pos: V2, letter: char) -> bool {
    &&& n.wf()
    &&& o.level.set_result(&n.level, pos, with_letter(o.level.cell_at(pos), letter))
    &&& n == (LevelEditor { level: n.level, ..o })
}

/// `n` is `o` with the cells under `rec` copied to `target`.
pub open spec fn rect_copied(o: LevelEditor, n: LevelEditor, rec: Rectangle, target: V2) -> bool {
    &&& n.wf()
    &&& same_frame(o.level, n.level)
    &&& forall|q: V2| #[trigger] n.level.cell_at(q) == pasted_cell(o.level, o.level, rec, target, q)
    &&& n == (LevelEditor { level: n.level, ..o })
}

/// `n` is `o` with the cells under `rec` moved to `target`, those left behind painted
/// in `o`'s paint mode and without glyphs.
pub open spec fn rect_moved(o: LevelEditor, n: LevelEditor, rec: Rectangle, target: V2) -> bool {
    &&& n.wf()
    &&& same_frame(o.level, n.level)
    &&& forall|q: V2| #[trigger] n.level.cell_at(q) == if o.level.spec_contains(q) && rec.spec_contains(source_of(rec, target, q)) {
        o.level.cell_at(source_of(rec, target, q))
    } else if o.level.spec_contains(q) && rec.spec_contains(q) {
        with_letter(paint_spec(o.level.cell_at(q), o.paint_mode), ' ')
    } else {
        o.level.cell_at(q)
    }
    &&& n == (LevelEditor { level: n.level, ..o })
}

/// `n` is `o` with `rec` filled with the cell at its corner.
pub open spec fn rect_filled(o: LevelEditor, n: LevelEditor, rec: Rectangle) -> bool {
    &&& n.wf()
    &&& same_frame(o.level, n.level)
    &&& forall|q: V2| #[trigger] n.level.cell_at(q) == if o.level.spec_contains(q) && rec.spec_contains(q) {
        o.level.cell_at(rec.pos)
    } else {
        o.level.cell_at(q)
    }
    &&& n == (LevelEditor { level: n.level, ..o })
}

/// A redraw request from the widget `id`.
pub open spec fn changed(id: UiId) -> Option<UiEvent> {
    Some(UiEvent { id, e: UiEventType::Changed })
}

/// The viewport corner after following `pos` with the editor's margin in a terminal of `size`.
pub open spec fn editor_follow(corner: V2, pos: V2, size: (u16, u16)) -> V2 {
    if inner_view(corner, V2::from_spec(size), EDITOR_MARGIN as int).spec_contains(pos) {
        corner
    } else {
        follow_spec(corner, pos, V2::from_spec(size), EDITOR_MARGIN as int)
    }
}

/// The cursor step of an arrow key without modifiers.
pub open spec fn arrow_dir(e: Event) -> Option<V2> {
    if is_key(e, KeyCode::Up, MOD_NONE) {
        Some(v2(0, -1))
    } else if is_key(e, KeyCode::Down, MOD_NONE) {
        Some(v2(0, 1))
    } else if is_key(e, KeyCode::Left, MOD_NONE) {
        Some(v2(-1, 0))
    } else if is_key(e, KeyCode::Right, MOD_NONE) {
        Some(v2(1, 0))
    } else {
        None
    }
}

/// The step of `w`, `s`, `a` or `d` without modifiers: up, down, left, right.
pub open spec fn letter_dir(e: Event) -> Option<V2> {
    if is_key(e, KeyCode::Char('w'), MOD_NONE) {
        Some(v2(0, -1))
    } else if is_key(e, KeyCode::Char('s'), MOD_NONE) {
        Some(v2(0, 1))
    } else if is_key(e, KeyCode::Char('a'), MOD_NONE) {
        Some(v2(-1, 0))
    } else if is_key(e, KeyCode::Char('d'), MOD_NONE) {
        Some(v2(1, 0))
    } else {
        None
    }
}

/// The terminal cell of a left click without modifiers.
pub open spec fn left_click(e: Event) -> Option<V2> {
    match e {
        Event::Mouse(m) => if m.kind == MouseEventKind::LeftDown && m.modifiers == MOD_NONE {
            Some(v2(m.column as int, m.row as int))
        } else {
            None
        },
        _ => None,
    }
}

/// The keys that act the same in every editing mode: arrows, clicks and function keys.
pub open spec fn is_global_key(e: Event) -> bool {
    ||| arrow_dir(e) is Some
    ||| left_click(e) is Some
    ||| is_key(e, KeyCode::F(2), MOD_NONE)
    ||| is_key(e, KeyCode::F(3), MOD_NONE)
    ||| is_key(e, KeyCode::F(4), MOD_NONE)
    ||| is_key(e, KeyCode::F(5), MOD_NONE)
    ||| is_key(e, KeyCode::F(6), MOD_NONE)
    ||| is_key(e, KeyCode::F(8), MOD_NONE)
    ||| is_key(e, KeyCode::F(8), MOD_SHIFT)
    ||| is_key(e, KeyCode::F(9), MOD_NONE)
}

/// The cursor moved to `p`, where `p` is within the limits, and the viewport following it.
pub open spec fn cursor_moved(o: LevelEditor, n: LevelEditor, p: V2, size: (u16, u16)) -> bool {
    let c = if coord_ok(p) { p } else { o.cursor_pos };
    n == (LevelEditor { cursor_pos: c, view_corner: editor_follow(o.view_corner, c, size), ..o })
}

/// The effect of a global key `e` on the editor `o`, in a terminal of `size`.
pub open spec fn global_post(o: LevelEditor, n: LevelEditor, e: Event, size: (u16, u16)) -> bool {
    if arrow_dir(e) is Some {
        cursor_moved(o, n, step_within(o.cursor_pos, arrow_dir(e)->0), size)
    } else if left_click(e) is Some {
        cursor_moved(o, n, v2(o.view_corner.x + left_click(e)->0.x, o.view_corner.y + left_click(e)->0.y), size)
    } else if is_key(e, KeyCode::F(2), MOD_NONE) {
        n == (LevelEditor { mode: EditorMode::View, ..o })
    } else if is_key(e, KeyCode::F(3), MOD_NONE) {
        n == (LevelEditor { mode: EditorMode::WriteText, wrap_pos: o.cursor_pos, ..o })
    } else if is_key(e, KeyCode::F(4), MOD_NONE) {
        n == (LevelEditor { wrap_pos: o.cursor_pos, ..o })
    } else if is_key(e, KeyCode::F(5), MOD_NONE) {
        n == (LevelEditor { mode: EditorMode::Paint, ..o })
    } else if is_key(e, KeyCode::F(6), MOD_NONE) {
        n == (LevelEditor { mode: EditorMode::SetMarkers, ..o })
    } else if is_key(e, KeyCode::F(8), MOD_NONE) {
        test_started(o, n, o.level.p0)
    } else if is_key(e, KeyCode::F(8), MOD_SHIFT) {
        test_started(o, n, o.cursor_pos)
    } else {
        &&& n.requests@ == o.requests@.push(EditorRequest::LeaveScreen).push(EditorRequest::Save)
        &&& n == (LevelEditor { mode: EditorMode::ErrorMessage, requests: n.requests, ..o })
    }
}

/// The keys that resize the level to the cursor: `R`, with or without shift, and shift `r`.
pub open spec fn is_resize_key(e: Event) -> bool {
    is_key(e, KeyCode::Char('R'), MOD_NONE) || is_key(e, KeyCode::Char('R'), MOD_SHIFT)
        || is_key(e, KeyCode::Char('r'), MOD_SHIFT)
}

/// The keys that end a selection: Enter, `m` or Escape.
pub open spec fn is_commit_key(e: Event) -> bool {
    is_key(e, KeyCode::Enter, MOD_NONE) || is_key(e, KeyCode::Char('m'), MOD_NONE)
        || is_key(e, KeyCode::Esc, MOD_NONE)
}

/// Backspace, or control and `h`.
pub open spec fn is_erase_key(e: Event) -> bool {
    is_key(e, KeyCode::Backspace, MOD_NONE) || is_key(e, KeyCode::Char('h'), MOD_CONTROL)
}

/// `n` is `o` with its level resized to `size`, where both sides are at least 5.
pub open spec fn level_resized(o: LevelEditor, n: LevelEditor, size: V2) -> bool {
    &&& n.wf()
    &&& if size.x < 5 || size.y < 5 {
        n == o
    } else {
        &&& n.level.width == size.x
        &&& n.level.height == size.y
        &&& n.level.p0 == o.level.p0
        &&& n.level.triggers == o.level.triggers
        &&& forall|q: V2| #[trigger] n.level.cell_at(q) == resized_cell(o.level, size, q)
        &&& n == (LevelEditor { level: n.level, ..o })
    }
}

/// The effect of the key `e` in view mode.
pub open spec fn view_post(o: LevelEditor, n: LevelEditor, e: Event) -> bool {
    let sel = o.selection_rect.spec_normalized();
    if is_key(e, KeyCode::Char('e'), MOD_NONE) {
        n == (LevelEditor { mode: EditorMode::WriteText, wrap_pos: o.cursor_pos, ..o })
    } else if is_resize_key(e) {
        level_resized(o, n, o.cursor_pos)
    } else if is_key(e, KeyCode::Char('m'), MOD_NONE) && !o.selecting_rect {
        n == (LevelEditor {
            selecting_rect: true,
            selection_rect: Rectangle { pos: o.cursor_pos, size: v2(1, 1) },
            ..o
        })
    } else if is_commit_key(e) && o.selecting_rect {
        n == (LevelEditor { selecting_rect: false, selection_rect: sel, ..o })
    } else if is_key(e, KeyCode::Char('k'), MOD_NONE) {
        rect_copied(o, n, sel, o.cursor_pos)
    } else if is_key(e, KeyCode::Char('l'), MOD_NONE) {
        rect_moved(o, n, sel, o.cursor_pos)
    } else if is_key(e, KeyCode::Char('0'), MOD_NONE) {
        rect_filled(o, n, sel)
    } else {
        n == o
    }
}

/// A printable character typed alone or with shift.
pub open spec fn typed_char(e: Event) -> Option<char> {
    match e {
        Event::Key(k) => match k.code {
            KeyCode::Char(c) => if !is_control_spec(c) && (k.modifiers == MOD_NONE || k.modifiers == MOD_SHIFT) {
                Some(c)
            } else {
                None
            },
            _ => None,
        },
        _ => None,
    }
}

/// The effect of the key `e` in text mode.
pub open spec fn text_post(o: LevelEditor, n: LevelEditor, e: Event) -> bool {
    if is_key(e, KeyCode::Enter, MOD_NONE) {
        let p = v2(o.wrap_pos.x as int, o.cursor_pos.y + 1);
        n == (LevelEditor { cursor_pos: if coord_ok(p) { p } else { o.cursor_pos }, ..o })
    } else if is_key(e, KeyCode::Esc, MOD_NONE) {
        n == (LevelEditor { mode: EditorMode::View, ..o })
    } else if is_erase_key(e) {
        let c = step_within(o.cursor_pos, v2(-1, 0));
        lettered_at(LevelEditor { cursor_pos: c, ..o }, n, c, '\0')
    } else if typed_char(e) is Some {
        let c = step_within(o.cursor_pos, v2(1, 0));
        &&& n.cursor_pos == c
        &&& lettered_at(o, LevelEditor { cursor_pos: o.cursor_pos, ..n }, o.cursor_pos, typed_char(e)->0)
    } else {
        n == o
    }
}

/// The paint-mode keys of the bottom row.
pub open spec fn paint_letter(e: Event) -> Option<char> {
    match e {
        Event::Key(k) => match k.code {
            KeyCode::Char(c) => if k.modifiers == MOD_NONE && (c == 'z' || c == 'x' || c == 'c' || c == 'v' || c == 'b' || c == 'n' || c == 'm') {
                Some(c)
            } else {
                None
            },
            _ => None,
        },
        _ => None,
    }
}

/// The effect of the key `e` in paint mode.
pub open spec fn paint_post(o: LevelEditor, n: LevelEditor, e: Event) -> bool {
    if is_key(e, KeyCode::Esc, MOD_NONE) {
        n == (LevelEditor { mode: EditorMode::View, ..o })
    } else if letter_dir(e) is Some {
        let c = step_within(o.cursor_pos, letter_dir(e)->0);
        painted_at(LevelEditor { cursor_pos: c, ..o }, n, c)
    } else if paint_letter(e) is Some {
        n == (LevelEditor { paint_mode: letter_paint_spec(paint_letter(e)->0), ..o })
    } else if is_key(e, KeyCode::Char(' '), MOD_NONE) {
        painted_at(o, n, o.cursor_pos)
    } else {
        n == o
    }
}

/// The exit that a marker key places: `x` the first branch, `c` the second, `v` the end.
pub open spec fn marker_exit(e: Event) -> Option<Seq<char>> {
    if is_key(e, KeyCode::Char('x'), MOD_NONE) {
        Some(seq!['e', 'x', 'i', 't', '1'])
    } else if is_key(e, KeyCode::Char('c'), MOD_NONE) {
        Some(seq!['e', 'x', 'i', 't', '2'])
    } else if is_key(e, KeyCode::Char('v'), MOD_NONE) {
        Some(seq!['e', 'x', 'i', 't', '0'])
    } else {
        None
    }
}

/// `n` is `o` with the triggers `ts` in place of its level's.
pub open spec fn triggers_now(o: LevelEditor, n: LevelEditor, ts: Seq<Trigger>) -> bool {
    &&& n.wf()
    &&& n.level.triggers@ == ts
    &&& n == (LevelEditor { level: Level { triggers: n.level.triggers, ..o.level }, ..o })
}

/// The effect of the key `e` in marker mode.
pub open spec fn markers_post(o: LevelEditor, n: LevelEditor, e: Event) -> bool {
    let rest = triggers_without(o.level.triggers@, o.cursor_pos);
    if is_key(e, KeyCode::Esc, MOD_NONE) {
        n == (LevelEditor { mode: EditorMode::View, ..o })
    } else if is_key(e, KeyCode::Char('z'), MOD_NONE) {
        n == (LevelEditor { level: Level { p0: o.cursor_pos, ..o.level }, ..o })
    } else if is_erase_key(e) {
        triggers_now(o, n, rest)
    } else if marker_exit(e) is Some {
        &&& n.level.triggers@.len() == rest.len() + 1
        &&& n.level.triggers@.subrange(0, rest.len() as int) == rest
        &&& n.level.triggers@.last().pos == o.cursor_pos
        &&& n.level.triggers@.last().id@ == marker_exit(e)->0
        &&& triggers_now(o, n, n.level.triggers@)
    } else {
        n == o
    }
}

/// The step of `w`, `s`, `a` or `d` without modifiers.
fn pan_direction(e: &Event) -> (r: Option<V2>)
    ensures
        r == letter_dir(*e),
{
    if let Event::Key(k) = e {
        if k.modifiers == MOD_NONE {
            return match k.code {
                KeyCode::Char('w') => Some(V2::make(0, -1)),
                KeyCode::Char('s') => Some(V2::make(0, 1)),
                KeyCode::Char('a') => Some(V2::make(-1, 0)),
                KeyCode::Char('d') => Some(V2::make(1, 0)),
                _ => None,
            };
        }
    }
    None
}

/// The viewport corner moved by `d`, or `c` where that would leave the limits.
pub open spec fn pan_within(c: V2, d: V2) -> V2 {
    if corner_ok(v2_add(c, d)) {
        v2_add(c, d)
    } else {
        c
    }
}

/// `n` and `r` are the editor and the bubbled event after the input event `e` reached
/// the editor `o`, in a terminal of `size`.
pub open spec fn input_post(o: LevelEditor, n: LevelEditor, e: Event, size: (u16, u16), r: Option<UiEvent>) -> bool {
    let o1 = LevelEditor { need_refresh: true, ..o };
    if o.mode == EditorMode::ErrorMessage {
        if e is Key {
            &&& n.requests@ == o.requests@.push(EditorRequest::EnterScreen)
            &&& n == (LevelEditor { mode: EditorMode::View, requests: n.requests, ..o1 })
            &&& r == changed(o.id)
        } else {
            n == o1 && r is None
        }
    } else if o.mode == EditorMode::Play {
        if is_key(e, KeyCode::Esc, MOD_NONE) {
            n == (LevelEditor { mode: EditorMode::View, ..o1 }) && r == changed(o.id)
        } else {
            &&& runner_input_post(o.test_runer, n.test_runer, e, size)
            &&& n == (LevelEditor { test_runer: n.test_runer, ..o1 })
            &&& r == runner_input_result(o.test_runer.id, e)
        }
    } else if is_global_key(e) {
        global_post(o1, n, e, size) && r == changed(o.id)
    } else if letter_dir(e) is Some && o.mode != EditorMode::WriteText && o.mode != EditorMode::Paint {
        n == (LevelEditor { view_corner: pan_within(o.view_corner, letter_dir(e)->0), ..o1 }) && r == changed(o.id)
    } else if is_key(e, KeyCode::Char('t'), MOD_NONE) && o.mode != EditorMode::WriteText {
        n == (LevelEditor { show_triggers: !o.show_triggers, ..o1 }) && r == changed(o.id)
    } else {
        &&& r is None
        &&& match o.mode {
            EditorMode::View => view_post(o1, n, e),
            EditorMode::WriteText => text_post(o1, n, e),
            EditorMode::Paint => paint_post(o1, n, e),
            EditorMode::SetMarkers => markers_post(o1, n, e),
            _ => n == o1,
        }
    }
}

/// `n` and `r` are the editor and the bubbled event after a tick of the editor `o` in a
/// terminal of `size`.
pub open spec fn update_post(o: LevelEditor, n: LevelEditor, size: (u16, u16), r: Option<UiEvent>) -> bool {
    let t = o.test_runer;
    let sel = o.selection_rect;
    if o.mode == EditorMode::Play {
        if at_exit(t.level.triggers@, t.pos) {
            n == (LevelEditor { mode: EditorMode::View, ..o }) && r == changed(o.id)
        } else if inner_view(t.view_corner, V2::from_spec(size), RUNNER_MARGIN as int).spec_contains(t.pos) {
            n == o && r is None
        } else {
            &&& n == (LevelEditor {
                test_runer: LevelRunner {
                    view_corner: follow_spec(t.view_corner, t.pos, V2::from_spec(size), RUNNER_MARGIN as int),
                    need_refresh: true,
                    ..t
                },
                ..o
            })
            &&& r == changed(t.id)
        }
    } else if o.mode == EditorMode::View && o.selecting_rect && (sel.spec_right() != o.cursor_pos.x || sel.spec_bottom() != o.cursor_pos.y) {
        &&& n == (LevelEditor {
            selection_rect: Rectangle {
                size: v2(o.cursor_pos.x - sel.pos.x + 1, o.cursor_pos.y - sel.pos.y + 1),
                ..sel
            },
            ..o
        })
        &&& r is None
    } else {
        n == o && r is None
    }
}

} // verus!
