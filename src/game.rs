//! The puzzle simulation, the level sequencer and the level editor.
use vstd::prelude::*;
use crate::input::{Event, KeyCode, MOD_NONE, is_key};
use crate::level::{Cell, CellColor, COORD_LIMIT, Level, LevelList, Trigger, coord_ok, is_base};
use crate::ui::{UiContext, UiEvent, UiEventType, UiId, UiResult, buffer_size, is_terminal};
use crate::vecmath::{Rectangle, V2, v2, v2_add};

verus! {

/// Whether a viewport corner is within twice `COORD_LIMIT` of the origin.
pub open spec fn corner_ok(p: V2) -> bool {
    -2 * COORD_LIMIT <= p.x <= 2 * COORD_LIMIT && -2 * COORD_LIMIT <= p.y <= 2 * COORD_LIMIT
}

/// Whether `size` is a terminal size: columns and rows that fit in `u16`.
pub open spec fn screen_size_ok(size: V2) -> bool {
    0 <= size.x <= u16::MAX && 0 <= size.y <= u16::MAX
}

/// The part of the viewport at `corner` of the given size that lies at least `margin`
/// cells inside its edges.
pub open spec fn inner_view(corner: V2, size: V2, margin: int) -> Rectangle {
    Rectangle { pos: corner, size }.spec_grow(-margin)
}

/// The viewport's corner on one axis after following the point `p`: where `p` lies
/// beyond the inner band on either side, the corner shifts just enough to bring `p`
/// onto the band's edge, `m` cells inside the viewport.
pub open spec fn follow_axis(c: int, p: int, s: int, m: int) -> int {
    if p > c + s - m - 1 {
        p + m + 1 - s
    } else if p < c + m {
        p - m
    } else {
        c
    }
}

pub open spec fn follow_spec(corner: V2, pos: V2, size: V2, margin: int) -> V2 {
    v2(follow_axis(corner.x as int, pos.x as int, size.x as int, margin),
        follow_axis(corner.y as int, pos.y as int, size.y as int, margin))
}

/// The largest margin that the viewport-follow step is used with.
pub const MAX_MARGIN: i32 = 16;

/// The viewport corner that keeps `pos` in view, and whether it differs from `corner`'s
/// view: it moves exactly when `pos` lies outside the viewport shrunk by `margin`.
pub fn follow_view(corner: V2, pos: V2, size: V2, margin: i32) -> (r: (V2, bool))
    requires
        corner_ok(corner),
        coord_ok(pos),
        screen_size_ok(size),
        0 <= margin <= MAX_MARGIN,
    ensures
        r.1 == !inner_view(corner, size, margin as int).spec_contains(pos),
        r.1 ==> r.0 == follow_spec(corner, pos, size, margin as int),
        !r.1 ==> r.0 == corner,
        corner_ok(r.0),
{
    let view = Rectangle { pos: corner, size }.grow(-margin);
    if view.contains(pos) {
        return (corner, false);
    }
    let mut c = corner;
    if pos.x < view.left() {
        c.x = pos.x - margin;
    }
    if pos.x > view.right() {
        c.x = pos.x + margin + 1 - size.x;
    }
    if pos.y < view.top() {
        c.y = pos.y - margin;
    }
    if pos.y > view.bottom() {
        c.y = pos.y + margin + 1 - size.y;
    }
    (c, true)
}

/// After the follow step the point lies inside the viewport shrunk by the margin,
/// whenever the viewport is wider and taller than twice the margin.
pub proof fn lemma_follow_contains(corner: V2, pos: V2, size: V2, margin: int)
    requires
        corner_ok(corner),
        coord_ok(pos),
        screen_size_ok(size),
        0 <= margin <= MAX_MARGIN,
        size.x > 2 * margin,
        size.y > 2 * margin,
    ensures
        inner_view(follow_spec(corner, pos, size, margin), size, margin).spec_contains(pos),
{
}

/// The margin, in cells, that the runner keeps between the actor and the viewport's edges.
pub const RUNNER_MARGIN: i32 = 5;

/// The trigger identifier that ends a level: `exit0`.
pub open spec fn terminal_exit_id() -> Seq<char> {
    seq!['e', 'x', 'i', 't', '0']
}

/// The identifiers of the two branch exits: `exit1` and `exit2`.
pub open spec fn branch_exit_ids(id: Seq<char>) -> bool {
    id == seq!['e', 'x', 'i', 't', '1'] || id == seq!['e', 'x', 'i', 't', '2']
}

/// One step left, right, up or down.
pub open spec fn is_cardinal(d: V2) -> bool {
    (d.x == 0 && (d.y == 1 || d.y == -1)) || (d.y == 0 && (d.x == 1 || d.x == -1))
}

/// What a step of the actor does.
pub enum StepKind {
    /// Nothing moves.
    Stay,
    /// The actor moves onto the target cell.
    Move,
    /// The target's glyph slides one cell further and the actor follows.
    Push,
    /// The target's glyph and the equal glyph beyond it both vanish and the actor moves.
    Cancel,
    /// The actor glyph moves from the target cell to the actor's cell and the actor moves.
    Swap,
}

/// The kind of step from `pos` in direction `dir` on `l`.
pub open spec fn step_kind(l: Level, pos: V2, dir: V2) -> StepKind {
    let target = v2_add(pos, dir);
    let next = v2_add(target, dir);
    let here = l.cell_at(pos);
    let t = l.cell_at(target);
    let n = l.cell_at(next);
    if !l.spec_contains(target) {
        StepKind::Stay
    } else if t.background == here.background {
        if t.is_blank() {
            StepKind::Move
        } else if is_base(t.foreground) && l.spec_contains(next) && n.background == t.background
            && n.is_blank() {
            StepKind::Push
        } else if is_base(t.foreground) && l.spec_contains(next) && n.background != t.background
            && n.letter == t.letter {
            StepKind::Cancel
        } else if t.foreground == CellColor::LightGray {
            StepKind::Move
        } else {
            StepKind::Stay
        }
    } else if is_base(here.background) && is_base(t.background) && t.letter == '@' {
        StepKind::Swap
    } else {
        StepKind::Stay
    }
}

/// Where the actor stands after a step from `pos` in direction `dir`.
pub open spec fn walk_pos(l: Level, pos: V2, dir: V2) -> V2 {
    if step_kind(l, pos, dir) is Stay {
        pos
    } else {
        v2_add(pos, dir)
    }
}

pub open spec fn with_letter(c: Cell, letter: char) -> Cell {
    Cell { letter, ..c }
}

/// The cell at `q` after a step from `pos` in direction `dir`.
pub open spec fn walk_cell(l: Level, pos: V2, dir: V2, q: V2) -> Cell {
    let target = v2_add(pos, dir);
    let next = v2_add(target, dir);
    let here = l.cell_at(pos);
    let t = l.cell_at(target);
    let n = l.cell_at(next);
    match step_kind(l, pos, dir) {
        StepKind::Push => if q == target {
            with_letter(t, ' ')
        } else if q == next {
            with_letter(n, t.letter)
        } else {
            l.cell_at(q)
        },
        StepKind::Cancel => if q == target {
            with_letter(t, ' ')
        } else if q == next {
            with_letter(n, ' ')
        } else {
            l.cell_at(q)
        },
        StepKind::Swap => if q == target {
            with_letter(t, ' ')
        } else if q == pos && l.spec_contains(pos) {
            with_letter(here, '@')
        } else {
            l.cell_at(q)
        },
        _ => l.cell_at(q),
    }
}

/// `after` is `before` with its cells as a step from `pos` in direction `dir` leaves them.
pub open spec fn walked(before: Level, after: Level, pos: V2, dir: V2) -> bool {
    &&& after.wf()
    &&& after.width == before.width
    &&& after.height == before.height
    &&& after.p0 == before.p0
    &&& after.triggers == before.triggers
    &&& forall|q: V2| #[trigger] after.cell_at(q) == walk_cell(before, pos, dir, q)
}

/// The index of the first trigger at `pos`, looking from index `i` on.
pub open spec fn first_trigger_from(ts: Seq<Trigger>, pos: V2, i: int) -> Option<int>
    decreases ts.len() - i,
{
    if 0 <= i < ts.len() {
        if ts[i].pos == pos {
            Some(i)
        } else {
            first_trigger_from(ts, pos, i + 1)
        }
    } else {
        None
    }
}

pub proof fn lemma_first_trigger_from(ts: Seq<Trigger>, pos: V2, i: int)
    ensures
        first_trigger_from(ts, pos, i) matches Some(j) ==> i <= j < ts.len() && ts[j].pos == pos,
    decreases ts.len() - i,
{
    if 0 <= i < ts.len() && ts[i].pos != pos {
        lemma_first_trigger_from(ts, pos, i + 1);
    }
}

/// The index of the first trigger at `pos`.
pub open spec fn first_trigger(ts: Seq<Trigger>, pos: V2) -> Option<int> {
    first_trigger_from(ts, pos, 0)
}

/// `r` is the result event of the widget `id` carrying the exit identifier `name`.
pub open spec fn is_exit_event(r: Option<UiEvent>, id: UiId, name: Seq<char>) -> bool {
    &&& r is Some
    &&& r->0.id == id
    &&& r->0.e matches UiEventType::Result(UiResult::Exit(s))
    &&& s@ == name
}

/// The outcome that a runner with identity `id`, whose actor stands at `pos` among the
/// triggers `ts`, reports for the trigger there, if that trigger is an exit.
pub open spec fn trigger_outcome(id: UiId, ts: Seq<Trigger>, pos: V2, r: Option<UiEvent>) -> bool {
    match first_trigger(ts, pos) {
        Some(i) => if ts[i].id@ == terminal_exit_id() {
            r == Some(UiEvent { id, e: UiEventType::Done })
        } else if branch_exit_ids(ts[i].id@) {
            is_exit_event(r, id, ts[i].id@)
        } else {
            false
        },
        None => false,
    }
}

/// Whether the trigger at `pos`, if any, is an exit.
pub open spec fn at_exit(ts: Seq<Trigger>, pos: V2) -> bool {
    match first_trigger(ts, pos) {
        Some(i) => ts[i].id@ == terminal_exit_id() || branch_exit_ids(ts[i].id@),
        None => false,
    }
}

/// Whether `s` holds the same characters as `lit`.
fn string_is(s: &String, lit: &str) -> (r: bool)
    ensures
        r == (s@ == lit@),
{
    let t = lit.to_string();
    *s == t
}

/// The puzzle simulation: one actor walking and pushing glyphs on a level.
pub struct LevelRunner {
    pub level: Level,
    /// The level as it was when play started, restored by `restart`.
    pub backup_level: Level,
    pub pos: V2,
    pub view_corner: V2,
    pub need_refresh: bool,
    pub id: UiId,
}

impl LevelRunner {
    /// Both levels are well formed and the actor and viewport corner lie within the
    /// coordinate limits.
    pub open spec fn wf(&self) -> bool {
        &&& self.level.wf()
        &&& self.backup_level.wf()
        &&& coord_ok(self.pos)
        &&& corner_ok(self.view_corner)
    }

    /// A runner on an empty 10 by 10 level.
    pub fn new(ui: &mut UiContext) -> (r: LevelRunner)
        requires
            old(ui).wf(),
            old(ui).counter() < u64::MAX,
        ensures
            r.wf(),
            final(ui).wf(),
            final(ui).counter() == old(ui).counter() + 1,
            r.id.spec_value() == old(ui).counter(),
            r.level.width == 10,
            r.level.height == 10,
            r.pos == (V2 { x: 2, y: 2 }),
            r.view_corner == (V2 { x: 0, y: 0 }),
            r.need_refresh,
    {
        LevelRunner {
            id: ui.next_id(),
            level: Level::new(10, 10),
            backup_level: Level::new(10, 10),
            pos: V2::make(2, 2),
            view_corner: V2::make(0, 0),
            need_refresh: true,
        }
    }

    /// A runner on a copy of `level`, with the actor at its start point.
    pub fn new_with_level(ui: &mut UiContext, level: &Level) -> (r: LevelRunner)
        requires
            old(ui).wf(),
            old(ui).counter() < u64::MAX,
            level.wf(),
        ensures
            r.wf(),
            final(ui).wf(),
            final(ui).counter() == old(ui).counter() + 1,
            r.id.spec_value() == old(ui).counter(),
            r.level.same_as(level),
            r.backup_level.same_as(level),
            r.pos == level.p0,
            r.view_corner == (V2 { x: 0, y: 0 }),
            r.need_refresh,
    {
        let mut res = LevelRunner::new(ui);
        res.level = level.duplicate();
        res.backup_level = level.duplicate();
        res.pos = level.p0;
        res
    }

    pub fn get_id(&self) -> (r: UiId)
        ensures
            r == self.id,
    {
        self.id
    }

    /// `e` bubbled up from this runner.
    pub fn event(&self, e: UiEventType) -> (r: Option<UiEvent>)
        ensures
            r == Some(UiEvent { id: self.id, e }),
    {
        Some(UiEvent { id: self.id, e })
    }

    pub fn mark_refresh(&mut self, value: bool)
        ensures
            *final(self) == (LevelRunner { need_refresh: value, ..*old(self) }),
    {
        self.need_refresh = value;
    }

    pub fn need_refresh(&self) -> (r: bool)
        ensures
            r == self.need_refresh,
    {
        self.need_refresh
    }

    /// The terminal was resized: draw again.
    pub fn resize(&mut self, _widget_size: &Rectangle)
        ensures
            *final(self) == (LevelRunner { need_refresh: true, ..*old(self) }),
    {
        self.need_refresh = true;
    }

    /// The viewport: its corner, and the terminal's size.
    pub fn get_view_rect(&self) -> (r: Rectangle)
        ensures
            r.pos == self.view_corner,
            screen_size_ok(r.size),
    {
        let size = buffer_size();
        Rectangle { pos: self.view_corner, size: V2::from(size) }
    }

    /// Puts the actor on the start point and keeps a copy of the level for `restart`.
    pub fn start(&mut self)
        requires
            old(self).wf(),
        ensures
            final(self).wf(),
            final(self).pos == old(self).level.p0,
            final(self).level == old(self).level,
            final(self).backup_level.same_as(&old(self).level),
            final(self).view_corner == old(self).view_corner,
            final(self).id == old(self).id,
            final(self).need_refresh == old(self).need_refresh,
    {
        self.pos = self.level.p0;
        self.backup_level = self.level.duplicate();
    }

    /// Puts back the level kept by `start`, then starts again.
    pub fn restart(&mut self)
        requires
            old(self).wf(),
        ensures
            final(self).wf(),
            final(self).level.same_as(&old(self).backup_level),
            final(self).backup_level.same_as(&old(self).backup_level),
            final(self).pos == old(self).backup_level.p0,
            final(self).view_corner == old(self).view_corner,
            final(self).id == old(self).id,
            final(self).need_refresh == old(self).need_refresh,
    {
        self.level = self.backup_level.duplicate();
        self.start();
    }

    /// Moves the viewport so that the actor stays `RUNNER_MARGIN` cells inside a
    /// terminal of `size` columns and rows; says whether it moved.
    pub fn follow_actor(&mut self, size: (u16, u16)) -> (moved: bool)
        requires
            old(self).wf(),
        ensures
            final(self).wf(),
            moved == !inner_view(old(self).view_corner, V2::from_spec(size), RUNNER_MARGIN as int).spec_contains(old(self).pos),
            moved ==> final(self).view_corner == follow_spec(old(self).view_corner, old(self).pos, V2::from_spec(size), RUNNER_MARGIN as int),
            *final(self) == (LevelRunner { view_corner: final(self).view_corner, ..*old(self) }),
            !moved ==> *final(self) == *old(self),
    {
        let (c, moved) = follow_view(self.view_corner, self.pos, V2::from(size), RUNNER_MARGIN);
        self.view_corner = c;
        moved
    }

    /// Moves the viewport so that the actor stays `RUNNER_MARGIN` cells inside the
    /// terminal; says whether it moved.
    pub fn keep_cursor_in_view(&mut self) -> (moved: bool)
        requires
            old(self).wf(),
        ensures
            final(self).wf(),
            *final(self) == (LevelRunner { view_corner: final(self).view_corner, ..*old(self) }),
            !moved ==> *final(self) == *old(self),
            exists|size: (u16, u16)|
                moved == !inner_view(old(self).view_corner, V2::from_spec(size), RUNNER_MARGIN as int).spec_contains(old(self).pos)
                && (moved ==> final(self).view_corner == follow_spec(old(self).view_corner, old(self).pos, V2::from_spec(size), RUNNER_MARGIN as int)),
    {
        let size = buffer_size();
        self.follow_actor(size)
    }

    /// One step of the actor in direction `dir`: it moves onto an empty cell of its own
    /// background, pushes a glyph one cell on, cancels two equal glyphs, walks over
    /// light gray, or swaps with an actor glyph across base backgrounds; else it stays.
    pub fn walk(&mut self, dir: V2)
        requires
            old(self).wf(),
            is_cardinal(dir),
        ensures
            final(self).wf(),
            final(self).pos == walk_pos(old(self).level, old(self).pos, dir),
            walked(old(self).level, final(self).level, old(self).pos, dir),
            final(self).backup_level == old(self).backup_level,
            final(self).view_corner == old(self).view_corner,
            final(self).id == old(self).id,
            final(self).need_refresh == old(self).need_refresh,
    {
        let target = self.pos + dir;
        let bounds = self.level.bounds();
        if !bounds.contains(target) {
            return;
        }
        let here = self.level.get(self.pos);
        let target_cell = self.level.get(target);
        let next_cell = self.level.get(target + dir);
        if target_cell.background == here.background {
            if target_cell.empty() {
                self.pos = target;
                return;
            }
            if target_cell.foreground == CellColor::Black || target_cell.foreground == CellColor::White {
                // a push never leaves the grid
                if bounds.contains(target + dir) {
                    if next_cell.background == target_cell.background && next_cell.empty() {
                        let mut next2 = next_cell;
                        let mut target2 = target_cell;
                        next2.letter = target2.letter;
                        target2.letter = ' ';
                        self.level.set(target, target2);
                        self.level.set(target + dir, next2);
                        self.pos = target;
                        return;
                    }
                    if next_cell.background != target_cell.background && next_cell.letter == target_cell.letter {
                        let mut next2 = next_cell;
                        let mut target2 = target_cell;
                        next2.letter = ' ';
                        target2.letter = ' ';
                        self.level.set(target, target2);
                        self.level.set(target + dir, next2);
                        self.pos = target;
                        return;
                    }
                }
            }
            if target_cell.foreground == CellColor::LightGray {
                self.pos = target;
                return;
            }
        } else {
            if is_base_color(here.background) && is_base_color(target_cell.background) && target_cell.letter == '@' {
                let mut target2 = target_cell;
                target2.letter = ' ';
                let mut here2 = here;
                here2.letter = '@';
                self.level.set(self.pos, here2);
                self.level.set(target, target2);
                self.pos = target;
                return;
            }
        }
    }

    /// The index of the first trigger at `pos`.
    pub fn get_trigger_here(&self, pos: V2) -> (r: Option<usize>)
        ensures
            r matches Some(i) ==> first_trigger(self.level.triggers@, pos) == Some(i as int),
            r is None ==> first_trigger(self.level.triggers@, pos) is None,
    {
        let mut i: usize = 0;
        while i < self.level.triggers.len()
            invariant
                i <= self.level.triggers@.len(),
                first_trigger(self.level.triggers@, pos) == first_trigger_from(self.level.triggers@, pos, i as int),
            decreases self.level.triggers@.len() - i,
        {
            if self.level.triggers[i].pos == pos {
                return Some(i);
            }
            i = i + 1;
        }
        None
    }

    /// The exit event for the trigger under the actor, if it is an exit.
    fn exit_here(&self) -> (r: Option<UiEvent>)
        ensures
            at_exit(self.level.triggers@, self.pos) ==> trigger_outcome(self.id, self.level.triggers@, self.pos, r),
            !at_exit(self.level.triggers@, self.pos) ==> r is None,
    {
        if let Some(i) = self.get_trigger_here(self.pos) {
            proof {
                lemma_first_trigger_from(self.level.triggers@, self.pos, 0);
            }
            let id = &self.level.triggers[i].id;
            proof {
                reveal_strlit("exit0");
                reveal_strlit("exit1");
                reveal_strlit("exit2");
                assert("exit0"@ =~= terminal_exit_id());
                assert("exit1"@ =~= seq!['e', 'x', 'i', 't', '1']);
                assert("exit2"@ =~= seq!['e', 'x', 'i', 't', '2']);
            }
            if string_is(id, "exit0") {
                return self.event(UiEventType::Done);
            }
            if string_is(id, "exit1") || string_is(id, "exit2") {
                return self.event(UiEventType::Result(UiResult::Exit(id.clone())));
            }
        }
        None
    }

    /// A tick with the terminal at `size`: an exit under the actor ends the level (the
    /// terminal exit) or reports its identifier (a branch exit); else the viewport follows
    /// the actor, and a move of it asks for a redraw.
    pub fn update_sized(&mut self, size: (u16, u16)) -> (r: Option<UiEvent>)
        requires
            old(self).wf(),
        ensures
            runner_update_post(*old(self), *final(self), size, r),
    {
        let ex = self.exit_here();
        if ex.is_some() {
            return ex;
        }
        if self.follow_actor(size) {
            self.mark_refresh(true);
            return self.event(UiEventType::Changed);
        }
        None
    }

    /// A tick: as `update_sized`, with the terminal's current size.
    pub fn update(&mut self) -> (r: Option<UiEvent>)
        requires
            old(self).wf(),
        ensures
            final(self).wf(),
            at_exit(old(self).level.triggers@, old(self).pos) ==> {
                &&& trigger_outcome(old(self).id, old(self).level.triggers@, old(self).pos, r)
                &&& *final(self) == *old(self)
            },
            !at_exit(old(self).level.triggers@, old(self).pos) ==> {
                &&& r is None || r == Some(UiEvent { id: old(self).id, e: UiEventType::Changed })
                &&& *final(self) == (LevelRunner {
                    view_corner: final(self).view_corner,
                    need_refresh: final(self).need_refresh,
                    ..*old(self)
                })
            },
            exists|size: (u16, u16)| runner_update_post(*old(self), *final(self), size, r),
    {
        let size = buffer_size();
        self.update_sized(size)
    }

    /// A step of the actor, then the viewport follows it in a terminal of `size`; asks
    /// for a redraw.
    pub fn move_with_size(&mut self, dir: V2, size: (u16, u16))
        requires
            old(self).wf(),
            is_cardinal(dir),
        ensures
            runner_moved(*old(self), *final(self), dir, size),
    {
        self.walk(dir);
        self.follow_actor(size);
        self.mark_refresh(true);
    }

    /// A step of the actor, then the viewport follows it; asks for a redraw.
    pub fn move_with_ui(&mut self, dir: V2)
        requires
            old(self).wf(),
            is_cardinal(dir),
        ensures
            final(self).wf(),
            final(self).pos == walk_pos(old(self).level, old(self).pos, dir),
            walked(old(self).level, final(self).level, old(self).pos, dir),
            final(self).backup_level == old(self).backup_level,
            final(self).id == old(self).id,
            final(self).need_refresh,
            exists|size: (u16, u16)| runner_moved(*old(self), *final(self), dir, size),
    {
        let size = buffer_size();
        self.move_with_size(dir, size);
    }

    /// Handles a key with the terminal at `size`: `w`, `a`, `s`, `d` or the arrows walk,
    /// `r` restarts the level.
    pub fn input_sized(&mut self, e: &Event, size: (u16, u16)) -> (r: Option<UiEvent>)
        requires
            old(self).wf(),
        ensures
            runner_input_post(*old(self), *final(self), *e, size),
            r == runner_input_result(old(self).id, *e),
    {
        let dir = key_direction(e);
        if let Some(d) = dir {
            self.move_with_size(d, size);
            return self.event(UiEventType::Changed);
        }
        match e {
            Event::Key(k) => {
                if k.modifiers == MOD_NONE && k.code == KeyCode::Char('r') {
                    self.restart();
                    return self.event(UiEventType::Changed);
                }
            },
            _ => {},
        }
        None
    }

    /// Handles a key: as `input_sized`, with the terminal's current size.
    pub fn input(&mut self, e: &Event) -> (r: Option<UiEvent>)
        requires
            old(self).wf(),
        ensures
            final(self).wf(),
            final(self).id == old(self).id,
            r == runner_input_result(old(self).id, *e),
            runner_key_dir(*e) matches Some(d) ==> {
                &&& final(self).pos == walk_pos(old(self).level, old(self).pos, d)
                &&& walked(old(self).level, final(self).level, old(self).pos, d)
                &&& final(self).backup_level == old(self).backup_level
                &&& final(self).need_refresh
            },
            runner_key_dir(*e) is None && is_key(*e, KeyCode::Char('r'), MOD_NONE) ==> {
                &&& final(self).level.same_as(&old(self).backup_level)
                &&& final(self).backup_level.same_as(&old(self).backup_level)
                &&& final(self).pos == old(self).backup_level.p0
            },
            runner_key_dir(*e) is None && !is_key(*e, KeyCode::Char('r'), MOD_NONE) ==> *final(self) == *old(self),
            exists|size: (u16, u16)| runner_input_post(*old(self), *final(self), *e, size),
    {
        let size = buffer_size();
        self.input_sized(e, size)
    }
}

/// `n` and `r` are the runner and the bubbled event after a tick of `o` in a terminal
/// of `size`.
pub open spec fn runner_update_post(o: LevelRunner, n: LevelRunner, size: (u16, u16), r: Option<UiEvent>) -> bool {
    &&& n.wf()
    &&& at_exit(o.level.triggers@, o.pos) ==> {
        &&& trigger_outcome(o.id, o.level.triggers@, o.pos, r)
        &&& n == o
    }
    &&& !at_exit(o.level.triggers@, o.pos) ==> {
        let moved = !inner_view(o.view_corner, V2::from_spec(size), RUNNER_MARGIN as int).spec_contains(o.pos);
        &&& moved ==> r == Some(UiEvent { id: o.id, e: UiEventType::Changed })
        &&& moved ==> n == (LevelRunner {
            view_corner: follow_spec(o.view_corner, o.pos, V2::from_spec(size), RUNNER_MARGIN as int),
            need_refresh: true,
            ..o
        })
        &&& !moved ==> r is None && n == o
    }
}

/// `n` is the runner `o` after a step in direction `dir` and the follow step in a
/// terminal of `size`, asking for a redraw.
pub open spec fn runner_moved(o: LevelRunner, n: LevelRunner, dir: V2, size: (u16, u16)) -> bool {
    let p = walk_pos(o.level, o.pos, dir);
    &&& n.wf()
    &&& n.pos == p
    &&& walked(o.level, n.level, o.pos, dir)
    &&& n.backup_level == o.backup_level
    &&& n.id == o.id
    &&& n.need_refresh
    &&& n.view_corner == if inner_view(o.view_corner, V2::from_spec(size), RUNNER_MARGIN as int).spec_contains(p) {
        o.view_corner
    } else {
        follow_spec(o.view_corner, p, V2::from_spec(size), RUNNER_MARGIN as int)
    }
}

/// `n` is the runner `o` after the key `e` in a terminal of `size`.
pub open spec fn runner_input_post(o: LevelRunner, n: LevelRunner, e: Event, size: (u16, u16)) -> bool {
    &&& n.wf()
    &&& n.id == o.id
    &&& match runner_key_dir(e) {
        Some(d) => runner_moved(o, n, d, size),
        None => if is_key(e, KeyCode::Char('r'), MOD_NONE) {
            &&& n.level.same_as(&o.backup_level)
            &&& n.backup_level.same_as(&o.backup_level)
            &&& n.pos == o.backup_level.p0
            &&& n.view_corner == o.view_corner
            &&& n.need_refresh == o.need_refresh
        } else {
            n == o
        },
    }
}

/// What a runner with identity `id` reports for the key `e`: a redraw for its keys.
pub open spec fn runner_input_result(id: UiId, e: Event) -> Option<UiEvent> {
    if runner_key_dir(e) is Some || is_key(e, KeyCode::Char('r'), MOD_NONE) {
        Some(UiEvent { id, e: UiEventType::Changed })
    } else {
        None
    }
}

/// The step that a key of the runner asks for: `w` or up, `s` or down, `a` or left,
/// `d` or right, each without modifiers.
pub open spec fn runner_key_dir(e: Event) -> Option<V2> {
    if is_key(e, KeyCode::Char('w'), MOD_NONE) || is_key(e, KeyCode::Up, MOD_NONE) {
        Some(v2(0, -1))
    } else if is_key(e, KeyCode::Char('s'), MOD_NONE) || is_key(e, KeyCode::Down, MOD_NONE) {
        Some(v2(0, 1))
    } else if is_key(e, KeyCode::Char('a'), MOD_NONE) || is_key(e, KeyCode::Left, MOD_NONE) {
        Some(v2(-1, 0))
    } else if is_key(e, KeyCode::Char('d'), MOD_NONE) || is_key(e, KeyCode::Right, MOD_NONE) {
        Some(v2(1, 0))
    } else {
        None
    }
}

fn key_direction(e: &Event) -> (r: Option<V2>)
    ensures
        r == runner_key_dir(*e),
        r matches Some(d) ==> is_cardinal(d),
{
    match e {
        Event::Key(k) => {
            if k.modifiers != MOD_NONE {
                return None;
            }
            match k.code {
                KeyCode::Char('w') | KeyCode::Up => Some(V2::make(0, -1)),
                KeyCode::Char('s') | KeyCode::Down => Some(V2::make(0, 1)),
                KeyCode::Char('a') | KeyCode::Left => Some(V2::make(-1, 0)),
                KeyCode::Char('d') | KeyCode::Right => Some(V2::make(1, 0)),
                _ => None,
            }
        },
        _ => None,
    }
}

pub fn is_base_color(c: CellColor) -> (r: bool)
    ensures
        r == is_base(c),
{
    c == CellColor::Black || c == CellColor::White
}

/// The message shown when every level has been played.
pub open spec fn farewell() -> Seq<char> {
    "Thank you for playing the game"@
}

/// The message shown when a level could not be loaded and no other was given.
pub open spec fn load_failed() -> Seq<char> {
    "Failed to load level"@
}

/// Plays the levels of a list one after another.
pub struct MultiLevelRunner {
    pub id: UiId,
    pub levels: LevelList,
    /// The index in `levels` of the level being played.
    pub current_level: usize,
    pub level_runner: LevelRunner,
    /// 0 while playing; 1 once the final message was shown; 2 once a key was pressed
    /// after it, or a tick went by: the next tick then ends the sequence.
    pub can_exit: i32,
    pub need_refresh: bool,
    pub message: String,
    /// The path of the level that `start_next_level` asked for and `finish_load` has
    /// not answered yet.
    pub pending_load: Option<String>,
}

/// `n` is `o` after the level it plays was finished: the next level is asked for, or,
/// past the end of the list, the farewell message is set.
pub open spec fn advanced(o: MultiLevelRunner, n: MultiLevelRunner) -> bool {
    let c = o.current_level + 1;
    &&& n.wf()
    &&& n.current_level == c
    &&& if c < o.levels.files@.len() {
        &&& n.pending_load is Some
        &&& n.pending_load->0@ == o.levels.files@[c]@
        &&& n == (MultiLevelRunner { current_level: n.current_level, pending_load: n.pending_load, ..o })
    } else {
        &&& n.message@ == farewell()
        &&& n == (MultiLevelRunner { current_level: n.current_level, message: n.message, ..o })
    }
}

/// `n` and `r` are the sequencer and the bubbled event after a tick of `o` in a
/// terminal of `size`.
pub open spec fn multi_update_post(o: MultiLevelRunner, n: MultiLevelRunner, size: (u16, u16), r: Option<UiEvent>) -> bool {
    let t = o.level_runner;
    if o.running_spec() {
        if at_exit(t.level.triggers@, t.pos) {
            advanced(o, n) && r == Some(UiEvent { id: o.id, e: UiEventType::Changed })
        } else if inner_view(t.view_corner, V2::from_spec(size), RUNNER_MARGIN as int).spec_contains(t.pos) {
            n == o && r is None
        } else {
            &&& n == (MultiLevelRunner {
                level_runner: LevelRunner {
                    view_corner: follow_spec(t.view_corner, t.pos, V2::from_spec(size), RUNNER_MARGIN as int),
                    need_refresh: true,
                    ..t
                },
                ..o
            })
            &&& r == Some(UiEvent { id: o.id, e: UiEventType::Changed })
        }
    } else if o.can_exit == 2 || o.message@.len() == 0 {
        n == o && r == Some(UiEvent { id: o.id, e: UiEventType::Done })
    } else if o.can_exit == 1 {
        n == (MultiLevelRunner { can_exit: 2, ..o }) && r is None
    } else {
        n == o && r is None
    }
}

/// `n` and `r` are the sequencer and the bubbled event after the input event `e` reached
/// `o`, in a terminal of `size`.
pub open spec fn multi_input_post(o: MultiLevelRunner, n: MultiLevelRunner, e: Event, size: (u16, u16), r: Option<UiEvent>) -> bool {
    if o.running_spec() {
        &&& n.wf()
        &&& runner_input_post(o.level_runner, n.level_runner, e, size)
        &&& n == (MultiLevelRunner { level_runner: n.level_runner, ..o })
        &&& r == if runner_input_result(o.level_runner.id, e) is Some {
            Some(UiEvent { id: o.id, e: UiEventType::Changed })
        } else {
            None
        }
    } else if e matches Event::Key(k) && k.modifiers == MOD_NONE {
        &&& n == (MultiLevelRunner { can_exit: if o.can_exit < 1 { 1 } else { o.can_exit }, ..o })
        &&& r == Some(UiEvent { id: o.id, e: UiEventType::Changed })
    } else {
        n == o && r is None
    }
}

impl MultiLevelRunner {
    /// The runner is well formed and the index is at most the list's length.
    pub open spec fn wf(&self) -> bool {
        &&& self.level_runner.wf()
        &&& self.current_level <= self.levels.files@.len()
    }

    pub open spec fn running_spec(&self) -> bool {
        self.current_level < self.levels.files.len()
    }

    /// A sequencer at the first level of `levels`; `start_next_level` asks for it.
    pub fn new(ui: &mut UiContext, levels: LevelList) -> (r: MultiLevelRunner)
        requires
            old(ui).wf(),
            old(ui).counter() < u64::MAX - 1,
        ensures
            r.wf(),
            final(ui).wf(),
            final(ui).counter() == old(ui).counter() + 2,
            r.id.spec_value() == old(ui).counter(),
            r.levels == levels,
            r.current_level == 0,
            r.can_exit == 0,
            r.need_refresh,
            r.message@.len() == 0,
            r.pending_load is None,
    {
        let id = ui.next_id();
        let level_runner = LevelRunner::new(ui);
        MultiLevelRunner {
            id,
            levels,
            current_level: 0,
            level_runner,
            can_exit: 0,
            need_refresh: true,
            message: String::new(),
            pending_load: None,
        }
    }

    /// Whether a level of the list is being played.
    pub fn running(&self) -> (r: bool)
        ensures
            r == self.running_spec(),
    {
        self.current_level < self.levels.files.len()
    }

    pub fn get_id(&self) -> (r: UiId)
        ensures
            r == self.id,
    {
        self.id
    }

    /// `e` bubbled up from this sequencer.
    pub fn event(&self, e: UiEventType) -> (r: Option<UiEvent>)
        ensures
            r == Some(UiEvent { id: self.id, e }),
    {
        Some(UiEvent { id: self.id, e })
    }

    pub fn mark_refresh(&mut self, value: bool)
        ensures
            *final(self) == (MultiLevelRunner { need_refresh: value, ..*old(self) }),
    {
        self.need_refresh = value;
    }

    /// A redraw is due when asked for or while a message waits to be shown.
    pub fn need_refresh(&self) -> (r: bool)
        ensures
            r == (self.need_refresh || self.message@.len() > 0),
    {
        self.need_refresh || !self.message.as_str().is_empty()
    }

    /// The terminal was resized: the level being played is drawn again.
    pub fn resize(&mut self, widget_size: &Rectangle)
        ensures
            old(self).running_spec() ==> *final(self) == (MultiLevelRunner {
                level_runner: LevelRunner { need_refresh: true, ..old(self).level_runner },
                ..*old(self)
            }),
            !old(self).running_spec() ==> *final(self) == *old(self),
    {
        if self.running() {
            self.level_runner.resize(widget_size);
        }
    }

    /// Asks for the level at the current index, or, past the end of the list, sets the
    /// farewell message.
    pub fn start_next_level(&mut self)
        requires
            old(self).wf(),
        ensures
            final(self).wf(),
            old(self).running_spec() ==> {
                &&& final(self).pending_load is Some
                &&& final(self).pending_load->0@ == old(self).levels.files@[old(self).current_level as int]@
                &&& *final(self) == (MultiLevelRunner { pending_load: final(self).pending_load, ..*old(self) })
            },
            !old(self).running_spec() ==> {
                &&& final(self).message@ == farewell()
                &&& *final(self) == (MultiLevelRunner { message: final(self).message, ..*old(self) })
            },
    {
        if self.current_level < self.levels.files.len() {
            let path = self.levels.files[self.current_level].clone();
            self.pending_load = Some(path);
        } else {
            self.message = "Thank you for playing the game".to_string();
        }
    }

    /// Hands out the path of the level asked for, if any, and forgets it.
    pub fn take_pending_load(&mut self) -> (r: Option<String>)
        ensures
            r == old(self).pending_load,
            *final(self) == (MultiLevelRunner { pending_load: None, ..*old(self) }),
    {
        let mut taken: Option<String> = None;
        std::mem::swap(&mut taken, &mut self.pending_load);
        taken
    }

    /// The answer to a load that `start_next_level` asked for: a well-formed level is
    /// played from its start point; an error or a malformed level ends the sequence with
    /// the error's message, or a plain one where the error carries none.
    pub fn finish_load(&mut self, result: Result<Level, String>)
        requires
            old(self).wf(),
        ensures
            final(self).wf(),
            final(self).pending_load is None,
            result is Ok && result->Ok_0.wf() ==> {
                &&& final(self).level_runner.level == result->Ok_0
                &&& final(self).level_runner.pos == result->Ok_0.p0
                &&& final(self).level_runner.backup_level.same_as(&result->Ok_0)
                &&& final(self).current_level == old(self).current_level
                &&& final(self).message == old(self).message
            },
            !(result is Ok && result->Ok_0.wf()) ==> {
                &&& final(self).current_level == old(self).levels.files@.len()
                &&& final(self).level_runner == old(self).level_runner
                &&& final(self).message@ == if old(self).message@.len() > 0 {
                    old(self).message@
                } else if result is Err && result->Err_0@.len() > 0 {
                    result->Err_0@
                } else {
                    load_failed()
                }
            },
            final(self).levels == old(self).levels,
            final(self).id == old(self).id,
            final(self).can_exit == old(self).can_exit,
    {
        self.pending_load = None;
        match result {
            Ok(level) => {
                if level.is_valid() {
                    self.level_runner.level = level;
                    self.level_runner.start();
                    return;
                }
            },
            Err(m) => {
                if self.message.as_str().is_empty() && !m.as_str().is_empty() {
                    self.message = m;
                }
            },
        }
        if self.message.as_str().is_empty() {
            self.message = "Failed to load level".to_string();
        }
        self.current_level = self.levels.files.len();
    }

    /// An outcome of the level being played: its end or a branch exit moves on to the
    /// next level; anything else only asks for a redraw.
    fn handle_level_runner_events(&mut self, ev: &Option<UiEvent>) -> (r: Option<UiEvent>)
        requires
            old(self).wf(),
            old(self).running_spec(),
        ensures
            ev matches Some(x) && x.id == old(self).level_runner.id && is_terminal(x.e) ==> advanced(*old(self), *final(self)),
            ev matches Some(x) && x.id == old(self).level_runner.id && is_terminal(x.e) ==> r == Some(UiEvent { id: old(self).id, e: UiEventType::Changed }),
            ev is None ==> r is None && *final(self) == *old(self),
            ev matches Some(x) && !(x.id == old(self).level_runner.id && is_terminal(x.e)) ==> {
                &&& r == Some(UiEvent { id: old(self).id, e: UiEventType::Changed })
                &&& *final(self) == *old(self)
            },
    {
        match ev {
            Some(x) => {
                let finished = match x.e {
                    UiEventType::Done | UiEventType::Canceled | UiEventType::Result(_) => true,
                    _ => false,
                };
                if finished && x.id == self.level_runner.get_id() {
                    self.current_level = self.current_level + 1;
                    self.start_next_level();
                }
                self.event(UiEventType::Changed)
            },
            None => None,
        }
    }

    /// Handles an input event with the terminal at `size`: the level being played gets
    /// it; after the last level any key without modifiers allows the sequence to end.
    pub fn input_sized(&mut self, e: &Event, size: (u16, u16)) -> (r: Option<UiEvent>)
        requires
            old(self).wf(),
        ensures
            final(self).wf(),
            multi_input_post(*old(self), *final(self), *e, size, r),
    {
        if self.running() {
            let ui_event = self.level_runner.input_sized(e, size);
            self.handle_level_runner_events(&ui_event)
        } else {
            match e {
                Event::Key(k) => {
                    if k.modifiers == MOD_NONE {
                        if self.can_exit < 1 {
                            self.can_exit = 1;
                        }
                        self.event(UiEventType::Changed)
                    } else {
                        None
                    }
                },
                _ => None,
            }
        }
    }

    /// Handles an input event: as `input_sized`, with the terminal's current size.
    pub fn input(&mut self, e: &Event) -> (r: Option<UiEvent>)
        requires
            old(self).wf(),
        ensures
            final(self).wf(),
            exists|size: (u16, u16)| multi_input_post(*old(self), *final(self), *e, size, r),
    {
        let size = buffer_size();
        self.input_sized(e, size)
    }

    /// A tick with the terminal at `size`: the level being played runs its tick; after
    /// the last level, the sequence ends once its message was shown and a key or a tick
    /// followed, or at once where no message waits.
    pub fn update_sized(&mut self, size: (u16, u16)) -> (r: Option<UiEvent>)
        requires
            old(self).wf(),
        ensures
            final(self).wf(),
            multi_update_post(*old(self), *final(self), size, r),
    {
        if self.running() {
            let ui_ev = self.level_runner.update_sized(size);
            return self.handle_level_runner_events(&ui_ev);
        } else {
            if self.can_exit == 2 || self.message.as_str().is_empty() {
                return self.event(UiEventType::Done);
            } else if self.can_exit == 1 {
                self.can_exit = 2;
            }
        }
        None
    }

    /// A tick: as `update_sized`, with the terminal's current size.
    pub fn update(&mut self) -> (r: Option<UiEvent>)
        requires
            old(self).wf(),
        ensures
            final(self).wf(),
            exists|size: (u16, u16)| multi_update_post(*old(self), *final(self), size, r),
    {
        let size = buffer_size();
        self.update_sized(size)
    }

    /// After the last level, the message waiting to be shown, once: it is handed out and
    /// cleared, and the sequence may end after the next key or tick.
    pub fn take_message(&mut self) -> (r: Option<String>)
        ensures
            !old(self).running_spec() && old(self).message@.len() > 0 ==> {
                &&& r == Some(old(self).message)
                &&& final(self).message@.len() == 0
                &&& *final(self) == (MultiLevelRunner { can_exit: 1, message: final(self).message, ..*old(self) })
            },
            !(!old(self).running_spec() && old(self).message@.len() > 0) ==> r is None && *final(self) == *old(self),
    {
        if !self.running() && !self.message.as_str().is_empty() {
            let mut m = String::new();
            std::mem::swap(&mut m, &mut self.message);
            self.can_exit = 1;
            Some(m)
        } else {
            None
        }
    }
}

/// After a step of the actor and the follow step, the actor lies inside the viewport
/// shrunk by the runner's margin, whenever the terminal is wider and taller than twice
/// that margin.
pub proof fn lemma_walk_then_follow(r: LevelRunner, dir: V2, size: (u16, u16))
    requires
        r.wf(),
        is_cardinal(dir),
        size.0 > 2 * RUNNER_MARGIN,
        size.1 > 2 * RUNNER_MARGIN,
    ensures
        ({
            let p = walk_pos(r.level, r.pos, dir);
            let s = V2::from_spec(size);
            let c = if inner_view(r.view_corner, s, RUNNER_MARGIN as int).spec_contains(p) {
                r.view_corner
            } else {
                follow_spec(r.view_corner, p, s, RUNNER_MARGIN as int)
            };
            inner_view(c, s, RUNNER_MARGIN as int).spec_contains(p)
        }),
{
    let p = walk_pos(r.level, r.pos, dir);
    lemma_follow_contains(r.view_corner, p, V2::from_spec(size), RUNNER_MARGIN as int);
}

/// A base-colored glyph on the actor's background, with an empty cell of its own
/// background beyond it inside the grid, is pushed: the actor takes its place, the
/// glyph moves one cell on, the cell it left is empty, and no other cell changes.
pub proof fn lemma_push(l: Level, a: V2, d: V2)
    requires
        l.wf(),
        is_cardinal(d),
        l.spec_contains(a),
        l.cell_at(v2_add(a, d)).background == l.cell_at(a).background,
        !l.cell_at(v2_add(a, d)).is_blank(),
        is_base(l.cell_at(v2_add(a, d)).foreground),
        l.spec_contains(v2_add(v2_add(a, d), d)),
        l.cell_at(v2_add(v2_add(a, d), d)).background == l.cell_at(v2_add(a, d)).background,
        l.cell_at(v2_add(v2_add(a, d), d)).is_blank(),
    ensures
        walk_pos(l, a, d) == v2_add(a, d),
        walk_cell(l, a, d, v2_add(v2_add(a, d), d)).letter == l.cell_at(v2_add(a, d)).letter,
        walk_cell(l, a, d, v2_add(a, d)).is_blank(),
        forall|q: V2|
            q != v2_add(a, d) && q != v2_add(v2_add(a, d), d) ==> #[trigger] walk_cell(l, a, d, q)
                == l.cell_at(q),
{
}

/// The same push with the cell beyond the glyph outside the grid is blocked: the actor
/// stays and no cell changes.
pub proof fn lemma_push_blocked(l: Level, a: V2, d: V2)
    requires
        l.wf(),
        is_cardinal(d),
        l.spec_contains(a),
        l.cell_at(v2_add(a, d)).background == l.cell_at(a).background,
        !l.cell_at(v2_add(a, d)).is_blank(),
        is_base(l.cell_at(v2_add(a, d)).foreground),
        !l.spec_contains(v2_add(v2_add(a, d), d)),
    ensures
        walk_pos(l, a, d) == a,
        forall|q: V2| #[trigger] walk_cell(l, a, d, q) == l.cell_at(q),
{
}

/// A trigger placed at the actor's position, where there was none, decides what the
/// next tick reports: the terminal exit ends the level, a branch exit reports its
/// identifier; and where no trigger stands, no exit is reported.
pub proof fn lemma_trigger_placed(ts: Seq<Trigger>, t: Trigger, id: UiId, r: Option<UiEvent>)
    requires
        forall|i: int| 0 <= i < ts.len() ==> #[trigger] ts[i].pos != t.pos,
    ensures
        t.id@ == terminal_exit_id() ==> at_exit(ts.push(t), t.pos) && (trigger_outcome(id, ts.push(t), t.pos, r)
            <==> r == Some(UiEvent { id, e: UiEventType::Done })),
        branch_exit_ids(t.id@) ==> at_exit(ts.push(t), t.pos) && (trigger_outcome(id, ts.push(t), t.pos, r)
            <==> is_exit_event(r, id, t.id@)),
        !at_exit(ts, t.pos),
{
    lemma_first_trigger_none(ts, t.pos, 0);
    lemma_first_trigger_pushed(ts, t, 0);
}

proof fn lemma_first_trigger_none(ts: Seq<Trigger>, pos: V2, i: int)
    requires
        0 <= i,
        forall|j: int| 0 <= j < ts.len() ==> #[trigger] ts[j].pos != pos,
    ensures
        first_trigger_from(ts, pos, i) is None,
    decreases ts.len() - i,
{
    if i < ts.len() {
        lemma_first_trigger_none(ts, pos, i + 1);
    }
}

proof fn lemma_first_trigger_pushed(ts: Seq<Trigger>, t: Trigger, i: int)
    requires
        0 <= i <= ts.len(),
        forall|j: int| 0 <= j < ts.len() ==> #[trigger] ts[j].pos != t.pos,
    ensures
        first_trigger_from(ts.push(t), t.pos, i) == Some(ts.len() as int),
    decreases ts.len() - i,
{
    if i < ts.len() {
        assert(ts.push(t)[i] == ts[i]);
        lemma_first_trigger_pushed(ts, t, i + 1);
    } else {
        assert(ts.push(t)[i] == t);
    }
}

/// A tick with the actor on an exit of the level being played moves the sequence one
/// index on: while a level is left its path is asked for, else the sequence stops
/// running and shows the farewell message.
pub proof fn lemma_sequencer_advances(o: MultiLevelRunner, n: MultiLevelRunner, size: (u16, u16), r: Option<UiEvent>)
    requires
        o.wf(),
        o.running_spec(),
        at_exit(o.level_runner.level.triggers@, o.level_runner.pos),
        multi_update_post(o, n, size, r),
    ensures
        n.current_level == o.current_level + 1,
        n.levels == o.levels,
        r == Some(UiEvent { id: o.id, e: UiEventType::Changed }),
        n.running_spec() ==> n.pending_load is Some && n.pending_load->0@ == o.levels.files@[n.current_level as int]@,
        !n.running_spec() ==> n.message@ == farewell(),
{
}

} // verus!
