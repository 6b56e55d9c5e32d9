//! The notifications that are on screen, oldest first, and where each one
//! stands in the stack at the bottom right corner of the work area.

use vstd::prelude::*;
use crate::layout::{EDGE, GAP, NH, NW};
use crate::util::Rect;

verus! {

/// Where a notification window is to be moved: its top left corner in
/// screen coordinates.
#[derive(Debug, Copy, Clone, PartialEq, Eq, Structural)]
pub struct Placement {
    pub window: isize,
    pub x: i32,
    pub y: i32,
}

/// How far above the newest notification the one at the given distance from
/// it stands.
pub open spec fn stack_offset(distance: nat) -> int {
    (NH + GAP) * distance
}

/// Each step up the stack is one notification height and one gap: 180.
pub proof fn lemma_stack_offset(distance: nat)
    ensures
        stack_offset(distance) == 180 * distance,
{
    assert((NH + GAP) * distance == 180 * distance) by (nonlinear_arith)
        requires
            NH + GAP == 180,
    ;
}

/// The left edge of every notification.
pub open spec fn slot_left(area: Rect) -> int {
    area.right - NW - EDGE
}

/// The top edge of the notification at the given distance from the newest
/// one, which is at distance 0.
pub open spec fn slot_top(area: Rect, distance: nat) -> int {
    area.bottom - EDGE - NH - stack_offset(distance)
}

/// Whether the newest notification's position in this work area is a pair of
/// `i32` coordinates.
pub open spec fn anchored(area: Rect) -> bool {
    i32::MIN <= slot_left(area) && i32::MIN <= slot_top(area, 0)
}

/// Whether a stack of `count` notifications has `i32` coordinates throughout.
pub open spec fn stack_fits(area: Rect, count: nat) -> bool {
    anchored(area) && (count > 0 ==> i32::MIN <= slot_top(area, (count - 1) as nat))
}

/// The position of each of the given windows, oldest first: the newest one
/// stands at the anchor, each older one a step further up.
pub open spec fn placements(area: Rect, windows: Seq<isize>) -> Seq<Placement> {
    Seq::new(
        windows.len(),
        |i: int|
            Placement {
                window: windows[i],
                x: slot_left(area) as i32,
                y: slot_top(area, (windows.len() - 1 - i) as nat) as i32,
            },
    )
}

/// The windows on screen after `window` was shown: it is the newest.
pub open spec fn after_show(windows: Seq<isize>, window: isize) -> Seq<isize> {
    windows.push(window)
}

/// The windows on screen after those of `new` were shown one after another.
pub open spec fn after_shows(windows: Seq<isize>, new: Seq<isize>) -> Seq<isize>
    decreases new.len(),
{
    if new.len() == 0 {
        windows
    } else {
        after_show(after_shows(windows, new.drop_last()), new.last())
    }
}

/// The windows on screen after `window` was closed: its first entry is gone,
/// and nothing changes where it has none.
pub open spec fn after_close(windows: Seq<isize>, window: isize) -> Seq<isize> {
    windows.remove_value(window)
}

/// A `Registry` as plain values.
pub struct RegistryView {
    pub area: Rect,
    pub windows: Seq<isize>,
}

/// The registry of active notifications together with the work area of the
/// primary monitor, which is looked up once and kept.
pub struct Registry {
    area: Rect,
    windows: Vec<isize>,
}

impl View for Registry {
    type V = RegistryView;

    closed spec fn view(&self) -> RegistryView {
        RegistryView { area: self.area, windows: self.windows@ }
    }
}

/// Whether a work area can hold a stack of notifications: the newest
/// notification's position must be a pair of `i32` coordinates.
pub fn can_anchor(area: Rect) -> (ok: bool)
    ensures
        ok == anchored(area),
{
    area.right >= i32::MIN + NW + EDGE && area.bottom >= i32::MIN + NH + EDGE
}

impl Registry {
    #[verifier::type_invariant]
    spec fn inv(&self) -> bool {
        stack_fits(self.area, self.windows@.len())
    }

    /// An empty registry for the given work area.
    pub fn new(area: Rect) -> (registry: Registry)
        requires
            anchored(area),
        ensures
            registry@ == (RegistryView { area, windows: Seq::empty() }),
    {
        Registry { area, windows: Vec::new() }
    }

    /// The work area that the stack is anchored in.
    pub fn work_area(&self) -> (area: Rect)
        ensures
            area == self@.area,
            stack_fits(self@.area, self@.windows.len()),
    {
        proof {
            use_type_invariant(self);
        }
        self.area
    }

    /// The number of notifications on screen.
    pub fn len(&self) -> (count: usize)
        ensures
            count == self@.windows.len(),
    {
        self.windows.len()
    }

    /// The windows on screen, oldest first.
    pub fn handles(&self) -> (windows: Vec<isize>)
        ensures
            windows@ == self@.windows,
    {
        self.windows.clone()
    }

    /// The index of the first entry of `window`, if it has one.
    pub fn position(&self, window: isize) -> (found: Option<usize>)
        ensures
            match found {
                Some(index) => {
                    &&& index < self@.windows.len()
                    &&& self@.windows[index as int] == window
                    &&& forall|k: int| 0 <= k < index ==> self@.windows[k] != window
                    &&& self@.windows.index_of_first(window) == Some(index as int)
                },
                None => {
                    &&& !self@.windows.contains(window)
                    &&& self@.windows.index_of_first(window).is_none()
                },
            },
    {
        let mut i: usize = 0;
        while i < self.windows.len()
            invariant
                i <= self.windows@.len(),
                forall|k: int| 0 <= k < i ==> self.windows@[k] != window,
            decreases self.windows@.len() - i,
        {
            if self.windows[i] == window {
                proof {
                    self.windows@.index_of_first_ensures(window);
                }
                return Some(i);
            }
            i = i + 1;
        }
        proof {
            self.windows@.index_of_first_ensures(window);
        }
        None
    }

    /// Whether one more notification can be stacked with `i32` coordinates.
    pub fn has_room(&self) -> (ok: bool)
        ensures
            ok == stack_fits(self@.area, self@.windows.len() + 1),
    {
        proof {
            use_type_invariant(self);
        }
        let count: usize = self.windows.len();
        proof {
            lemma_stack_offset(count as nat);
        }
        if count > 0x0200_0000 {
            // so many steps lead below every `i32`, whatever the work area
            false
        } else {
            let step: i64 = (NH + GAP) as i64;
            let above: i64 = count as i64;
            assert(step * above == 180 * above) by (nonlinear_arith)
                requires
                    step == 180,
            ;
            let top: i64 = self.area.bottom as i64 - (EDGE + NH) as i64 - step * above;
            top >= i32::MIN as i64
        }
    }

    /// Where a window that is about to be created goes: the anchor, at the
    /// bottom right of the work area.
    pub fn anchor(&self) -> (corner: (i32, i32))
        ensures
            corner.0 == slot_left(self@.area),
            corner.1 == slot_top(self@.area, 0),
    {
        proof {
            use_type_invariant(self);
        }
        (self.area.right - NW - EDGE, self.area.bottom - NH - EDGE)
    }

    /// The position of every notification on screen, oldest first.
    pub fn placements(&self) -> (moves: Vec<Placement>)
        ensures
            moves@ == placements(self@.area, self@.windows),
    {
        proof {
            use_type_invariant(self);
        }
        let count: usize = self.windows.len();
        let x: i32 = self.area.right - NW - EDGE;
        let mut moves: Vec<Placement> = Vec::with_capacity(count);
        let mut i: usize = 0;
        while i < count
            invariant
                i <= count,
                count == self.windows@.len(),
                stack_fits(self.area, count as nat),
                x == slot_left(self.area),
                moves@.len() == i,
                forall|k: int|
                    0 <= k < i ==> moves@[k] == placements(self.area, self.windows@)[k],
            decreases count - i,
        {
            let distance: usize = count - 1 - i;
            proof {
                lemma_stack_offset(distance as nat);
                lemma_stack_offset((count - 1) as nat);
            }
            assert(distance <= 0x0200_0000);
            let step: i64 = (NH + GAP) as i64;
            let above: i64 = distance as i64;
            assert(step * above == 180 * above) by (nonlinear_arith)
                requires
                    step == 180,
            ;
            let top: i64 = self.area.bottom as i64 - (EDGE + NH) as i64 - step * above;
            moves.push(Placement { window: self.windows[i], x, y: top as i32 });
            i = i + 1;
        }
        assert(moves@ =~= placements(self.area, self.windows@));
        moves
    }

    /// Registers a window that was just created as the newest notification
    /// and gives every notification on screen its position.
    pub fn insert(&mut self, window: isize) -> (moves: Vec<Placement>)
        requires
            stack_fits(old(self)@.area, old(self)@.windows.len() + 1),
        ensures
            final(self)@.area == old(self)@.area,
            final(self)@.windows == after_show(old(self)@.windows, window),
            moves@ == placements(final(self)@.area, final(self)@.windows),
    {
        proof {
            use_type_invariant(&*self);
        }
        let mut windows: Vec<isize> = Vec::new();
        std::mem::swap(&mut windows, &mut self.windows);
        windows.push(window);
        self.windows = windows;
        self.placements()
    }
}

/// The registry's part in closing a notification, by its timer or by a click
/// on its close button: takes the first entry of `hwnd` out. Where there was
/// one, the notifications left are given their positions; where there was
/// none, as when the window was closed before, nothing changes and nothing is
/// moved.
pub fn close_notification(registry: &mut Registry, hwnd: isize) -> (moves: Vec<Placement>)
    ensures
        final(registry)@.area == old(registry)@.area,
        final(registry)@.windows == after_close(old(registry)@.windows, hwnd),
        old(registry)@.windows.contains(hwnd) ==> moves@ == placements(
            final(registry)@.area,
            final(registry)@.windows,
        ),
        !old(registry)@.windows.contains(hwnd) ==> moves@.len() == 0 && final(registry)@ == old(
            registry,
        )@,
{
    proof {
        use_type_invariant(&*registry);
        registry.windows@.index_of_first_ensures(hwnd);
    }
    match registry.position(hwnd) {
        Some(index) => {
            proof {
                if registry.windows@.len() >= 2 {
                    lemma_stack_offset((registry.windows@.len() - 2) as nat);
                    lemma_stack_offset((registry.windows@.len() - 1) as nat);
                }
            }
            let mut windows: Vec<isize> = Vec::new();
            std::mem::swap(&mut windows, &mut registry.windows);
            windows.remove(index);
            registry.windows = windows;
            registry.placements()
        },
        None => Vec::new(),
    }
}

/// Whether `window` has at most one entry among `windows`.
pub open spec fn occurs_at_most_once(windows: Seq<isize>, window: isize) -> bool {
    forall|i: int, j: int|
        0 <= i < j < windows.len() ==> !(windows[i] == window && windows[j] == window)
}

/// Further from the newest notification means further up, by a whole step
/// each time; the newest one itself is not offset.
pub proof fn lemma_offsets_increase(near: nat, far: nat)
    requires
        near < far,
    ensures
        stack_offset(0) == 0,
        stack_offset(near) + (NH + GAP) <= stack_offset(far),
{
    lemma_stack_offset(0);
    lemma_stack_offset(near);
    lemma_stack_offset(far);
}

/// Windows shown one after another into an empty registry are registered in
/// the order of their creation, each of them once.
pub proof fn lemma_shows_keep_creation_order(new: Seq<isize>)
    ensures
        after_shows(Seq::empty(), new) == new,
    decreases new.len(),
{
    if new.len() > 0 {
        lemma_shows_keep_creation_order(new.drop_last());
        assert(new.drop_last().push(new.last()) =~= new);
    }
}

/// In a stack that fits the work area the newest notification stands at the
/// anchor, and of any two the older one stands higher: no two share a slot,
/// and the slots follow the order of creation.
pub proof fn lemma_stack_follows_creation_order(
    area: Rect,
    windows: Seq<isize>,
    older: int,
    newer: int,
)
    requires
        stack_fits(area, windows.len()),
        0 <= older < newer < windows.len(),
    ensures
        placements(area, windows).len() == windows.len(),
        placements(area, windows)[older].window == windows[older],
        placements(area, windows)[older].x == slot_left(area),
        placements(area, windows)[older].y == slot_top(
            area,
            (windows.len() - 1 - older) as nat,
        ),
        placements(area, windows)[newer].y == slot_top(
            area,
            (windows.len() - 1 - newer) as nat,
        ),
        placements(area, windows)[older].y + (NH + GAP) <= placements(area, windows)[newer].y,
        placements(area, windows)[windows.len() - 1].y == slot_top(area, 0),
{
    let count = windows.len();
    lemma_stack_offset((count - 1) as nat);
    lemma_stack_offset((count - 1 - older) as nat);
    lemma_stack_offset((count - 1 - newer) as nat);
    lemma_stack_offset(0);
}

/// After `new.len()` notifications were shown and none closed, the registry
/// holds exactly their windows in the order of creation, and each stands a
/// whole step above the next newer one.
pub proof fn lemma_shown_stack(area: Rect, new: Seq<isize>, older: int, newer: int)
    requires
        stack_fits(area, new.len()),
        0 <= older < newer < new.len(),
    ensures
        after_shows(Seq::empty(), new) == new,
        placements(area, after_shows(Seq::empty(), new)).len() == new.len(),
        placements(area, after_shows(Seq::empty(), new))[older].window == new[older],
        placements(area, after_shows(Seq::empty(), new))[older].y + (NH + GAP) <= placements(
            area,
            after_shows(Seq::empty(), new),
        )[newer].y,
{
    lemma_shows_keep_creation_order(new);
    lemma_stack_follows_creation_order(area, new, older, newer);
}

/// Closing the oldest notification leaves the others in their order, and
/// their new positions are those of a stack in which the closed one never
/// stood: the stack is packed again without a gap.
pub proof fn lemma_closing_oldest_repacks(area: Rect, windows: Seq<isize>)
    requires
        windows.len() > 0,
    ensures
        after_close(windows, windows[0]) == windows.drop_first(),
        placements(area, after_close(windows, windows[0])) == placements(
            area,
            after_shows(Seq::empty(), windows.drop_first()),
        ),
{
    windows.index_of_first_ensures(windows[0]);
    assert(windows.index_of_first(windows[0]) == Some(0int));
    assert(windows.remove(0) =~= windows.drop_first());
    lemma_shows_keep_creation_order(windows.drop_first());
}

/// Closing a registered window takes out its oldest entry and nothing else.
pub proof fn lemma_close_removes_first_entry(windows: Seq<isize>, window: isize) -> (first: int)
    requires
        windows.contains(window),
    ensures
        0 <= first < windows.len(),
        windows[first] == window,
        forall|k: int| 0 <= k < first ==> windows[k] != window,
        after_close(windows, window) == windows.remove(first),
        after_close(windows, window).len() == windows.len() - 1,
{
    windows.index_of_first_ensures(window);
    windows.index_of_first(window).unwrap()
}

/// Closing a window that is not registered changes nothing.
pub proof fn lemma_close_of_absent(windows: Seq<isize>, window: isize)
    requires
        !windows.contains(window),
    ensures
        after_close(windows, window) == windows,
{
    windows.index_of_first_ensures(window);
}

/// Closing a window a second time changes nothing: after the first close it
/// is no longer registered.
pub proof fn lemma_second_close_changes_nothing(windows: Seq<isize>, window: isize)
    requires
        occurs_at_most_once(windows, window),
    ensures
        !after_close(windows, window).contains(window),
        after_close(after_close(windows, window), window) == after_close(windows, window),
{
    windows.index_of_first_ensures(window);
    let once = after_close(windows, window);
    match windows.index_of_first(window) {
        Some(first) => {
            assert forall|k: int| 0 <= k < once.len() implies once[k] != window by {
                if k < first {
                    assert(once[k] == windows[k]);
                } else {
                    assert(once[k] == windows[k + 1]);
                }
            }
        },
        None => {},
    }
    lemma_close_of_absent(once, window);
}

} // verus!
