//! The item carousel: the items that the player carries, one of which is the
//! current one, shown as a row centred on the current item.

use vstd::prelude::*;
use crate::timer::RepeatingTimer;
use crate::units::UNIT;

verus! {

/// The distance between two neighbouring items of the row, in thousandths of
/// a unit.
pub const ITEM_SPACING: i64 = 50_000;

/// For how long the carousel rests before it hides all but the current item,
/// in nanoseconds.
pub const REST_DURATION: u64 = 2_000_000_000;

/// A turn of the carousel.
#[derive(Clone, Copy, Debug, PartialEq, Eq, Structural)]
pub enum RouletteRotateEvent {
    /// To the item before the current one.
    Left,
    /// To the item after the current one.
    Right,
}

impl RouletteRotateEvent {
    /// The turn that a step of the mouse wheel asks for: to the left for one
    /// step up, to the right for one step down, and none for any other
    /// movement of the wheel. `scroll` is the movement in thousandths of a
    /// step.
    pub open spec fn of_wheel(scroll: i64) -> Option<RouletteRotateEvent> {
        if scroll == UNIT {
            Some(RouletteRotateEvent::Left)
        } else if scroll == -UNIT {
            Some(RouletteRotateEvent::Right)
        } else {
            None
        }
    }

    /// The turn that a movement of the mouse wheel asks for.
    pub fn for_wheel(scroll: i64) -> (turn: Option<RouletteRotateEvent>)
        ensures
            turn == RouletteRotateEvent::of_wheel(scroll),
    {
        if scroll == UNIT {
            Some(RouletteRotateEvent::Left)
        } else if scroll == -UNIT {
            Some(RouletteRotateEvent::Right)
        } else {
            None
        }
    }
}

/// Which items are to be shown.
#[derive(Clone, Copy, Debug, PartialEq, Eq, Structural)]
pub enum ShowItemEvent {
    /// Every item.
    All,
    /// The current item and its two neighbours.
    Three,
}

/// What a carousel holds: the items in the order in which they were added,
/// the position of the current one, and the timer that runs while the
/// carousel rests.
pub struct RouletteView {
    pub items: Seq<u64>,
    pub cur_index: int,
    pub timer: RepeatingTimer,
}

impl RouletteView {
    /// The current position is a position of the list, or zero while the list
    /// is empty.
    pub open spec fn valid(self) -> bool {
        0 <= self.cur_index && (self.cur_index < self.items.len() || (self.items.len() == 0
            && self.cur_index == 0))
    }

    /// The position after the current one, going round at the end.
    pub open spec fn next_index(self) -> int {
        if self.items.len() > 0 {
            (self.cur_index + 1) % (self.items.len() as int)
        } else {
            self.cur_index
        }
    }

    /// The position before the current one, going round at the start.
    pub open spec fn prev_index(self) -> int {
        if self.items.len() > 0 {
            (self.cur_index + self.items.len() - 1) % (self.items.len() as int)
        } else {
            self.cur_index
        }
    }

    /// The carousel after a turn.
    pub open spec fn rotated(self, event: RouletteRotateEvent) -> RouletteView {
        match event {
            RouletteRotateEvent::Left => RouletteView { cur_index: self.prev_index(), ..self },
            RouletteRotateEvent::Right => RouletteView { cur_index: self.next_index(), ..self },
        }
    }

    /// The carousel with its rest beginning anew.
    pub open spec fn stirred(self) -> RouletteView {
        RouletteView { timer: self.timer.after_reset(), ..self }
    }

    /// The carousel after `delta` nanoseconds of rest.
    pub open spec fn rested(self, delta: u64) -> RouletteView {
        RouletteView { timer: self.timer.after_tick(delta), ..self }
    }

    /// Whether the item at `index` is to be shown after `event`.
    pub open spec fn shows(self, event: ShowItemEvent, index: int) -> bool {
        match event {
            ShowItemEvent::All => true,
            ShowItemEvent::Three => self.cur_index - 1 <= index <= self.cur_index + 1,
        }
    }

    /// The items that are hidden when the carousel has rested: all that are
    /// not the current item.
    pub open spec fn hidden_at_rest(self) -> Seq<u64> {
        if 0 <= self.cur_index < self.items.len() {
            self.items.filter(differs_from(self.items[self.cur_index]))
        } else {
            Seq::empty()
        }
    }
}

/// The items that are not `current`.
pub open spec fn differs_from(current: u64) -> spec_fn(u64) -> bool {
    |item: u64| item != current
}

/// Where the item at `index` stands in the row when the item at `cur_index`
/// is the current one, in thousandths of a unit before scaling.
pub open spec fn offset_in_row(index: int, cur_index: int) -> int {
    (index - cur_index) * ITEM_SPACING
}

/// The carousel.
pub struct Roulette {
    list: Vec<u64>,
    cur_index: usize,
    timer: RepeatingTimer,
}

impl View for Roulette {
    type V = RouletteView;

    closed spec fn view(&self) -> RouletteView {
        RouletteView { items: self.list@, cur_index: self.cur_index as int, timer: self.timer }
    }
}

impl Default for Roulette {
    fn default() -> (roulette: Roulette)
        ensures
            roulette@.items == Seq::<u64>::empty(),
            roulette@.cur_index == 0,
            roulette@.timer == RepeatingTimer::fresh(REST_DURATION),
    {
        Roulette { list: Vec::new(), cur_index: 0, timer: RepeatingTimer::new(REST_DURATION) }
    }
}

impl Roulette {
    #[verifier::type_invariant]
    spec fn current_is_in_list(self) -> bool {
        self.cur_index < self.list@.len() || (self.list@.len() == 0 && self.cur_index == 0)
    }

    /// An empty carousel, at the start of a rest.
    pub fn new() -> (roulette: Roulette)
        ensures
            roulette@.items == Seq::<u64>::empty(),
            roulette@.cur_index == 0,
            roulette@.timer == RepeatingTimer::fresh(REST_DURATION),
    {
        Roulette { list: Vec::new(), cur_index: 0, timer: RepeatingTimer::new(REST_DURATION) }
    }

    /// The timer that runs while the carousel rests.
    pub fn timer(&self) -> (timer: RepeatingTimer)
        ensures
            timer == self@.timer,
    {
        self.timer
    }

    /// Begins the rest anew.
    pub fn reset_timer(&mut self)
        ensures
            final(self)@ == old(self)@.stirred(),
    {
        proof {
            use_type_invariant(&*self);
        }
        let mut timer: RepeatingTimer = self.timer;
        timer.reset();
        self.timer = timer;
    }

    /// Lets the carousel rest for `delta` nanoseconds. The result says
    /// whether the rest has reached its length with this tick.
    pub fn tick_timer(&mut self, delta: u64) -> (finished: bool)
        ensures
            final(self)@ == old(self)@.rested(delta),
            finished == final(self)@.timer.finished,
    {
        proof {
            use_type_invariant(&*self);
        }
        let mut timer: RepeatingTimer = self.timer;
        timer.tick(delta);
        self.timer = timer;
        timer.finished()
    }

    /// The items, in the order in which they were added.
    pub fn get_all_items(&self) -> (items: &Vec<u64>)
        ensures
            items@ == self@.items,
    {
        &self.list
    }

    /// The number of items.
    pub fn len(&self) -> (count: usize)
        ensures
            count == self@.items.len(),
    {
        self.list.len()
    }

    /// Adds an item at the end. The current item stays the current one.
    pub fn add_item(&mut self, item: u64)
        ensures
            final(self)@ == (RouletteView { items: old(self)@.items.push(item), ..old(self)@ }),
    {
        proof {
            use_type_invariant(&*self);
        }
        let mut taken = Roulette::new();
        std::mem::swap(self, &mut taken);
        let Roulette { list, cur_index, timer } = taken;
        let mut list = list;
        list.push(item);
        *self = Roulette { list, cur_index, timer };
    }

    /// The item at `index`, if there is one.
    pub fn get_item(&self, index: usize) -> (item: Option<&u64>)
        ensures
            index < self@.items.len() ==> item == Some(&self@.items[index as int]),
            index >= self@.items.len() ==> item is None,
    {
        if index < self.list.len() {
            Some(&self.list[index])
        } else {
            None
        }
    }

    /// The position of the current item.
    pub fn get_cur_index(&self) -> (index: usize)
        ensures
            index == self@.cur_index,
            self@.valid(),
    {
        proof {
            use_type_invariant(self);
        }
        self.cur_index
    }

    /// The current item, if the carousel holds any.
    pub fn get_cur_item(&self) -> (item: Option<&u64>)
        ensures
            self@.items.len() > 0 ==> item == Some(&self@.items[self@.cur_index]),
            self@.items.len() == 0 ==> item is None,
    {
        proof {
            use_type_invariant(self);
        }
        self.get_item(self.cur_index)
    }

    /// The item before the current one, going round at the start.
    pub fn get_prev_item(&self) -> (item: Option<&u64>)
        requires
            self@.items.len() > 0,
        ensures
            item == Some(&self@.items[self@.prev_index()]),
    {
        proof {
            use_type_invariant(self);
        }
        let len: usize = self.list.len();
        let index: usize = if self.cur_index == 0 {
            len - 1
        } else {
            self.cur_index - 1
        };
        proof {
            lemma_step_back(self.cur_index as int, len as int);
        }
        self.get_item(index)
    }

    /// The item after the current one, going round at the end.
    pub fn get_next_item(&self) -> (item: Option<&u64>)
        requires
            self@.items.len() > 0,
        ensures
            item == Some(&self@.items[self@.next_index()]),
    {
        proof {
            use_type_invariant(self);
        }
        let len: usize = self.list.len();
        let index: usize = if self.cur_index + 1 == len {
            0
        } else {
            self.cur_index + 1
        };
        proof {
            lemma_step_on(self.cur_index as int, len as int);
        }
        self.get_item(index)
    }

    /// Makes the item after the current one the current one. An empty
    /// carousel is left as it is.
    pub fn next(&mut self)
        ensures
            final(self)@ == old(self)@.rotated(RouletteRotateEvent::Right),
    {
        proof {
            use_type_invariant(&*self);
        }
        let len: usize = self.list.len();
        if len > 0 {
            proof {
                lemma_step_on(self.cur_index as int, len as int);
            }
            self.cur_index = if self.cur_index + 1 == len {
                0
            } else {
                self.cur_index + 1
            };
        }
    }

    /// Makes the item before the current one the current one. An empty
    /// carousel is left as it is.
    pub fn prev(&mut self)
        ensures
            final(self)@ == old(self)@.rotated(RouletteRotateEvent::Left),
    {
        proof {
            use_type_invariant(&*self);
        }
        let len: usize = self.list.len();
        if len > 0 {
            proof {
                lemma_step_back(self.cur_index as int, len as int);
            }
            self.cur_index = if self.cur_index == 0 {
                len - 1
            } else {
                self.cur_index - 1
            };
        }
    }
}

/// Where the item at `index` stands in the row when the item at `cur_index`
/// is the current one: so many places to the right of the middle, a place
/// being [`ITEM_SPACING`] wide.
pub fn item_offset(index: usize, cur_index: usize) -> (offset: i128)
    ensures
        offset == offset_in_row(index as int, cur_index as int),
{
    let places: i128 = index as i128 - cur_index as i128;
    assert(places * ITEM_SPACING == (index - cur_index) * ITEM_SPACING);
    assert(-0x1_0000_0000_0000_0000 * 50_000 <= places * 50_000 <= 0x1_0000_0000_0000_0000
        * 50_000);
    places * (ITEM_SPACING as i128)
}

/// Turns the carousel as the event asks and begins its rest anew. Afterwards
/// the current item and its neighbours are to be shown.
pub fn roulette_event(roulette: &mut Roulette, event: RouletteRotateEvent) -> (show: ShowItemEvent)
    ensures
        final(roulette)@ == old(roulette)@.rotated(event).stirred(),
        show == ShowItemEvent::Three,
{
    match event {
        RouletteRotateEvent::Left => roulette.prev(),
        RouletteRotateEvent::Right => roulette.next(),
    }
    roulette.reset_timer();
    ShowItemEvent::Three
}

/// Adds an item to the carousel and begins its rest anew. The result is the
/// place of the new item in the row, which is the place after the last item
/// before it; afterwards every item is to be shown.
pub fn on_add_item(roulette: &mut Roulette, item: u64) -> (added: (i128, ShowItemEvent))
    ensures
        final(roulette)@ == (RouletteView {
            items: old(roulette)@.items.push(item),
            ..old(roulette)@
        }).stirred(),
        added.0 == offset_in_row(old(roulette)@.items.len() as int, old(roulette)@.cur_index),
        added.1 == ShowItemEvent::All,
{
    let offset: i128 = item_offset(roulette.len(), roulette.get_cur_index());
    roulette.add_item(item);
    roulette.reset_timer();
    (offset, ShowItemEvent::All)
}

/// Lets the carousel rest for `delta` nanoseconds and says which items to
/// hide: when the rest has reached its length with this tick and there is a
/// current item, every item that is not the current one, in the order of the
/// list; and else none.
pub fn timer_hide_item(roulette: &mut Roulette, delta: u64) -> (hidden: Vec<u64>)
    ensures
        final(roulette)@ == old(roulette)@.rested(delta),
        hidden@ == (if final(roulette)@.timer.finished {
            old(roulette)@.hidden_at_rest()
        } else {
            Seq::<u64>::empty()
        }),
{
    let finished: bool = roulette.tick_timer(delta);
    let mut hidden: Vec<u64> = Vec::new();
    if !finished {
        return hidden;
    }
    let items: &Vec<u64> = roulette.get_all_items();
    let cur_index: usize = roulette.get_cur_index();
    if cur_index >= items.len() {
        return hidden;
    }
    let current: u64 = items[cur_index];
    let ghost keep = differs_from(current);
    let mut i: usize = 0;
    assert(items@.take(0).filter(keep) =~= Seq::<u64>::empty()) by {
        reveal(Seq::filter);
    }
    while i < items.len()
        invariant
            i <= items.len(),
            hidden@ == items@.take(i as int).filter(keep),
            keep == differs_from(current),
        decreases items.len() - i,
    {
        let item: u64 = items[i];
        proof {
            let taken = items@.take(i + 1);
            assert(taken.drop_last() =~= items@.take(i as int));
            assert(taken.last() == item);
            reveal(Seq::filter);
            assert(taken.filter(keep) == if keep(item) {
                items@.take(i as int).filter(keep).push(item)
            } else {
                items@.take(i as int).filter(keep)
            });
        }
        if item != current {
            hidden.push(item);
        }
        i += 1;
    }
    assert(items@.take(i as int) =~= items@);
    hidden
}

/// Which items are to be shown after `event`, position by position: all of
/// them, or the current item and the one on either side of it.
pub fn show_all_item(roulette: &Roulette, event: ShowItemEvent) -> (visible: Vec<bool>)
    ensures
        visible@.len() == roulette@.items.len(),
        forall|i: int| 0 <= i < visible@.len() ==> visible@[i] == roulette@.shows(event, i),
{
    let len: usize = roulette.len();
    let cur_index: usize = roulette.get_cur_index();
    let mut visible: Vec<bool> = Vec::new();
    let mut i: usize = 0;
    while i < len
        invariant
            i <= len,
            len == roulette@.items.len(),
            cur_index == roulette@.cur_index,
            roulette@.valid(),
            visible@.len() == i,
            forall|j: int| 0 <= j < i ==> visible@[j] == roulette@.shows(event, j),
        decreases len - i,
    {
        let shown: bool = match event {
            ShowItemEvent::All => true,
            ShowItemEvent::Three => (i >= cur_index && i - cur_index <= 1) || (i < cur_index
                && cur_index - i <= 1),
        };
        visible.push(shown);
        i += 1;
    }
    visible
}

/// Going on and then back, or back and then on, returns to the same item.
pub proof fn law_turns_cancel(roulette: RouletteView)
    requires
        roulette.valid(),
    ensures
        roulette.rotated(RouletteRotateEvent::Right).rotated(RouletteRotateEvent::Left)
            == roulette,
        roulette.rotated(RouletteRotateEvent::Left).rotated(RouletteRotateEvent::Right)
            == roulette,
        roulette.rotated(RouletteRotateEvent::Right).valid(),
        roulette.rotated(RouletteRotateEvent::Left).valid(),
{
    let len = roulette.items.len() as int;
    if len > 0 {
        let on = roulette.next_index();
        let back = roulette.prev_index();
        lemma_step_on(roulette.cur_index, len);
        lemma_step_back(roulette.cur_index, len);
        lemma_step_back(on, len);
        lemma_step_on(back, len);
    }
}

/// One step on, going round: the remainder without a division.
proof fn lemma_step_on(index: int, len: int)
    requires
        0 <= index < len,
    ensures
        (index + 1) % len == (if index + 1 == len {
            0
        } else {
            index + 1
        }),
{
    if index + 1 == len {
        assert(len % len == 0) by (nonlinear_arith)
            requires
                len > 0,
        ;
    } else {
        assert((index + 1) % len == index + 1) by (nonlinear_arith)
            requires
                0 <= index + 1 < len,
        ;
    }
}

/// One step back, going round: the remainder without a division.
proof fn lemma_step_back(index: int, len: int)
    requires
        0 <= index < len,
    ensures
        (index + len - 1) % len == (if index == 0 {
            len - 1
        } else {
            index - 1
        }),
{
    if index == 0 {
        assert((len - 1) % len == len - 1) by (nonlinear_arith)
            requires
                len > 0,
        ;
    } else {
        assert((index - 1 + len) % len == index - 1) by (nonlinear_arith)
            requires
                0 <= index - 1 < len,
        ;
    }
}

} // verus!
