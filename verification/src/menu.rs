//! A small windowing system for the debug overlay: entries with
//! user-supplied actions, arranged in a menu with a wrapping cursor.

use vstd::prelude::*;

use crate::math::min;
use crate::render::{Color, RenderContext, CHAR_H, CHAR_W};

verus! {

/// Number of entries a menu can hold.
pub const MAX_ENTRIES: usize = 15;

/// Number of characters an entry title holds.
pub const MAX_TITLE_LEN: usize = 15;

/// Coordinate bound under which the menu's layout arithmetic stays in
/// range.
pub const MAX_COORD: isize = 100_000;

/// Behaviour attached to a menu entry: run on update once a frame, or on
/// activation. An action may return a value for the host program to act
/// on.
pub trait EntryAction<T> {
    /// Runs the action for one call with the host-supplied data.
    fn run(&mut self, data: T) -> Option<usize>;
}

/// The action that does nothing.
pub fn no_op<T>(data: T) -> (r: Option<usize>)
    ensures
        r is None,
{
    let _ = data;
    None
}

/// An action value that does nothing.
#[derive(Copy, Clone)]
pub struct NoAction;

impl<T> EntryAction<T> for NoAction {
    fn run(&mut self, data: T) -> Option<usize> {
        no_op(data)
    }
}

/// One menu entry: a fixed-width title, an active flag, and its update
/// and activation actions.
pub struct Entry<T, A> where A: EntryAction<T> {
    /// The title, always `MAX_TITLE_LEN` characters.
    pub title: Vec<char>,
    /// Whether the entry is shown and updated.
    pub active: bool,
    /// Runs once a frame while the menu is open.
    pub update: A,
    /// Runs when the entry is activated.
    pub action: A,
    /// Carrier for the host data type.
    pub marker: core::marker::PhantomData<T>,
}

impl<T, A> Entry<T, A> where A: EntryAction<T> {
    /// The title is always exactly `MAX_TITLE_LEN` characters.
    pub open spec fn wf(self) -> bool {
        self.title@.len() == MAX_TITLE_LEN
    }
}

/// The kinds of menu entry; plain buttons are the only kind so far.
pub enum EntryTypes<T, A> where A: EntryAction<T> {
    Button(Entry<T, A>),
}

impl<T, A> EntryTypes<T, A> where A: EntryAction<T> {
    /// The entry behind this menu item.
    pub open spec fn entry(self) -> Entry<T, A> {
        match self {
            EntryTypes::Button(b) => b,
        }
    }

    /// The entry's title.
    pub open spec fn spec_title(self) -> Seq<char> {
        self.entry().title@
    }

    /// Whether the entry is shown and updated.
    pub open spec fn spec_active(self) -> bool {
        self.entry().active
    }

    pub open spec fn wf(self) -> bool {
        self.entry().wf()
    }

    /// Runs the entry's activation action.
    pub fn activate(&mut self, data: T) -> (r: Option<usize>)
        ensures
            final(self).spec_title() == old(self).spec_title(),
            final(self).spec_active() == old(self).spec_active(),
            final(self).wf() == old(self).wf(),
    {
        match self {
            EntryTypes::Button(b) => b.activate(data),
        }
    }

    /// Whether the entry is shown and updated.
    pub fn active(&self) -> (r: bool)
        ensures
            r == self.spec_active(),
    {
        match self {
            EntryTypes::Button(b) => b.active,
        }
    }

    /// Draws the entry's title at a pixel position.
    pub fn draw<C: RenderContext>(&mut self, ctxt: &mut C, x: isize, y: isize)
        ensures
            *final(self) == *old(self),
    {
        match self {
            EntryTypes::Button(b) => b.draw(ctxt, x, y),
        }
    }

    /// Runs the entry's update action.
    pub fn call_update(&mut self, data: T) -> (r: Option<usize>)
        ensures
            final(self).spec_title() == old(self).spec_title(),
            final(self).spec_active() == old(self).spec_active(),
            final(self).wf() == old(self).wf(),
    {
        match self {
            EntryTypes::Button(b) => b.call_update(data),
        }
    }
}

/// Builds the fixed-width title vector: the first characters of `title`,
/// written from `start`, over a buffer prefilled with `fill`.
fn build_title(title: &str, start: usize, fill: char) -> (r: Vec<char>)
    requires
        start <= MAX_TITLE_LEN,
    ensures
        r@.len() == MAX_TITLE_LEN,
        forall|i: int| 0 <= i < start ==> r@[i] == fill,
        forall|i: int|
            start <= i < MAX_TITLE_LEN ==> r@[i] == (if i - start < title@.len() {
                title@[i - start]
            } else {
                fill
            }),
{
    let mut title_ca: Vec<char> = Vec::new();
    let mut i: usize = 0;
    while i < MAX_TITLE_LEN
        invariant
            i <= MAX_TITLE_LEN,
            title_ca@.len() == i,
            forall|k: int| 0 <= k < i ==> title_ca@[k] == fill,
        decreases MAX_TITLE_LEN - i,
    {
        title_ca.push(fill);
        i = i + 1;
    }
    let tlen = title.unicode_len();
    let count = min(MAX_TITLE_LEN - start, tlen);
    let mut j: usize = 0;
    while j < count
        invariant
            j <= count,
            count <= MAX_TITLE_LEN - start,
            count <= title@.len(),
            title_ca@.len() == MAX_TITLE_LEN,
            forall|k: int| 0 <= k < start ==> title_ca@[k] == fill,
            forall|k: int| start <= k < start + j ==> title_ca@[k] == title@[k - start],
            forall|k: int| start + j <= k < MAX_TITLE_LEN ==> title_ca@[k] == fill,
        decreases count - j,
    {
        let c = title.get_char(j);
        title_ca.set(start + j, c);
        j = j + 1;
    }
    title_ca
}

impl<T> Entry<T, NoAction> {
    /// An inactive entry that does nothing.
    pub fn empty() -> (r: EntryTypes<T, NoAction>)
        ensures
            r.wf(),
            !r.spec_active(),
    {
        EntryTypes::Button(
            Self {
                title: build_title("", 0, '1'),
                update: NoAction,
                action: NoAction,
                active: false,
                marker: core::marker::PhantomData,
            },
        )
    }
}

impl<T, A> Entry<T, A> where A: EntryAction<T> {
    /// An active button with the given title and actions. The title is
    /// truncated or padded with null characters to the fixed width.
    pub fn new(title: &str, update: A, action: A) -> (r: EntryTypes<T, A>)
        ensures
            r.wf(),
            r.spec_active(),
            forall|i: int|
                0 <= i < MAX_TITLE_LEN ==> r.spec_title()[i] == (if i < title@.len() {
                    title@[i]
                } else {
                    '\0'
                }),
            r.entry().update == update,
            r.entry().action == action,
    {
        let title_ca = build_title(title, 0, '\0');
        EntryTypes::Button(
            Self { title: title_ca, update, action, active: true, marker: core::marker::PhantomData },
        )
    }

    /// An active checkbox entry: a `[x]` or `[ ]` marker followed by the
    /// title.
    pub fn checkbox(title: &str, update: A, action: A, value: bool) -> (r: EntryTypes<T, A>)
        ensures
            r.wf(),
            r.spec_active(),
            r.spec_title()[0] == '[',
            r.spec_title()[1] == (if value {
                'x'
            } else {
                ' '
            }),
            r.spec_title()[2] == ']',
            forall|i: int|
                3 <= i < MAX_TITLE_LEN ==> r.spec_title()[i] == (if i - 3 < title@.len() {
                    title@[i - 3]
                } else {
                    '\0'
                }),
            r.entry().update == update,
            r.entry().action == action,
    {
        let mut title_ca = build_title(title, 3, '\0');
        title_ca.set(0, '[');
        if value {
            title_ca.set(1, 'x');
        } else {
            title_ca.set(1, ' ');
        }
        title_ca.set(2, ']');
        EntryTypes::Button(
            Self { title: title_ca, update, action, active: true, marker: core::marker::PhantomData },
        )
    }

    /// Sets a checkbox entry's marker.
    pub fn set_checkbox(&mut self, value: bool)
        requires
            old(self).wf(),
        ensures
            final(self).wf(),
            final(self).title@ == old(self).title@.update(
                1,
                if value {
                    'x'
                } else {
                    ' '
                },
            ),
            final(self).active == old(self).active,
            final(self).update == old(self).update,
            final(self).action == old(self).action,
    {
        if value {
            self.title.set(1, 'x');
        } else {
            self.title.set(1, ' ');
        }
    }

    /// Replaces the title, truncated to the fixed width and padded with
    /// spaces.
    pub fn set_title(&mut self, title: &str)
        ensures
            final(self).wf(),
            forall|i: int|
                0 <= i < MAX_TITLE_LEN ==> final(self).title@[i] == (if i < title@.len() {
                    title@[i]
                } else {
                    ' '
                }),
            final(self).active == old(self).active,
            final(self).update == old(self).update,
            final(self).action == old(self).action,
    {
        self.title = build_title(title, 0, ' ');
    }

    /// Draws the entry's title at a pixel position.
    pub fn draw<C: RenderContext>(&mut self, ctxt: &mut C, x: isize, y: isize)
        ensures
            *final(self) == *old(self),
    {
        ctxt.cputs(&self.title, x, y);
    }

    /// Runs the update action.
    pub fn call_update(&mut self, data: T) -> (r: Option<usize>)
        ensures
            final(self).title@ == old(self).title@,
            final(self).active == old(self).active,
            final(self).action == old(self).action,
    {
        self.update.run(data)
    }

    /// Runs the activation action.
    pub fn activate(&mut self, data: T) -> (r: Option<usize>)
        ensures
            final(self).title@ == old(self).title@,
            final(self).active == old(self).active,
            final(self).update == old(self).update,
    {
        self.action.run(data)
    }
}

/// A menu of up to `MAX_ENTRIES` entries with a wrapping cursor, open and
/// close actions, and a debounce timer on toggling.
pub struct Menu<T, A> where A: EntryAction<T> {
    /// Index of the selected entry.
    pub cursor: isize,
    /// Left edge in pixels.
    pub x: isize,
    /// Top edge in pixels.
    pub y: isize,
    /// Whether the menu is open.
    pub active: bool,
    /// Debounce reload value for toggling.
    pub toggle_timer_max: u16,
    /// Frames left until toggling is accepted again.
    pub toggle_timer: u16,
    /// Runs when the menu opens.
    pub open_action: EntryTypes<T, A>,
    /// Runs when the menu closes.
    pub close_action: EntryTypes<T, A>,
    /// Runs when the user backs out.
    pub back_action: EntryTypes<T, A>,
    /// Runs once a frame while the menu is open.
    pub update_action: EntryTypes<T, A>,
    /// The entries, in display order.
    pub entries: Vec<EntryTypes<T, A>>,
    /// Number of entries; always the entry list's length.
    pub active_entries: usize,
}

impl<T, A> Menu<T, A> where T: Copy, A: EntryAction<T> {
    /// The cursor stays inside the entry list, which holds at most
    /// `MAX_ENTRIES` entries.
    pub open spec fn wf(self) -> bool {
        &&& self.active_entries == self.entries@.len()
        &&& self.entries@.len() <= MAX_ENTRIES
        &&& self.entries@.len() == 0 ==> self.cursor == 0
        &&& self.entries@.len() > 0 ==> 0 <= self.cursor < self.entries@.len()
    }

    /// A closed menu over the first `MAX_ENTRIES` of the given entries,
    /// with the cursor on the first entry.
    pub fn new(
        x: isize,
        y: isize,
        open_action: EntryTypes<T, A>,
        close_action: EntryTypes<T, A>,
        back_action: EntryTypes<T, A>,
        update_action: EntryTypes<T, A>,
        entries_proto: Vec<EntryTypes<T, A>>,
    ) -> (r: Menu<T, A>)
        ensures
            r.wf(),
            r.cursor == 0,
            !r.active,
            r.toggle_timer == 0,
            r.toggle_timer_max == 10,
            r.x == x,
            r.y == y,
            r.entries@ == entries_proto@.take(
                if entries_proto@.len() <= MAX_ENTRIES {
                    entries_proto@.len() as int
                } else {
                    MAX_ENTRIES as int
                },
            ),
    {
        let ghost proto = entries_proto@;
        let mut entries = entries_proto;
        if entries.len() > MAX_ENTRIES {
            entries.truncate(MAX_ENTRIES);
        }
        let active_entries = entries.len();
        proof {
            assert(proto.take(proto.len() as int) =~= proto);
            if proto.len() > MAX_ENTRIES {
                assert(entries@ =~= proto.take(MAX_ENTRIES as int));
            }
        }
        Self {
            cursor: 0,
            active: false,
            toggle_timer_max: 10,
            toggle_timer: 0,
            open_action,
            close_action,
            back_action,
            update_action,
            x,
            y,
            entries,
            active_entries,
        }
    }

    /// Moves the cursor down one entry, wrapping to the top.
    pub fn inc_cursor(&mut self)
        requires
            old(self).wf(),
        ensures
            final(self).wf(),
            final(self).cursor == if old(self).cursor + 1 >= old(self).active_entries {
                0
            } else {
                old(self).cursor + 1
            },
            final(self).entries@ == old(self).entries@,
            final(self).active == old(self).active,
    {
        self.cursor = self.cursor + 1;
        if self.cursor >= self.active_entries as isize {
            self.cursor = 0;
        }
    }

    /// Moves the cursor up one entry, wrapping to the bottom.
    pub fn dec_cursor(&mut self)
        requires
            old(self).wf(),
        ensures
            final(self).wf(),
            final(self).cursor == if old(self).active_entries == 0 {
                0
            } else if old(self).cursor == 0 {
                old(self).active_entries - 1
            } else {
                old(self).cursor - 1
            },
            final(self).entries@ == old(self).entries@,
            final(self).active == old(self).active,
    {
        if self.active_entries == 0 {
            self.cursor = 0;
        } else if self.cursor == 0 {
            self.cursor = self.active_entries as isize - 1;
        } else {
            self.cursor = self.cursor - 1;
        }
    }

    /// Activates the selected entry; does nothing while the menu is
    /// closed or empty.
    pub fn activate(&mut self, data: T) -> (r: Option<usize>)
        requires
            old(self).wf(),
        ensures
            final(self).wf(),
            final(self).cursor == old(self).cursor,
            final(self).active == old(self).active,
            final(self).entries@.len() == old(self).entries@.len(),
            forall|j: int|
                0 <= j < old(self).entries@.len() && j != old(self).cursor
                    ==> final(self).entries@[j] == old(self).entries@[j],
            forall|j: int|
                0 <= j < old(self).entries@.len() ==> (#[trigger] final(self).entries@[j]).spec_title() == old(self).entries@[j].spec_title() && final(self).entries@[j].spec_active() == old(self).entries@[j].spec_active(),
            (!old(self).active || old(self).active_entries == 0) ==> (r is None && *final(self)
                == *old(self)),
    {
        if !self.active {
            return None;
        }
        if self.active_entries == 0 {
            return None;
        }
        let idx = self.cursor as usize;
        let mut e = self.entries.remove(idx);
        let r = e.activate(data);
        self.entries.insert(idx, e);
        proof {
            assert(self.entries@ =~= old(self).entries@.update(old(self).cursor as int, e));
        }
        r
    }

    /// Opens the menu and runs the open action.
    pub fn open(&mut self, data: T) -> (r: Option<usize>)
        ensures
            final(self).active,
            final(self).cursor == old(self).cursor,
            final(self).entries@ == old(self).entries@,
            final(self).active_entries == old(self).active_entries,
            final(self).toggle_timer == old(self).toggle_timer,
    {
        self.active = true;
        self.open_action.activate(data)
    }

    /// Closes the menu and runs the close action.
    pub fn close(&mut self, data: T) -> (r: Option<usize>)
        ensures
            !final(self).active,
            final(self).cursor == old(self).cursor,
            final(self).entries@ == old(self).entries@,
            final(self).active_entries == old(self).active_entries,
            final(self).toggle_timer == old(self).toggle_timer,
    {
        self.active = false;
        self.close_action.activate(data)
    }

    /// Resets the toggle debounce and runs the back action.
    pub fn back(&mut self, data: T) -> (r: Option<usize>)
        ensures
            final(self).toggle_timer == 0,
            final(self).active == old(self).active,
            final(self).cursor == old(self).cursor,
            final(self).entries@ == old(self).entries@,
            final(self).active_entries == old(self).active_entries,
    {
        self.toggle_timer = 0;
        self.back_action.activate(data)
    }

    /// Opens or closes the menu unless the debounce timer is still
    /// running; an accepted toggle reloads the debounce timer.
    pub fn toggle(&mut self, data: T)
        ensures
            old(self).toggle_timer > 0 ==> *final(self) == *old(self),
            old(self).toggle_timer == 0 ==> {
                &&& final(self).active == !old(self).active
                &&& final(self).toggle_timer == old(self).toggle_timer_max
                &&& final(self).cursor == old(self).cursor
                &&& final(self).entries@ == old(self).entries@
            },
    {
        if self.toggle_timer > 0 {
            return ;
        }
        self.toggle_timer = self.toggle_timer_max;
        if self.active {
            let _ = self.close(data);
        } else {
            let _ = self.open(data);
        }
    }

    /// Draws the open menu: a cursor marker beside the selected entry and
    /// each active entry's title, top to bottom.
    pub fn draw<C: RenderContext>(&mut self, ctxt: &mut C)
        requires
            old(self).wf(),
            -MAX_COORD <= old(self).x <= MAX_COORD,
            -MAX_COORD <= old(self).y <= MAX_COORD,
        ensures
            final(self).wf(),
            final(self).entries@ == old(self).entries@,
            final(self).cursor == old(self).cursor,
            final(self).active == old(self).active,
            final(self).x == old(self).x,
            final(self).y == old(self).y,
    {
        if !self.active {
            return ;
        }
        let start_x = self.x;
        let mut start_y = self.y;
        let mut counter: isize = 0;
        let mut i: usize = 0;
        while i < self.entries.len()
            invariant
                self.wf(),
                i <= self.entries@.len(),
                0 <= counter <= i,
                self.entries@ == old(self).entries@,
                self.cursor == old(self).cursor,
                self.active == old(self).active,
                self.active_entries == old(self).active_entries,
                self.x == old(self).x,
                self.y == old(self).y,
                self.toggle_timer == old(self).toggle_timer,
                self.toggle_timer_max == old(self).toggle_timer_max,
                start_x == old(self).x,
                old(self).y <= start_y <= old(self).y + i * (CHAR_H + 2),
            decreases self.entries@.len() - i,
        {
            let active = self.entries[i].active();
            if active {
                if self.cursor == counter {
                    if !ctxt.set_color(Color::new(0xFF, 0x00, 0x00, 0xFF)) {
                        ctxt.puts(">", start_x, start_y);
                    }
                }
                let mut e = self.entries.remove(i);
                e.draw(ctxt, start_x + CHAR_W as isize + 2, start_y);
                self.entries.insert(i, e);
                proof {
                    assert(self.entries@ =~= old(self).entries@);
                }
                start_y = start_y + (CHAR_H as isize + 2);
                counter = counter + 1;
            }
            i = i + 1;
        }
    }

    /// Advances the debounce timer and, while the menu is open, runs the
    /// frame update action and each active entry's update action.
    pub fn update(&mut self, data: T)
        requires
            old(self).wf(),
        ensures
            final(self).wf(),
            final(self).toggle_timer == if old(self).toggle_timer > 0 {
                (old(self).toggle_timer - 1) as u16
            } else {
                0
            },
            final(self).cursor == old(self).cursor,
            final(self).active == old(self).active,
            final(self).x == old(self).x,
            final(self).y == old(self).y,
            final(self).entries@.len() == old(self).entries@.len(),
            forall|j: int|
                0 <= j < old(self).entries@.len() ==> (#[trigger] final(self).entries@[j]).spec_title() == old(self).entries@[j].spec_title() && final(self).entries@[j].spec_active() == old(self).entries@[j].spec_active(),
    {
        if self.toggle_timer > 0 {
            self.toggle_timer = self.toggle_timer - 1;
        }
        if !self.active {
            return ;
        }
        let _ = self.update_action.activate(data);
        let mut i: usize = 0;
        while i < self.entries.len()
            invariant
                self.wf(),
                i <= self.entries@.len(),
                self.cursor == old(self).cursor,
                self.active == old(self).active,
                self.active_entries == old(self).active_entries,
                self.x == old(self).x,
                self.y == old(self).y,
                self.toggle_timer == if old(self).toggle_timer > 0 {
                    (old(self).toggle_timer - 1) as u16
                } else {
                    0
                },
                self.entries@.len() == old(self).entries@.len(),
                forall|j: int|
                    0 <= j < old(self).entries@.len() ==> (#[trigger] self.entries@[j]).spec_title()
                        == old(self).entries@[j].spec_title() && self.entries@[j].spec_active()
                        == old(self).entries@[j].spec_active(),
            decreases self.entries@.len() - i,
        {
            let active = self.entries[i].active();
            if active {
                let mut e = self.entries.remove(i);
                let _ = e.call_update(data);
                self.entries.insert(i, e);
            }
            i = i + 1;
        }
    }

    /// Whether the menu is open.
    pub fn active(&self) -> (r: bool)
        ensures
            r == self.active,
    {
        self.active
    }

    /// Checks the well-formedness invariant at run time.
    pub fn check_wf(&self) -> (r: bool)
        ensures
            r == self.wf(),
    {
        self.active_entries == self.entries.len() && self.entries.len() <= MAX_ENTRIES && (
        if self.entries.len() == 0 {
            self.cursor == 0
        } else {
            0 <= self.cursor && self.cursor < self.entries.len() as isize
        })
    }
}

impl<T, A> crate::render::Widget<T> for Menu<T, A> where T: Copy, A: EntryAction<T> {
    fn toggle(&mut self, data: T) {
        self.toggle(data);
    }

    fn active(&self) -> bool {
        self.active
    }
}

impl<T, A> crate::render::Drawable<T> for Menu<T, A> where T: Copy, A: EntryAction<T> {
    fn draw<C: RenderContext>(&mut self, ctxt: &mut C) {
        // layout arithmetic is verified under these bounds; a menu
        // outside them draws nothing
        if self.check_wf() && -MAX_COORD <= self.x && self.x <= MAX_COORD && -MAX_COORD <= self.y
            && self.y <= MAX_COORD {
            self.draw(ctxt);
        }
    }

    fn update(&mut self, data: T) {
        if self.check_wf() {
            self.update(data);
        }
    }
}

} // verus!
