//! Events and the registry of named listeners that they are dispatched to.
use vstd::prelude::*;

verus! {

/// Events raised by the application itself.
#[derive(Debug)]
pub enum InternalEvent {
    /// Nothing happened.
    Empty,
    /// The names of a section finished loading: `(names, section index)`.
    Loaded((Vec<String>, usize)),
}

/// A key, as far as the pages tell keys apart.
#[derive(Clone, Copy, PartialEq, Eq, Structural, Debug)]
pub enum KeyCode {
    Char(char),
    Enter,
    Esc,
    Backspace,
    Other,
}

/// The modifiers held with a key, as far as the pages tell them apart.
#[derive(Clone, Copy, PartialEq, Eq, Structural, Debug)]
pub enum KeyModifiers {
    /// No modifier at all.
    Bare,
    /// Control alone.
    Control,
    /// Shift alone.
    Shift,
    /// Any other combination.
    Other,
}

#[derive(Clone, Copy, PartialEq, Eq, Structural, Debug)]
pub struct KeyEvent {
    pub code: KeyCode,
    pub modifiers: KeyModifiers,
}

#[derive(Clone, Copy, PartialEq, Eq, Structural, Debug)]
pub enum MouseEventKind {
    Down,
    Up,
    Drag,
    ScrollUp,
    ScrollDown,
    Other,
}

/// A mouse event at a terminal cell.
#[derive(Clone, Copy, PartialEq, Eq, Structural, Debug)]
pub struct MouseEvent {
    pub kind: MouseEventKind,
    pub column: u16,
    pub row: u16,
}

/// A rectangle of terminal cells.
#[derive(Clone, Copy, PartialEq, Eq, Structural, Debug)]
pub struct Area {
    pub x: u16,
    pub y: u16,
    pub width: u16,
    pub height: u16,
}

impl Area {
    /// The cell at column `col`, row `row` lies inside.
    pub open spec fn holds(&self, col: int, row: int) -> bool {
        self.x <= col < self.x + self.width && self.y <= row < self.y + self.height
    }

    pub fn contains(&self, col: u16, row: u16) -> (r: bool)
        ensures
            r == self.holds(col as int, row as int),
    {
        self.x <= col && col - self.x < self.width && self.y <= row && row - self.y < self.height
    }
}

/// App events.
#[derive(Debug)]
pub enum Event {
    /// Terminal tick.
    Tick,
    /// Key event.
    Key(KeyEvent),
    /// Mouse event.
    Mouse(MouseEvent),
    /// Internal event.
    Internal(InternalEvent),
}

/// A callback registered under an id.
pub struct Listener<C> {
    pub id: String,
    pub callback: C,
}

/// The listeners, in the order in which their ids were first registered.
/// Each id occurs once.
pub struct EventController<C> {
    listeners: Vec<Listener<C>>,
}

/// Some entry of `v` has the id `id`.
pub open spec fn has_id<C>(v: Seq<(Seq<char>, C)>, id: Seq<char>) -> bool {
    exists|k: int| 0 <= k < v.len() && #[trigger] v[k].0 == id
}

/// The place of the entry with id `id`.
pub open spec fn position_of<C>(v: Seq<(Seq<char>, C)>, id: Seq<char>) -> int {
    choose|k: int| 0 <= k < v.len() && #[trigger] v[k].0 == id
}

/// No id occurs twice.
pub open spec fn unique_ids<C>(v: Seq<(Seq<char>, C)>) -> bool {
    forall|i: int, j: int| 0 <= i < v.len() && 0 <= j < v.len() && #[trigger] v[i].0 == #[trigger] v[j].0 ==> i == j
}

impl<C> View for EventController<C> {
    type V = Seq<(Seq<char>, C)>;

    closed spec fn view(&self) -> Seq<(Seq<char>, C)> {
        self.listeners@.map_values(|l: Listener<C>| (l.id@, l.callback))
    }
}

impl<C> EventController<C> {
    pub open spec fn wf(&self) -> bool {
        unique_ids(self@)
    }

    /// An empty registry.
    pub fn new() -> (r: Self)
        ensures
            r.wf(),
            r@.len() == 0,
    {
        let r = EventController { listeners: Vec::new() };
        assert(r@ =~= Seq::<(Seq<char>, C)>::empty());
        r
    }

    /// The place of the listener `id`, if it is registered.
    fn find(&self, id: &String) -> (r: Option<usize>)
        requires
            self.wf(),
        ensures
            r is None ==> !has_id(self@, id@),
            r is Some ==> r->0 < self@.len() && self@[r->0 as int].0 == id@ && r->0 == position_of(
                self@,
                id@,
            ),
    {
        let mut k: usize = 0;
        while k < self.listeners.len()
            invariant
                k <= self.listeners.len(),
                self.wf(),
                self@.len() == self.listeners.len(),
                forall|j: int| 0 <= j < k ==> self@[j].0 != id@,
            decreases self.listeners.len() - k,
        {
            assert(self@[k as int].0 == self.listeners@[k as int].id@);
            if self.listeners[k].id == *id {
                assert(self@[k as int].0 == id@);
                proof {
                    assert(has_id(self@, id@));
                    let p = position_of(self@, id@);
                    assert(self@[p].0 == id@);
                    assert(self@[p].0 == self@[k as int].0);
                }
                return Some(k);
            }
            k = k + 1;
        }
        None
    }

    /// Registers `callback` under `id`. A listener already registered under
    /// `id` is replaced in its place; a new id goes last.
    pub fn add_listener(&mut self, id: &str, callback: C)
        requires
            old(self).wf(),
        ensures
            final(self).wf(),
            has_id(old(self)@, id@) ==> final(self)@ == old(self)@.update(
                position_of(old(self)@, id@),
                (id@, callback),
            ),
            !has_id(old(self)@, id@) ==> final(self)@ == old(self)@.push((id@, callback)),
    {
        let key = id.to_owned();
        match self.find(&key) {
            Some(k) => {
                self.listeners.set(k, Listener { id: key, callback });
                assert(self@ =~= old(self)@.update(k as int, (id@, callback)));
            },
            None => {
                self.listeners.push(Listener { id: key, callback });
                assert(self@ =~= old(self)@.push((id@, callback)));
            },
        }
    }

    /// Unregisters the listener `id`, if there is one.
    pub fn remove_listener(&mut self, id: &str)
        requires
            old(self).wf(),
        ensures
            final(self).wf(),
            has_id(old(self)@, id@) ==> final(self)@ == old(self)@.remove(
                position_of(old(self)@, id@),
            ),
            !has_id(old(self)@, id@) ==> final(self)@ == old(self)@,
            !has_id(final(self)@, id@),
    {
        let key = id.to_owned();
        match self.find(&key) {
            Some(k) => {
                self.listeners.remove(k);
                assert(self@ =~= old(self)@.remove(k as int));
                assert forall|i: int, j: int|
                    0 <= i < self@.len() && 0 <= j < self@.len() && #[trigger] self@[i].0
                        == #[trigger] self@[j].0 implies i == j by {
                    let oi = if i < k { i } else { i + 1 };
                    let oj = if j < k { j } else { j + 1 };
                    assert(self@[i] == old(self)@[oi]);
                    assert(self@[j] == old(self)@[oj]);
                }
                assert forall|j: int| 0 <= j < self@.len() implies #[trigger] self@[j].0 != id@ by {
                    let oj = if j < k { j } else { j + 1 };
                    assert(self@[j] == old(self)@[oj]);
                }
            },
            None => {},
        }
    }

    /// The listeners in dispatch order. Every event goes to each of them,
    /// in this order.
    pub fn listeners(&self) -> (r: &Vec<Listener<C>>)
        ensures
            r@.map_values(|l: Listener<C>| (l.id@, l.callback)) == self@,
    {
        &self.listeners
    }
}

} // verus!
