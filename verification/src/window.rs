//! Per-window application state that is not GPU work: the shared window
//! counter used to number newly spawned windows, the key-input decisions, and
//! the bookkeeping of which windows are still open.

use vstd::prelude::*;

verus! {

/// State shared by all windows: how many have been spawned, used to number
/// new window titles. An explicit counter passed through the application
/// context, not process-wide mutable state.
pub struct ZxState {
    /// How many windows have been spawned so far.
    pub count: usize,
}

impl Default for ZxState {
    /// A fresh counter: no windows spawned yet.
    fn default() -> (s: ZxState)
        ensures
            s.count == 0,
    {
        ZxState { count: 0 }
    }
}

impl ZxState {
    /// Claim the next window number: the counter advances by one and the
    /// number of the new window is returned.
    pub fn next_window_number(&mut self) -> (n: usize)
        requires
            old(self).count < usize::MAX,
        ensures
            final(self).count == old(self).count + 1,
            n == old(self).count + 1,
    {
        self.count = self.count + 1;
        self.count
    }
}

/// A key, as far as the per-window input handler reacts to it.
#[derive(Clone, Copy, Debug, PartialEq, Eq, Structural)]
pub enum Key {
    /// The escape key.
    Escape,
    /// The letter N.
    KeyN,
    /// Any other key.
    Other,
}

/// What a key press asks of the window.
#[derive(Clone, Copy, Debug, PartialEq, Eq, Structural)]
pub enum KeyAction {
    /// Nothing.
    Ignore,
    /// Mark this window as exiting.
    Exit,
    /// Queue a request to create a new window.
    SpawnWindow,
}

/// The window's key binding: releases do nothing; escape exits the window;
/// the letter N spawns a new window; every other key is ignored.
pub fn key_command(key: Key, pressed: bool) -> (a: KeyAction)
    ensures
        !pressed ==> a is Ignore,
        pressed && key is Escape ==> a is Exit,
        pressed && key is KeyN ==> a is SpawnWindow,
        pressed && key is Other ==> a is Ignore,
{
    if !pressed {
        return KeyAction::Ignore;
    }
    match key {
        Key::Escape => KeyAction::Exit,
        Key::KeyN => KeyAction::SpawnWindow,
        Key::Other => KeyAction::Ignore,
    }
}

/// Which windows are still open, by an opaque identifier.
pub struct WindowRegistry {
    ids: Vec<u64>,
}

impl View for WindowRegistry {
    type V = Seq<u64>;

    closed spec fn view(&self) -> Seq<u64> {
        self.ids@
    }
}

impl WindowRegistry {
    /// No windows tracked.
    pub fn new() -> (r: WindowRegistry)
        ensures
            r@ == Seq::<u64>::empty(),
    {
        WindowRegistry { ids: Vec::new() }
    }

    /// Track one more window.
    pub fn register(&mut self, id: u64)
        ensures
            final(self)@ == old(self)@.push(id),
    {
        self.ids.push(id);
    }

    /// Whether a window is still tracked.
    pub fn contains(&self, id: u64) -> (present: bool)
        ensures
            present == self@.contains(id),
    {
        let n = self.ids.len();
        let mut i: usize = 0;
        while i < n
            invariant
                n == self@.len(),
                i <= n,
                forall|k: int| 0 <= k < i ==> self@[k] != id,
            decreases n - i,
        {
            if self.ids[i] == id {
                return true;
            }
            i = i + 1;
        }
        false
    }

    /// Drop a window: every entry with this identifier leaves, the others
    /// keep their order. Returns whether no window is left, in which case
    /// the process exits.
    pub fn remove(&mut self, id: u64) -> (empty: bool)
        ensures
            final(self)@ == old(self)@.filter(|w: u64| w != id),
            empty == (final(self)@.len() == 0),
    {
        let n = self.ids.len();
        let mut kept: Vec<u64> = Vec::new();
        let mut i: usize = 0;
        proof {
            reveal(Seq::filter);
            assert(self@.take(0).filter(|w: u64| w != id) =~= Seq::<u64>::empty());
        }
        while i < n
            invariant
                n == self@.len(),
                i <= n,
                kept@ == self@.take(i as int).filter(|w: u64| w != id),
            decreases n - i,
        {
            proof {
                reveal(Seq::filter);
                assert(self@.take(i + 1).drop_last() =~= self@.take(i as int));
                assert(self@.take(i + 1).last() == self@[i as int]);
            }
            let w = self.ids[i];
            if w != id {
                kept.push(w);
            }
            i = i + 1;
        }
        proof {
            assert(self@.take(n as int) =~= self@);
        }
        self.ids = kept;
        self.ids.len() == 0
    }
}

} // verus!
