//! One frame's view of the keyboard: which keys are down, and which went down this frame.

use vstd::prelude::*;

verus! {

/// The keys that the walkthrough listens to.
#[derive(Clone, Copy, Debug, PartialEq, Eq, Structural)]
pub enum Key {
    KeyZ,
    KeyX,
    KeyC,
    KeyV,
    KeyF,
    KeyG,
    KeyB,
}

/// A set of keys.
#[derive(Clone, Copy, Debug, PartialEq, Eq, Structural)]
pub struct KeySet {
    pub z: bool,
    pub x: bool,
    pub c: bool,
    pub v: bool,
    pub f: bool,
    pub g: bool,
    pub b: bool,
}

impl KeySet {
    /// Whether `key` is in the set.
    pub open spec fn contains(self, key: Key) -> bool {
        match key {
            Key::KeyZ => self.z,
            Key::KeyX => self.x,
            Key::KeyC => self.c,
            Key::KeyV => self.v,
            Key::KeyF => self.f,
            Key::KeyG => self.g,
            Key::KeyB => self.b,
        }
    }

    /// The set without any key.
    pub fn empty() -> (set: KeySet)
        ensures
            forall|key: Key| !set.contains(key),
    {
        KeySet { z: false, x: false, c: false, v: false, f: false, g: false, b: false }
    }

    /// Whether `key` is in the set.
    pub fn has(&self, key: Key) -> (present: bool)
        ensures
            present == self.contains(key),
    {
        match key {
            Key::KeyZ => self.z,
            Key::KeyX => self.x,
            Key::KeyC => self.c,
            Key::KeyV => self.v,
            Key::KeyF => self.f,
            Key::KeyG => self.g,
            Key::KeyB => self.b,
        }
    }

    /// Puts `key` into the set where `present` is true, and takes it out where it is false.
    pub fn put(&mut self, key: Key, present: bool)
        ensures
            final(self).contains(key) == present,
            forall|other: Key| other != key ==> final(self).contains(other) == old(self).contains(other),
    {
        match key {
            Key::KeyZ => { self.z = present; },
            Key::KeyX => { self.x = present; },
            Key::KeyC => { self.c = present; },
            Key::KeyV => { self.v = present; },
            Key::KeyF => { self.f = present; },
            Key::KeyG => { self.g = present; },
            Key::KeyB => { self.b = present; },
        }
    }
}

/// What the keyboard shows in one frame. A key is held while it is down; it is fresh
/// in the one frame in which it went down.
#[derive(Clone, Copy, Debug, PartialEq, Eq, Structural)]
pub struct InputSnapshot {
    pub held: KeySet,
    pub fresh: KeySet,
}

impl InputSnapshot {
    /// Whether `key` is down in this frame.
    pub open spec fn is_held(self, key: Key) -> bool {
        self.held.contains(key)
    }

    /// Whether `key` went down in this frame.
    pub open spec fn is_fresh(self, key: Key) -> bool {
        self.fresh.contains(key)
    }

    /// A frame in which no key is down.
    pub fn idle() -> (input: InputSnapshot)
        ensures
            forall|key: Key| !input.is_held(key) && !input.is_fresh(key),
    {
        InputSnapshot { held: KeySet::empty(), fresh: KeySet::empty() }
    }

    /// Notes for `key` whether it is down and whether it went down in this frame.
    pub fn record(&mut self, key: Key, held: bool, fresh: bool)
        ensures
            final(self).is_held(key) == held,
            final(self).is_fresh(key) == fresh,
            forall|other: Key|
                other != key ==> final(self).is_held(other) == old(self).is_held(other)
                    && final(self).is_fresh(other) == old(self).is_fresh(other),
    {
        self.held.put(key, held);
        self.fresh.put(key, fresh);
    }

    /// Whether `key` is down in this frame.
    pub fn pressed(&self, key: Key) -> (down: bool)
        ensures
            down == self.is_held(key),
    {
        self.held.has(key)
    }

    /// Whether `key` went down in this frame.
    pub fn just_pressed(&self, key: Key) -> (edge: bool)
        ensures
            edge == self.is_fresh(key),
    {
        self.fresh.has(key)
    }
}

} // verus!
