//! A group of characters as a player arranges it.

use vstd::prelude::*;
use crate::character::Character;

verus! {

/// The place of a character in its group.
#[derive(Debug, Clone, Copy, PartialEq, Eq, PartialOrd, Ord, Hash, Structural)]
pub struct CharIndex(pub usize);

impl CharIndex {
    /// The next place.
    pub fn increment(self) -> (r: Self)
        requires
            self.0 < usize::MAX,
        ensures
            r.0 == self.0 + 1,
    {
        CharIndex(self.0 + 1)
    }

    /// The place before; the first place has none.
    pub fn decrement(self) -> (r: Self)
        requires
            self.0 > 0,
        ensures
            r.0 == self.0 - 1,
    {
        CharIndex(self.0 - 1)
    }

    pub fn from_usize(index: usize) -> (r: Self)
        ensures
            r.0 == index,
    {
        CharIndex(index)
    }

    pub fn into_usize(self) -> (r: usize)
        ensures
            r == self.0,
    {
        self.0
    }
}

impl Default for CharIndex {
    fn default() -> (r: Self)
        ensures
            r.0 == 0,
    {
        CharIndex(0)
    }
}

/// What a player asked a group to do.
#[derive(Debug, Clone, Copy, PartialEq, Eq, Structural)]
pub enum GroupAction {
    New,
    Load,
    Clear,
    Select(CharIndex),
    Delete(CharIndex),
}

/// The characters of one side, in the order in which they stand.
#[derive(Debug)]
pub struct Group {
    chars: Vec<Character>,
}

impl View for Group {
    type V = Seq<Character>;

    closed spec fn view(&self) -> Seq<Character> {
        self.chars@
    }
}

impl Group {
    /// A group without characters.
    pub fn new() -> (r: Self)
        ensures
            r@ == Seq::<Character>::empty(),
    {
        Group { chars: Vec::new() }
    }

    pub fn into_vec(self) -> (r: Vec<Character>)
        ensures
            r@ == self@,
    {
        self.chars
    }

    /// How many characters the group has.
    pub fn len(&self) -> (r: usize)
        ensures
            r == self@.len(),
    {
        self.chars.len()
    }

    /// Puts `character` last.
    pub fn add_char(&mut self, character: Character)
        ensures
            final(self)@ == old(self)@.push(character),
    {
        self.chars.push(character);
    }

    /// Puts `character` at place `index`; whoever stood there or behind
    /// moves one place back.
    pub fn insert_char(&mut self, index: CharIndex, character: Character)
        requires
            index.0 <= old(self)@.len(),
        ensures
            final(self)@ == old(self)@.insert(index.0 as int, character),
    {
        self.chars.insert(index.into_usize(), character);
    }

    /// Takes the character at place `index` out and hands it over.
    pub fn take_char(&mut self, index: CharIndex) -> (r: Character)
        requires
            index.0 < old(self)@.len(),
        ensures
            r == old(self)@[index.0 as int],
            final(self)@ == old(self)@.remove(index.0 as int),
    {
        self.chars.remove(index.into_usize())
    }

    /// Takes the character at place `index` out.
    pub fn delete_char(&mut self, index: CharIndex)
        requires
            index.0 < old(self)@.len(),
        ensures
            final(self)@ == old(self)@.remove(index.0 as int),
    {
        self.chars.remove(index.into_usize());
    }

    pub fn clear(&mut self)
        ensures
            final(self)@ == Seq::<Character>::empty(),
    {
        self.chars.clear();
    }

    /// The character at place `index`, if there is one.
    pub fn get_char(&self, index: CharIndex) -> (r: Option<&Character>)
        ensures
            index.0 < self@.len() ==> r == Some(&self@[index.0 as int]),
            index.0 >= self@.len() ==> r is None,
    {
        if index.0 < self.chars.len() {
            Some(&self.chars[index.0])
        } else {
            None
        }
    }

    /// The character at place `index`, to be changed, if there is one.
    pub fn get_char_mut(&mut self, index: CharIndex) -> (r: Option<&mut Character>)
        ensures
            index.0 >= old(self)@.len() ==> r is None && final(self)@ == old(self)@,
            index.0 < old(self)@.len() ==> r is Some && *r->Some_0 == old(self)@[index.0 as int]
                && final(self)@ == old(self)@.update(index.0 as int, *final(r->Some_0)),
    {
        if index.0 < self.chars.len() {
            Some(&mut self.chars[index.0])
        } else {
            None
        }
    }
}

impl Default for Group {
    fn default() -> (r: Self)
        ensures
            r@ == Seq::<Character>::empty(),
    {
        Group::new()
    }
}

} // verus!
