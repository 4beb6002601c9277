//! Which character of which group is selected, and how the selection moves
//! when characters are moved.

use vstd::prelude::*;
use crate::group::CharIndex;

verus! {

/// One of the two groups.
#[derive(Debug, Clone, Copy, PartialEq, Eq, Hash, Structural)]
pub enum GroupId {
    Left,
    Right,
}

/// A character, by its group and its place there.
#[derive(Debug, Clone, Copy, PartialEq, Eq, Structural)]
pub enum CharSelection {
    Left(CharIndex),
    Right(CharIndex),
}

impl CharSelection {
    pub open spec fn spec_new(id: GroupId, index: CharIndex) -> CharSelection {
        match id {
            GroupId::Left => CharSelection::Left(index),
            GroupId::Right => CharSelection::Right(index),
        }
    }

    pub open spec fn spec_group_id(self) -> GroupId {
        match self {
            CharSelection::Left(_) => GroupId::Left,
            CharSelection::Right(_) => GroupId::Right,
        }
    }

    pub open spec fn spec_char_index(self) -> CharIndex {
        match self {
            CharSelection::Left(char_index) => char_index,
            CharSelection::Right(char_index) => char_index,
        }
    }

    #[verifier::when_used_as_spec(spec_new)]
    pub fn new(id: GroupId, index: CharIndex) -> (r: Self)
        ensures
            r == Self::spec_new(id, index),
    {
        match id {
            GroupId::Left => CharSelection::Left(index),
            GroupId::Right => CharSelection::Right(index),
        }
    }

    #[verifier::when_used_as_spec(spec_group_id)]
    pub fn group_id(self) -> (r: GroupId)
        ensures
            r == self.spec_group_id(),
    {
        match self {
            CharSelection::Left(_) => GroupId::Left,
            CharSelection::Right(_) => GroupId::Right,
        }
    }

    #[verifier::when_used_as_spec(spec_char_index)]
    pub fn char_index(self) -> (r: CharIndex)
        ensures
            r == self.spec_char_index(),
    {
        match self {
            CharSelection::Left(char_index) => char_index,
            CharSelection::Right(char_index) => char_index,
        }
    }

    /// Moves the selection one place on, within its group.
    pub fn increment_index(&mut self)
        requires
            old(self).spec_char_index().0 < usize::MAX,
        ensures
            *final(self) == Self::spec_new(
                old(self).spec_group_id(),
                CharIndex((old(self).spec_char_index().0 + 1) as usize),
            ),
    {
        let moved = match *self {
            CharSelection::Left(char_index) => CharSelection::Left(char_index.increment()),
            CharSelection::Right(char_index) => CharSelection::Right(char_index.increment()),
        };
        *self = moved;
    }

    /// Moves the selection one place back, within its group.
    pub fn decrement_index(&mut self)
        requires
            old(self).spec_char_index().0 > 0,
        ensures
            *final(self) == Self::spec_new(
                old(self).spec_group_id(),
                CharIndex((old(self).spec_char_index().0 - 1) as usize),
            ),
    {
        let moved = match *self {
            CharSelection::Left(char_index) => CharSelection::Left(char_index.decrement()),
            CharSelection::Right(char_index) => CharSelection::Right(char_index.decrement()),
        };
        *self = moved;
    }

    /// Where the selection points after a character moved from place
    /// `from_index` of `from_group` to place `to_index` of `to_group`: it
    /// goes along with the character it pointed at; otherwise it steps
    /// back if the character left from before it, and on if the character
    /// arrived at its place or before it.
    pub open spec fn after_move(
        self,
        from_group: GroupId,
        to_group: GroupId,
        from_index: CharIndex,
        to_index: CharIndex,
    ) -> CharSelection {
        if self.spec_group_id() == from_group && self.spec_char_index() == from_index {
            Self::spec_new(to_group, to_index)
        } else {
            let decrement = self.spec_group_id() == from_group && self.spec_char_index().0
                > from_index.0;
            let increment = self.spec_group_id() == to_group && self.spec_char_index().0
                >= to_index.0;
            if increment && !decrement {
                Self::spec_new(
                    self.spec_group_id(),
                    CharIndex((self.spec_char_index().0 + 1) as usize),
                )
            } else if decrement && !increment {
                Self::spec_new(
                    self.spec_group_id(),
                    CharIndex((self.spec_char_index().0 - 1) as usize),
                )
            } else {
                self
            }
        }
    }

    /// Adjusts the selection to a character that was moved.
    pub fn adjust_selection_after_dnd(
        &mut self,
        from_group: GroupId,
        to_group: GroupId,
        from_index: CharIndex,
        to_index: CharIndex,
    )
        requires
            old(self).spec_char_index().0 < usize::MAX,
        ensures
            *final(self) == old(self).after_move(from_group, to_group, from_index, to_index),
    {
        let move_selection = self.group_id() == from_group && self.char_index().0 == from_index.0;
        if move_selection {
            *self = CharSelection::new(to_group, to_index);
            return ;
        }
        let decrement = self.group_id() == from_group && self.char_index().0 > from_index.0;
        let increment = self.group_id() == to_group && self.char_index().0 >= to_index.0;
        if increment && !decrement {
            self.increment_index();
        } else if decrement && !increment {
            self.decrement_index();
        }
    }
}

} // verus!
