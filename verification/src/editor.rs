//! The two groups as a player edits them, and the character that is
//! selected for editing.

use vstd::prelude::*;
use crate::character::Character;
use crate::dnd::DragOperation;
use crate::group::CharIndex;
use crate::group::Group;
use crate::group::GroupAction;
use crate::selection::CharSelection;
use crate::selection::GroupId;

verus! {

/// What is asked of whoever keeps characters on disk.
#[derive(Debug)]
pub enum IoRequest {
    /// Store the character.
    Save(Character),
    /// Fetch a character for the group.
    Load(GroupId),
}

/// What comes back from whoever keeps characters on disk.
#[derive(Debug)]
pub enum IoResponse {
    /// A character was fetched for the group.
    CharLoaded(GroupId, Character),
}

/// The groups on both sides and the selection.
#[derive(Debug)]
pub struct Editor {
    pub chars_left: Group,
    pub chars_right: Group,
    pub selection: Option<CharSelection>,
}

/// Where a moved character ends up: at the place the drop names, or first
/// in an empty group; one place earlier if it moves down within its group,
/// since it left a gap behind.
pub open spec fn landing_place(dnd: DragOperation) -> int {
    let named = match dnd.to.spec_index() {
        Some(index) => index.0 as int,
        None => 0,
    };
    if dnd.from.group == dnd.to.group && named > dnd.from.index.0 {
        named - 1
    } else {
        named
    }
}

/// Whether the move leaves everything as it is: the character is dropped
/// at its own place.
pub open spec fn stays_put(dnd: DragOperation) -> bool {
    dnd.from.group == dnd.to.group && Some(dnd.from.index) == dnd.to.spec_index()
}

impl Editor {
    /// An editor with two empty groups and nothing selected.
    pub fn new() -> (r: Self)
        ensures
            r.chars_left@ == Seq::<Character>::empty(),
            r.chars_right@ == Seq::<Character>::empty(),
            r.selection is None,
    {
        Editor { chars_left: Group::new(), chars_right: Group::new(), selection: None }
    }

    /// The characters of the group `id`.
    pub open spec fn group(&self, id: GroupId) -> Seq<Character> {
        match id {
            GroupId::Left => self.chars_left@,
            GroupId::Right => self.chars_right@,
        }
    }

    /// Whether the move can be made: the character exists, and the place
    /// to drop it exists once the character is taken out.
    pub open spec fn can_move(&self, dnd: DragOperation) -> bool {
        &&& dnd.to.countable()
        &&& dnd.from.index.0 < self.group(dnd.from.group).len()
        &&& landing_place(dnd) <= if dnd.from.group == dnd.to.group {
            self.group(dnd.to.group).len() - 1
        } else {
            self.group(dnd.to.group).len() as int
        }
        &&& match self.selection {
            Some(selection) => selection.spec_char_index().0 < usize::MAX,
            None => true,
        }
    }

    /// Takes in a character that was fetched for a group: it is put last.
    pub fn take_in(&mut self, response: IoResponse)
        ensures
            final(self).selection == old(self).selection,
            match response {
                IoResponse::CharLoaded(GroupId::Left, character) => final(self).chars_left@ == old(self).chars_left@.push(character) && final(self).chars_right@ == old(self).chars_right@,
                IoResponse::CharLoaded(GroupId::Right, character) => final(self).chars_right@
                    == old(self).chars_right@.push(character) && final(self).chars_left@ == old(self).chars_left@,
            },
    {
        match response {
            IoResponse::CharLoaded(GroupId::Left, character) => self.chars_left.add_char(character),
            IoResponse::CharLoaded(GroupId::Right, character) => self.chars_right.add_char(
                character,
            ),
        }
    }

    /// Moves a character as a drag asks: out of its place, and in at the
    /// place of the drop. The selection follows the characters. A
    /// character dropped at its own place stays.
    pub fn handle_dnd(&mut self, dnd: DragOperation)
        requires
            old(self).can_move(dnd),
        ensures
            stays_put(dnd) ==> final(self).chars_left@ == old(self).chars_left@ && final(self).chars_right@ == old(self).chars_right@ && final(self).selection == old(self).selection,
            !stays_put(dnd) ==> {
                let moved = old(self).group(dnd.from.group)[dnd.from.index.0 as int];
                let at = landing_place(dnd);
                &&& final(self).group(dnd.to.group) == (if dnd.from.group == dnd.to.group {
                    old(self).group(dnd.from.group).remove(dnd.from.index.0 as int)
                } else {
                    old(self).group(dnd.to.group)
                }).insert(at, moved)
                &&& dnd.from.group != dnd.to.group ==> final(self).group(dnd.from.group) == old(self).group(dnd.from.group).remove(dnd.from.index.0 as int)
                &&& final(self).selection == match old(self).selection {
                    Some(selection) => Some(
                        selection.after_move(
                            dnd.from.group,
                            dnd.to.group,
                            dnd.from.index,
                            CharIndex(at as usize),
                        ),
                    ),
                    None => None,
                }
            },
    {
        let from = dnd.from;
        let to = dnd.to;
        let same_group = from.group == to.group;
        let target = to.index();
        let same_index = match target {
            Some(index) => index.0 == from.index.0,
            None => false,
        };
        if same_group && same_index {
            return ;
        }
        let moved_char = match from.group {
            GroupId::Left => self.chars_left.take_char(from.index),
            GroupId::Right => self.chars_right.take_char(from.index),
        };
        let to_index = match target {
            Some(index) => index,
            None => CharIndex(0),
        };
        let moved_down = same_group && to_index.0 > from.index.0;
        let to_index = if moved_down {
            to_index.decrement()
        } else {
            to_index
        };
        match to.group {
            GroupId::Left => self.chars_left.insert_char(to_index, moved_char),
            GroupId::Right => self.chars_right.insert_char(to_index, moved_char),
        }
        match self.selection {
            Some(selection) => {
                let mut selection = selection;
                selection.adjust_selection_after_dnd(from.group, to.group, from.index, to_index);
                self.selection = Some(selection);
            },
            None => {},
        }
    }

    /// What the selection is after `action` on the group `affected_group`:
    /// it is gone if the group was cleared or its character deleted, and
    /// steps back if a character before it was deleted.
    pub open spec fn selection_after(
        selection: Option<CharSelection>,
        affected_group: GroupId,
        action: GroupAction,
    ) -> Option<CharSelection> {
        match selection {
            Some(selected) => if selected.spec_group_id() != affected_group {
                selection
            } else {
                match action {
                    GroupAction::Clear => None,
                    GroupAction::Delete(i) => if i.0 == selected.spec_char_index().0 {
                        None
                    } else if i.0 < selected.spec_char_index().0 {
                        Some(
                            CharSelection::spec_new(
                                affected_group,
                                CharIndex((selected.spec_char_index().0 - 1) as usize),
                            ),
                        )
                    } else {
                        selection
                    },
                    _ => selection,
                }
            },
            None => None,
        }
    }

    /// Adjusts the selection to what was done to a group.
    pub fn adjust_selection_index(&mut self, affected_group: GroupId, action: GroupAction)
        ensures
            final(self).selection == Self::selection_after(
                old(self).selection,
                affected_group,
                action,
            ),
            final(self).chars_left@ == old(self).chars_left@,
            final(self).chars_right@ == old(self).chars_right@,
    {
        let selected = match self.selection {
            Some(selected) => selected,
            None => { return ; },
        };
        if selected.group_id() != affected_group {
            return ;
        }
        match action {
            GroupAction::Clear => self.selection = None,
            GroupAction::Delete(i) => {
                if i.0 == selected.char_index().0 {
                    self.selection = None;
                } else if i.0 < selected.char_index().0 {
                    let mut moved = selected;
                    moved.decrement_index();
                    self.selection = Some(moved);
                }
            },
            _ => {},
        }
    }

    /// Whether `action` can be done to the group `group_id`: a character
    /// to delete must exist.
    pub open spec fn can_do(&self, group_id: GroupId, action: GroupAction) -> bool {
        match action {
            GroupAction::Delete(i) => i.0 < self.group(group_id).len(),
            _ => true,
        }
    }

    /// Does to the group `group_id` what a player asked for, and adjusts
    /// the selection. A new character is a beginner. To load a character
    /// is left to whoever keeps them: the request for it is handed back.
    pub fn apply_action(&mut self, group_id: GroupId, action: GroupAction) -> (r: Option<
        IoRequest,
    >)
        requires
            old(self).can_do(group_id, action),
        ensures
            r is Some <==> action == GroupAction::Load,
            action == GroupAction::Load ==> (r matches Some(IoRequest::Load(id)) && id == group_id),
            final(self).group(
                match group_id {
                    GroupId::Left => GroupId::Right,
                    GroupId::Right => GroupId::Left,
                },
            ) == old(self).group(
                match group_id {
                    GroupId::Left => GroupId::Right,
                    GroupId::Right => GroupId::Left,
                },
            ),
            match action {
                GroupAction::New => final(self).group(group_id).len() == old(self).group(
                    group_id,
                ).len() + 1 && final(self).group(group_id).drop_last() == old(self).group(
                    group_id,
                ) && final(self).group(group_id).last().spec_sheet().is_beginner()
                    && final(self).group(group_id).last().name@ == "Hans Dampf"@,
                GroupAction::Load => final(self).group(group_id) == old(self).group(group_id),
                GroupAction::Clear => final(self).group(group_id) == Seq::<Character>::empty(),
                GroupAction::Select(_) => final(self).group(group_id) == old(self).group(group_id),
                GroupAction::Delete(i) => final(self).group(group_id) == old(self).group(
                    group_id,
                ).remove(i.0 as int),
            },
            final(self).selection == Self::selection_after(
                match action {
                    GroupAction::Select(i) => Some(CharSelection::spec_new(group_id, i)),
                    _ => old(self).selection,
                },
                group_id,
                action,
            ),
    {
        let mut request: Option<IoRequest> = None;
        match group_id {
            GroupId::Left => {
                match action {
                    GroupAction::New => {
                        self.chars_left.add_char(Character::default());
                        assert(self.chars_left@.drop_last() =~= old(self).chars_left@);
                    },
                    GroupAction::Load => request = Some(IoRequest::Load(group_id)),
                    GroupAction::Clear => self.chars_left.clear(),
                    GroupAction::Select(i) => self.selection = Some(
                        CharSelection::new(group_id, i),
                    ),
                    GroupAction::Delete(i) => self.chars_left.delete_char(i),
                }
            },
            GroupId::Right => {
                match action {
                    GroupAction::New => {
                        self.chars_right.add_char(Character::default());
                        assert(self.chars_right@.drop_last() =~= old(self).chars_right@);
                    },
                    GroupAction::Load => request = Some(IoRequest::Load(group_id)),
                    GroupAction::Clear => self.chars_right.clear(),
                    GroupAction::Select(i) => self.selection = Some(
                        CharSelection::new(group_id, i),
                    ),
                    GroupAction::Delete(i) => self.chars_right.delete_char(i),
                }
            },
        }
        self.adjust_selection_index(group_id, action);
        request
    }

    /// The character that is selected, if the selection points at one.
    pub fn selected_char(&self) -> (r: Option<&Character>)
        ensures
            match self.selection {
                Some(selection) => {
                    let group = self.group(selection.spec_group_id());
                    let at = selection.spec_char_index().0;
                    if at < group.len() {
                        r == Some(&group[at as int])
                    } else {
                        r is None
                    }
                },
                None => r is None,
            },
    {
        match self.selection {
            Some(CharSelection::Left(i)) => self.chars_left.get_char(i),
            Some(CharSelection::Right(i)) => self.chars_right.get_char(i),
            None => None,
        }
    }
}

impl Default for Editor {
    fn default() -> (r: Self)
        ensures
            r.chars_left@ == Seq::<Character>::empty(),
            r.chars_right@ == Seq::<Character>::empty(),
            r.selection is None,
    {
        Editor::new()
    }
}

} // verus!
