//! Dragging a character from one place of a group to another: what is
//! being dragged, what it hovers over, and the move that a drop asks for.

use vstd::prelude::*;
use crate::group::CharIndex;
use crate::selection::GroupId;

verus! {

/// Where a dragged character comes from.
#[derive(Debug, Clone, Copy, PartialEq, Eq, Hash, Structural)]
pub struct DragLocation {
    pub group: GroupId,
    pub index: CharIndex,
}

/// Whether the pointer is in the upper or the lower half of a character.
#[derive(Debug, Clone, Copy, PartialEq, Eq, Structural)]
pub enum RelMousePos {
    Above,
    Below,
}

/// A drop just above or just below the character at a place.
#[derive(Debug, Clone, Copy, PartialEq, Eq, Structural)]
pub enum DropIndex {
    Above(CharIndex),
    Below(CharIndex),
}

impl DropIndex {
    pub fn new(index: CharIndex, mouse_pos: RelMousePos) -> (r: Self)
        ensures
            r == match mouse_pos {
                RelMousePos::Above => DropIndex::Above(index),
                RelMousePos::Below => DropIndex::Below(index),
            },
    {
        match mouse_pos {
            RelMousePos::Above => DropIndex::Above(index),
            RelMousePos::Below => DropIndex::Below(index),
        }
    }
}

/// Where a dragged character would be dropped: a group, and there a
/// character to drop it beside, or nothing if the group is empty.
#[derive(Debug, Clone, Copy, PartialEq, Eq, Structural)]
pub struct DropLocation {
    pub group: GroupId,
    pub index: Option<DropIndex>,
}

impl DropLocation {
    /// The drop location in `group` for a pointer that hovers at
    /// `mouse_pos` over the character at place `index`, or over the empty
    /// group.
    pub fn new(group: GroupId, index: Option<CharIndex>, mouse_pos: RelMousePos) -> (r: Self)
        ensures
            r.group == group,
            r.index == match index {
                Some(i) => Some(
                    match mouse_pos {
                        RelMousePos::Above => DropIndex::Above(i),
                        RelMousePos::Below => DropIndex::Below(i),
                    },
                ),
                None => None::<DropIndex>,
            },
    {
        let index = match index {
            Some(i) => Some(DropIndex::new(i, mouse_pos)),
            None => None,
        };
        DropLocation { group, index }
    }

    /// The place at which a dropped character is inserted: the place of
    /// the character it is dropped above, or the place after the one it is
    /// dropped below. An empty group names no place.
    pub open spec fn spec_index(self) -> Option<CharIndex> {
        match self.index {
            Some(DropIndex::Above(i)) => Some(i),
            Some(DropIndex::Below(i)) => Some(CharIndex((i.0 + 1) as usize)),
            None => None,
        }
    }

    /// Whether the place to insert at can be counted: the last place that
    /// a `usize` can name has none after it.
    pub open spec fn countable(self) -> bool {
        match self.index {
            Some(DropIndex::Below(i)) => i.0 < usize::MAX,
            _ => true,
        }
    }

    pub fn index(self) -> (r: Option<CharIndex>)
        requires
            self.countable(),
        ensures
            r == self.spec_index(),
    {
        match self.index {
            Some(DropIndex::Above(i)) => Some(i),
            Some(DropIndex::Below(i)) => Some(i.increment()),
            None => None,
        }
    }
}

/// A finished drag: move the character at `from` to `to`.
#[derive(Debug, Clone, Copy, PartialEq, Eq, Structural)]
pub struct DragOperation {
    pub from: DragLocation,
    pub to: DropLocation,
}

/// What is known of a drag while it goes on.
#[derive(Debug, Clone, Copy, PartialEq, Eq, Structural)]
pub struct DragHandlerInner {
    pub operation: Option<DragOperation>,
    pub dragged: Option<DragLocation>,
    pub hovered: Option<DropLocation>,
    pub drag_ongoing: bool,
}

impl DragHandlerInner {
    /// Nothing is dragged.
    pub open spec fn idle() -> DragHandlerInner {
        DragHandlerInner { operation: None, dragged: None, hovered: None, drag_ongoing: false }
    }

    /// Hands out the finished drag, if there is one, and forgets it.
    pub fn take_operation(&mut self) -> (r: Option<DragOperation>)
        ensures
            r == old(self).operation,
            *final(self) == (DragHandlerInner { operation: None, ..*old(self) }),
    {
        let operation = self.operation;
        self.operation = None;
        operation
    }

    /// Ends a frame: a drag that was seen in the frame stays for the next
    /// one; a drag that was not seen is forgotten.
    pub fn try_reset_ongoing_drag(&mut self)
        ensures
            *final(self) == if old(self).drag_ongoing {
                DragHandlerInner { drag_ongoing: false, ..*old(self) }
            } else {
                DragHandlerInner { dragged: None, hovered: None, ..*old(self) }
            },
    {
        if self.drag_ongoing {
            self.drag_ongoing = false;
            return ;
        }
        self.dragged = None;
        self.hovered = None;
    }

    /// A drop: what was dragged moves to what it hovered over, if both are
    /// known.
    pub fn set_operation(&mut self)
        ensures
            *final(self) == match (old(self).dragged, old(self).hovered) {
                (Some(from), Some(to)) => DragHandlerInner {
                    operation: Some(DragOperation { from, to }),
                    dragged: None,
                    hovered: None,
                    drag_ongoing: false,
                },
                (Some(_), None) => DragHandlerInner {
                    dragged: None,
                    drag_ongoing: false,
                    ..*old(self)
                },
                (None, _) => DragHandlerInner { drag_ongoing: false, ..*old(self) },
            },
    {
        self.drag_ongoing = false;
        let from = match self.dragged {
            Some(from) => from,
            None => { return ; },
        };
        self.dragged = None;
        let to = match self.hovered {
            Some(to) => to,
            None => { return ; },
        };
        self.hovered = None;
        self.operation = Some(DragOperation { from, to });
    }

    pub fn set_dragged(&mut self, dragged: DragLocation)
        ensures
            *final(self) == (DragHandlerInner {
                drag_ongoing: true,
                dragged: Some(dragged),
                ..*old(self)
            }),
    {
        self.drag_ongoing = true;
        self.dragged = Some(dragged);
    }

    pub fn set_hovered(&mut self, hovered: DropLocation)
        ensures
            *final(self) == (DragHandlerInner {
                drag_ongoing: true,
                hovered: Some(hovered),
                ..*old(self)
            }),
    {
        self.drag_ongoing = true;
        self.hovered = Some(hovered);
    }
}

/// Follows a drag from frame to frame.
#[derive(Debug, Clone, Copy, PartialEq, Eq, Structural)]
pub struct DragHandler {
    pub inner: DragHandlerInner,
}

impl DragHandler {
    pub fn new() -> (r: Self)
        ensures
            r.inner == DragHandlerInner::idle(),
    {
        DragHandler {
            inner: DragHandlerInner {
                operation: None,
                dragged: None,
                hovered: None,
                drag_ongoing: false,
            },
        }
    }

    /// Ends a frame and hands out the drag that was finished in it, if
    /// there is one.
    pub fn operation(&mut self) -> (r: Option<DragOperation>)
        ensures
            r == old(self).inner.operation,
            final(self).inner == if old(self).inner.drag_ongoing {
                DragHandlerInner { operation: None, drag_ongoing: false, ..old(self).inner }
            } else {
                DragHandlerInner { operation: None, dragged: None, hovered: None, ..old(self).inner }
            },
    {
        self.inner.try_reset_ongoing_drag();
        self.inner.take_operation()
    }

    /// The view of the drag from one group.
    pub fn create_context(&self, group: GroupId) -> (r: DragContext)
        ensures
            r.group == group,
    {
        DragContext::new(group)
    }
}

impl Default for DragHandler {
    fn default() -> (r: Self)
        ensures
            r.inner == DragHandlerInner::idle(),
    {
        DragHandler::new()
    }
}

/// The view of a drag from one group.
#[derive(Debug, Clone, Copy, PartialEq, Eq, Structural)]
pub struct DragContext {
    pub group: GroupId,
}

impl DragContext {
    pub fn new(group: GroupId) -> (r: Self)
        ensures
            r.group == group,
    {
        DragContext { group }
    }

    /// Which symbol marks the character at `location`, given what the
    /// handler knows.
    pub open spec fn symbol(handler: DragHandlerInner, location: DragLocation) -> Seq<char> {
        if handler.dragged == Some(location) {
            "O"@
        } else {
            match handler.hovered {
                Some(hovered) => if hovered.group == location.group {
                    match hovered.index {
                        Some(DropIndex::Above(i)) => if i == location.index {
                            "↗"@
                        } else {
                            "☰"@
                        },
                        Some(DropIndex::Below(i)) => if i == location.index {
                            "↘"@
                        } else {
                            "☰"@
                        },
                        None => "☰"@,
                    }
                } else {
                    "☰"@
                },
                None => "☰"@,
            }
        }
    }

    /// The symbol on the handle of the character at `location`: a ring on
    /// the one that is dragged, an arrow on the one that the drop would go
    /// above or below, bars on every other.
    pub fn drag_symbol(&self, handler: &DragHandler, location: DragLocation) -> (r: &'static str)
        ensures
            r@ == Self::symbol(handler.inner, location),
    {
        let inner = handler.inner;
        match inner.dragged {
            Some(dragged) => {
                if dragged.group == location.group && dragged.index.0 == location.index.0 {
                    return "O";
                }
            },
            None => {},
        }
        match inner.hovered {
            Some(hovered) => {
                if hovered.group == location.group {
                    match hovered.index {
                        Some(DropIndex::Above(i)) => {
                            if i.0 == location.index.0 {
                                return "↗";
                            }
                        },
                        Some(DropIndex::Below(i)) => {
                            if i.0 == location.index.0 {
                                return "↘";
                            }
                        },
                        None => {},
                    }
                }
            },
            None => {},
        }
        "☰"
    }

    /// The place of the character at `index` of this view's group.
    pub fn location(&self, index: CharIndex) -> (r: DragLocation)
        ensures
            r == (DragLocation { group: self.group, index }),
    {
        DragLocation { group: self.group, index }
    }
}

} // verus!
