use fightsim::character::Character;
use fightsim::character::Name;
use fightsim::dnd::DragContext;
use fightsim::dnd::DragHandler;
use fightsim::dnd::DragHandlerInner;
use fightsim::dnd::DragLocation;
use fightsim::dnd::DragOperation;
use fightsim::dnd::DropIndex;
use fightsim::dnd::DropLocation;
use fightsim::dnd::RelMousePos;
use fightsim::editor::Editor;
use fightsim::editor::IoResponse;
use fightsim::group::CharIndex;
use fightsim::group::Group;
use fightsim::group::GroupAction;
use fightsim::selection::CharSelection;
use fightsim::selection::GroupId;

fn named(name: &str) -> Character {
    let mut character = Character::default();
    character.name = Name::new(name);
    character
}

fn names(group: &Group) -> Vec<String> {
    (0..group.len())
        .map(|i| group.get_char(CharIndex(i)).unwrap().name.as_str().to_owned())
        .collect()
}

fn editor(left: &[&str], right: &[&str]) -> Editor {
    let mut editor = Editor::new();
    for name in left {
        editor.take_in(IoResponse::CharLoaded(GroupId::Left, named(name)));
    }
    for name in right {
        editor.take_in(IoResponse::CharLoaded(GroupId::Right, named(name)));
    }
    editor
}

fn drag(from: (GroupId, usize), to: (GroupId, Option<DropIndex>)) -> DragOperation {
    DragOperation {
        from: DragLocation { group: from.0, index: CharIndex(from.1) },
        to: DropLocation { group: to.0, index: to.1 },
    }
}

#[test]
fn char_index_steps() {
    let index = CharIndex::default();
    assert_eq!(index.into_usize(), 0);
    assert_eq!(index.increment(), CharIndex::from_usize(1));
    assert_eq!(CharIndex(5).decrement(), CharIndex(4));
    assert!(CharIndex(2) < CharIndex(3));
}

#[test]
fn groups_keep_their_order() {
    let mut group = Group::default();
    group.add_char(named("a"));
    group.add_char(named("c"));
    group.insert_char(CharIndex(1), named("b"));
    assert_eq!(names(&group), ["a", "b", "c"]);
    assert_eq!(group.take_char(CharIndex(0)).name.as_str(), "a");
    assert_eq!(names(&group), ["b", "c"]);
    group.delete_char(CharIndex(1));
    assert_eq!(names(&group), ["b"]);
    group.get_char_mut(CharIndex(0)).unwrap().name = Name::new("z");
    assert!(group.get_char_mut(CharIndex(1)).is_none());
    assert!(group.get_char(CharIndex(1)).is_none());
    group.add_char(named("y"));
    let all = group.into_vec();
    assert_eq!(all.len(), 2);
    assert_eq!(all[0].name.as_str(), "z");
    let mut group = Group::new();
    group.add_char(named("x"));
    group.clear();
    assert_eq!(group.len(), 0);
}

#[test]
fn selections_name_a_group_and_a_place() {
    let mut selection = CharSelection::new(GroupId::Right, CharIndex(2));
    assert_eq!(selection, CharSelection::Right(CharIndex(2)));
    assert_eq!(selection.group_id(), GroupId::Right);
    assert_eq!(selection.char_index(), CharIndex(2));
    selection.increment_index();
    assert_eq!(selection, CharSelection::Right(CharIndex(3)));
    selection.decrement_index();
    selection.decrement_index();
    assert_eq!(selection, CharSelection::Right(CharIndex(1)));
    assert_eq!(
        CharSelection::new(GroupId::Left, CharIndex(0)),
        CharSelection::Left(CharIndex(0))
    );
}

#[test]
fn selections_follow_a_move() {
    let moved = |selection: CharSelection, from: (GroupId, usize), to: (GroupId, usize)| {
        let mut selection = selection;
        selection.adjust_selection_after_dnd(from.0, to.0, CharIndex(from.1), CharIndex(to.1));
        selection
    };
    let left = |i| CharSelection::Left(CharIndex(i));
    let right = |i| CharSelection::Right(CharIndex(i));
    // the selected character moves
    assert_eq!(moved(left(1), (GroupId::Left, 1), (GroupId::Right, 0)), right(0));
    assert_eq!(moved(left(1), (GroupId::Left, 1), (GroupId::Left, 3)), left(3));
    // one before it leaves
    assert_eq!(moved(left(2), (GroupId::Left, 0), (GroupId::Right, 0)), left(1));
    // one arrives before it
    assert_eq!(moved(left(2), (GroupId::Right, 0), (GroupId::Left, 2)), left(3));
    assert_eq!(moved(left(2), (GroupId::Right, 0), (GroupId::Left, 3)), left(2));
    // one moves past it
    assert_eq!(moved(left(2), (GroupId::Left, 0), (GroupId::Left, 4)), left(1));
    assert_eq!(moved(left(2), (GroupId::Left, 4), (GroupId::Left, 0)), left(3));
    // one moves before it
    assert_eq!(moved(left(2), (GroupId::Left, 0), (GroupId::Left, 1)), left(2));
    // the other group does not matter
    assert_eq!(moved(left(2), (GroupId::Right, 0), (GroupId::Right, 3)), left(2));
}

#[test]
fn drop_locations() {
    let above = DropLocation::new(GroupId::Left, Some(CharIndex(2)), RelMousePos::Above);
    let below = DropLocation::new(GroupId::Left, Some(CharIndex(2)), RelMousePos::Below);
    let empty = DropLocation::new(GroupId::Right, None, RelMousePos::Below);
    assert_eq!(above.index, Some(DropIndex::Above(CharIndex(2))));
    assert_eq!(above.index(), Some(CharIndex(2)));
    assert_eq!(below.index(), Some(CharIndex(3)));
    assert_eq!(empty.index(), None);
    assert_eq!(empty.group, GroupId::Right);
    assert_eq!(DropIndex::new(CharIndex(1), RelMousePos::Below), DropIndex::Below(CharIndex(1)));
}

#[test]
fn a_drag_from_frame_to_frame() {
    let mut handler = DragHandler::default();
    assert_eq!(handler.operation(), None);
    let context = handler.create_context(GroupId::Left);
    let from = context.location(CharIndex(0));
    let to = DropLocation::new(GroupId::Right, Some(CharIndex(1)), RelMousePos::Below);
    assert_eq!(context.drag_symbol(&handler, from), "☰");

    handler.inner.set_dragged(from);
    assert_eq!(context.drag_symbol(&handler, from), "O");
    assert_eq!(handler.operation(), None);
    // the drag was seen in the frame: it goes on
    assert_eq!(handler.inner.dragged, Some(from));
    handler.inner.set_hovered(to);
    let other = DragContext::new(GroupId::Right);
    assert_eq!(other.drag_symbol(&handler, other.location(CharIndex(1))), "↘");
    assert_eq!(other.drag_symbol(&handler, other.location(CharIndex(0))), "☰");
    assert_eq!(context.drag_symbol(&handler, context.location(CharIndex(1))), "☰");
    handler.inner.set_hovered(DropLocation::new(
        GroupId::Right,
        Some(CharIndex(0)),
        RelMousePos::Above,
    ));
    assert_eq!(other.drag_symbol(&handler, other.location(CharIndex(0))), "↗");
    handler.inner.set_hovered(to);

    handler.inner.set_operation();
    assert_eq!(handler.operation(), Some(DragOperation { from, to }));
    assert_eq!(handler.operation(), None);
    assert_eq!(handler, DragHandler::new());

    // a drag that is not seen for a frame is forgotten
    handler.inner.set_dragged(from);
    handler.operation();
    handler.operation();
    assert_eq!(handler.inner.dragged, None);
    // a drop without a place does nothing
    handler.inner.set_dragged(from);
    handler.inner.set_operation();
    assert_eq!(handler.inner, DragHandlerInner {
        operation: None,
        dragged: None,
        hovered: None,
        drag_ongoing: false,
    });
    assert_eq!(handler.inner.take_operation(), None);
    handler.inner.try_reset_ongoing_drag();
}

#[test]
fn characters_move_as_they_are_dragged() {
    let above = |i| Some(DropIndex::Above(CharIndex(i)));
    let below = |i| Some(DropIndex::Below(CharIndex(i)));

    // down within a group
    let mut editor = editor(&["a", "b", "c", "d"], &["x"]);
    editor.selection = Some(CharSelection::Left(CharIndex(0)));
    editor.handle_dnd(drag((GroupId::Left, 0), (GroupId::Left, below(2))));
    assert_eq!(names(&editor.chars_left), ["b", "c", "a", "d"]);
    assert_eq!(editor.selection, Some(CharSelection::Left(CharIndex(2))));
    assert_eq!(editor.selected_char().unwrap().name.as_str(), "a");

    // up within a group
    editor.handle_dnd(drag((GroupId::Left, 3), (GroupId::Left, above(0))));
    assert_eq!(names(&editor.chars_left), ["d", "b", "c", "a"]);
    assert_eq!(editor.selection, Some(CharSelection::Left(CharIndex(3))));

    // onto its own place
    editor.handle_dnd(drag((GroupId::Left, 1), (GroupId::Left, above(1))));
    assert_eq!(names(&editor.chars_left), ["d", "b", "c", "a"]);
    editor.handle_dnd(drag((GroupId::Left, 1), (GroupId::Left, below(0))));
    assert_eq!(names(&editor.chars_left), ["d", "b", "c", "a"]);

    // to the other group
    editor.handle_dnd(drag((GroupId::Left, 3), (GroupId::Right, below(0))));
    assert_eq!(names(&editor.chars_left), ["d", "b", "c"]);
    assert_eq!(names(&editor.chars_right), ["x", "a"]);
    assert_eq!(editor.selection, Some(CharSelection::Right(CharIndex(1))));
    editor.handle_dnd(drag((GroupId::Left, 0), (GroupId::Right, above(0))));
    assert_eq!(names(&editor.chars_right), ["d", "x", "a"]);
    assert_eq!(editor.selected_char().unwrap().name.as_str(), "a");

    // into an empty group
    let mut editor = self::editor(&["a"], &[]);
    editor.handle_dnd(drag((GroupId::Left, 0), (GroupId::Right, None)));
    assert_eq!(names(&editor.chars_right), ["a"]);
    assert_eq!(editor.chars_left.len(), 0);
    assert_eq!(editor.selection, None);
    assert!(editor.selected_char().is_none());
}

#[test]
fn the_selection_follows_what_is_done_to_a_group() {
    let mut editor = Editor::default();
    editor.selection = Some(CharSelection::Left(CharIndex(2)));
    editor.adjust_selection_index(GroupId::Right, GroupAction::Clear);
    editor.adjust_selection_index(GroupId::Left, GroupAction::New);
    editor.adjust_selection_index(GroupId::Left, GroupAction::Load);
    editor.adjust_selection_index(GroupId::Left, GroupAction::Select(CharIndex(0)));
    editor.adjust_selection_index(GroupId::Left, GroupAction::Delete(CharIndex(3)));
    assert_eq!(editor.selection, Some(CharSelection::Left(CharIndex(2))));
    editor.adjust_selection_index(GroupId::Left, GroupAction::Delete(CharIndex(0)));
    assert_eq!(editor.selection, Some(CharSelection::Left(CharIndex(1))));
    editor.adjust_selection_index(GroupId::Right, GroupAction::Delete(CharIndex(1)));
    assert_eq!(editor.selection, Some(CharSelection::Left(CharIndex(1))));
    editor.adjust_selection_index(GroupId::Left, GroupAction::Delete(CharIndex(1)));
    assert_eq!(editor.selection, None);
    editor.selection = Some(CharSelection::Right(CharIndex(0)));
    editor.adjust_selection_index(GroupId::Right, GroupAction::Clear);
    assert_eq!(editor.selection, None);
}
