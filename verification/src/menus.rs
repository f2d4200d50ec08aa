//! The sort menu and the filter editor of the Songs, Albums and Artists views.
use vstd::prelude::*;

use crate::collections::{sort_fields, spec_sort_fields};
use crate::state::{AppState, CollectionKind, CollectionSort, FilterEditorState, SortMenuState};
use crate::text::{clear_text, pop_char, push_char};
use crate::views::{
    active_collection, collection_view, rebuild_collection_view, rebuilt, set_filter, set_order,
    spec_active_collection, view_of, with_filter, with_order,
};

verus! {

/// The notice shown when sorting is asked for outside the library collections.
pub open spec fn sorting_unavailable() -> Seq<char> {
    "Sorting is available in Songs, Albums, and Artists"@
}

/// The notice shown when filtering is asked for outside the library collections.
pub open spec fn filtering_unavailable() -> Seq<char> {
    "Filtering is available in Songs, Albums, and Artists"@
}

/// The menu position of `sort` among `fields`: its first occurrence, or 0.
pub open spec fn menu_position(fields: Seq<CollectionSort>, sort: CollectionSort) -> nat
    decreases fields.len(),
{
    if fields.len() == 0 {
        0
    } else if fields.last() == sort && !fields.drop_last().contains(sort) {
        (fields.len() - 1) as nat
    } else {
        menu_position(fields.drop_last(), sort)
    }
}

fn position_in(fields: &Vec<CollectionSort>, sort: CollectionSort) -> (r: usize)
    ensures
        r == menu_position(fields@, sort),
{
    let mut i: usize = 0;
    while i < fields.len()
        invariant
            i <= fields@.len(),
            forall|j: int| 0 <= j < i ==> fields@[j] != sort,
        decreases fields.len() - i,
    {
        if fields[i] == sort {
            proof {
                lemma_menu_position_first(fields@, sort, i as int);
            }
            return i;
        }
        i = i + 1;
    }
    proof {
        lemma_menu_position_absent(fields@, sort);
    }
    0
}

proof fn lemma_menu_position_first(fields: Seq<CollectionSort>, sort: CollectionSort, i: int)
    requires
        0 <= i < fields.len(),
        fields[i] == sort,
        forall|j: int| 0 <= j < i ==> fields[j] != sort,
    ensures
        menu_position(fields, sort) == i,
    decreases fields.len(),
{
    let init = fields.drop_last();
    if i == fields.len() - 1 {
        assert(!init.contains(sort)) by {
            if init.contains(sort) {
                let j = choose|j: int| 0 <= j < init.len() && init[j] == sort;
                assert(fields[j] == sort);
            }
        }
    } else {
        assert(init.contains(sort)) by {
            assert(init[i] == sort);
        }
        lemma_menu_position_first(init, sort, i);
    }
}

proof fn lemma_menu_position_absent(fields: Seq<CollectionSort>, sort: CollectionSort)
    requires
        forall|j: int| 0 <= j < fields.len() ==> fields[j] != sort,
    ensures
        menu_position(fields, sort) == 0,
    decreases fields.len(),
{
    if fields.len() > 0 {
        lemma_menu_position_absent(fields.drop_last(), sort);
    }
}

/// `new` is `old` after asking for the sort menu.
pub open spec fn sort_opened(old: AppState, new: AppState) -> bool {
    match spec_active_collection(old.navigation.active) {
        None => new == (AppState {
            notification: Some(new.notification.unwrap()),
            ..old
        }) && new.notification.unwrap()@ == sorting_unavailable(),
        Some(c) => new == (AppState {
            sort_menu: Some(SortMenuState {
                collection: c,
                selection: menu_position(spec_sort_fields(c), view_of(old.library_views, c).sort) as usize,
            }),
            ..old
        }),
    }
}

/// Opens the sort menu of the collection on screen at its current sort field; outside the
/// library collections it only tells the user so.
pub fn open_collection_sort(state: &mut AppState)
    ensures
        sort_opened(*old(state), *final(state)),
{
    match active_collection(state) {
        None => {
            state.notification = Some("Sorting is available in Songs, Albums, and Artists".to_owned());
        },
        Some(collection) => {
            let fields = sort_fields(collection);
            let selection = position_in(&fields, collection_view(state, collection).sort);
            state.sort_menu = Some(SortMenuState { collection, selection });
        },
    }
}

/// The sort menu selection after moving one step, kept on the menu.
pub open spec fn moved_menu_selection(selection: usize, length: nat, down: bool) -> usize {
    if down {
        if selection + 1 <= length - 1 {
            (selection + 1) as usize
        } else if length > 0 {
            (length - 1) as usize
        } else {
            0
        }
    } else if selection > 0 {
        (selection - 1) as usize
    } else {
        0
    }
}

/// `new` is `old` after moving the sort menu selection.
pub open spec fn sort_moved(old: AppState, new: AppState, down: bool) -> bool {
    match old.sort_menu {
        None => new == old,
        Some(menu) => new == (AppState {
            sort_menu: Some(SortMenuState {
                selection: moved_menu_selection(menu.selection, spec_sort_fields(menu.collection).len(), down),
                ..menu
            }),
            ..old
        }),
    }
}

/// Moves the sort menu selection one field down or up, staying on the menu.
pub fn move_sort_menu_selection(state: &mut AppState, down: bool)
    ensures
        sort_moved(*old(state), *final(state), down),
{
    match &mut state.sort_menu {
        None => {},
        Some(menu) => {
            let length = sort_fields(menu.collection).len();
            if down {
                if length > 0 && menu.selection < length - 1 {
                    menu.selection = menu.selection + 1;
                } else if length > 0 {
                    menu.selection = length - 1;
                } else {
                    menu.selection = 0;
                }
            } else if menu.selection > 0 {
                menu.selection = menu.selection - 1;
            }
        },
    }
}

/// `new` is `old` after choosing the sort field under the menu selection.
pub open spec fn sort_chosen(old: AppState, new: AppState) -> bool {
    match old.sort_menu {
        None => new == old,
        Some(menu) => {
            let fields = spec_sort_fields(menu.collection);
            let closed = AppState { sort_menu: None, ..old };
            if menu.selection < fields.len() {
                let field = fields[menu.selection as int];
                let v = view_of(old.library_views, menu.collection);
                let mid = if v.sort == field {
                    with_order(closed, menu.collection, v.sort, !v.descending)
                } else {
                    with_order(closed, menu.collection, field, false)
                };
                rebuilt(mid, new, menu.collection)
            } else {
                new == closed
            }
        },
    }
}

/// Applies the sort field under the menu selection and closes the menu: choosing the
/// current field flips the direction, another field sorts ascending by it.
pub fn choose_sort_field(state: &mut AppState)
    ensures
        sort_chosen(*old(state), *final(state)),
{
    let menu = match state.sort_menu.take() {
        None => return,
        Some(menu) => menu,
    };
    let fields = sort_fields(menu.collection);
    if menu.selection >= fields.len() {
        return;
    }
    let field = fields[menu.selection];
    let view = collection_view(state, menu.collection);
    if view.sort == field {
        let descending = !view.descending;
        set_order(state, menu.collection, field, descending);
    } else {
        set_order(state, menu.collection, field, false);
    }
    rebuild_collection_view(state, menu.collection);
}

/// `new` is `old` after flipping the direction from the sort menu.
pub open spec fn menu_direction_toggled(old: AppState, new: AppState) -> bool {
    match old.sort_menu {
        None => new == old,
        Some(menu) => {
            let v = view_of(old.library_views, menu.collection);
            rebuilt(with_order(old, menu.collection, v.sort, !v.descending), new, menu.collection)
        },
    }
}

/// Flips the direction of the collection whose sort menu is open, keeping the menu.
pub fn toggle_collection_sort_direction(state: &mut AppState)
    ensures
        menu_direction_toggled(*old(state), *final(state)),
{
    let collection = match &state.sort_menu {
        None => return,
        Some(menu) => menu.collection,
    };
    let view = collection_view(state, collection);
    let sort = view.sort;
    let descending = !view.descending;
    set_order(state, collection, sort, descending);
    rebuild_collection_view(state, collection);
}

/// `new` is `old` after flipping the direction of the collection on screen.
pub open spec fn direction_toggled(old: AppState, new: AppState) -> bool {
    match spec_active_collection(old.navigation.active) {
        None => new == old,
        Some(c) => {
            let v = view_of(old.library_views, c);
            rebuilt(with_order(old, c, v.sort, !v.descending), new, c)
        },
    }
}

/// Flips the sort direction of the collection on screen.
pub fn toggle_current_collection_sort_direction(state: &mut AppState)
    ensures
        direction_toggled(*old(state), *final(state)),
{
    let collection = match active_collection(state) {
        None => return,
        Some(c) => c,
    };
    let view = collection_view(state, collection);
    let sort = view.sort;
    let descending = !view.descending;
    set_order(state, collection, sort, descending);
    rebuild_collection_view(state, collection);
}

/// `new` is `old` after asking to edit the filter.
pub open spec fn filter_started(old: AppState, new: AppState) -> bool {
    match spec_active_collection(old.navigation.active) {
        None => new == (AppState {
            notification: Some(new.notification.unwrap()),
            ..old
        }) && new.notification.unwrap()@ == filtering_unavailable(),
        Some(c) => {
            let filter = view_of(old.library_views, c).filter;
            new == (AppState {
                filter_editor: Some(FilterEditorState { collection: c, original: filter, draft: filter }),
                ..old
            })
        },
    }
}

/// Opens the filter editor on the collection on screen, with its committed filter as both
/// the draft and the text to restore on cancel; outside the library collections it only
/// tells the user so.
pub fn start_collection_filter(state: &mut AppState)
    ensures
        filter_started(*old(state), *final(state)),
{
    match active_collection(state) {
        None => {
            state.notification = Some("Filtering is available in Songs, Albums, and Artists".to_owned());
        },
        Some(collection) => {
            let current = collection_view(state, collection).filter.clone();
            state.filter_editor = Some(FilterEditorState {
                collection,
                original: current.clone(),
                draft: current,
            });
        },
    }
}

/// An edit of the filter draft.
#[derive(Clone, Copy, Debug, PartialEq, Eq, Structural)]
pub enum DraftEdit {
    Push(char),
    Pop,
    Clear,
}

/// The draft after an edit.
pub open spec fn edited(draft: Seq<char>, edit: DraftEdit) -> Seq<char> {
    match edit {
        DraftEdit::Push(c) => draft.push(c),
        DraftEdit::Pop => if draft.len() > 0 {
            draft.drop_last()
        } else {
            draft
        },
        DraftEdit::Clear => Seq::empty(),
    }
}

/// `new` is `old` after editing the filter draft.
pub open spec fn draft_edited(old: AppState, new: AppState, edit: DraftEdit) -> bool {
    match old.filter_editor {
        None => new == old,
        Some(editor) => {
            let now = new.filter_editor;
            &&& now == Some(FilterEditorState { draft: now.unwrap().draft, ..editor })
            &&& now.unwrap().draft@ == edited(editor.draft@, edit)
            &&& rebuilt(AppState { filter_editor: now, ..old }, new, editor.collection)
        },
    }
}

/// Edits the filter draft and presents the collection filtered by the new draft.
pub fn update_collection_filter_draft(state: &mut AppState, edit: DraftEdit)
    ensures
        draft_edited(*old(state), *final(state), edit),
{
    let collection = match &mut state.filter_editor {
        None => return,
        Some(editor) => {
            match edit {
                DraftEdit::Push(c) => push_char(&mut editor.draft, c),
                DraftEdit::Pop => {
                    pop_char(&mut editor.draft);
                },
                DraftEdit::Clear => clear_text(&mut editor.draft),
            }
            editor.collection
        },
    };
    rebuild_collection_view(state, collection);
}

/// `new` is `old` after committing the filter draft.
pub open spec fn filter_committed(old: AppState, new: AppState) -> bool {
    match old.filter_editor {
        None => new == old,
        Some(editor) => rebuilt(
            with_filter(AppState { filter_editor: None, ..old }, editor.collection, editor.draft),
            new,
            editor.collection,
        ),
    }
}

/// Commits the draft as the collection's filter, closing the editor.
pub fn commit_collection_filter(state: &mut AppState)
    ensures
        filter_committed(*old(state), *final(state)),
{
    let editor = match state.filter_editor.take() {
        None => return,
        Some(editor) => editor,
    };
    let collection = editor.collection;
    set_filter(state, collection, editor.draft);
    rebuild_collection_view(state, collection);
}

/// `new` is `old` after cancelling the filter editor.
pub open spec fn filter_cancelled(old: AppState, new: AppState) -> bool {
    match old.filter_editor {
        None => new == old,
        Some(editor) => rebuilt(
            with_filter(AppState { filter_editor: None, ..old }, editor.collection, editor.original),
            new,
            editor.collection,
        ),
    }
}

/// Restores the filter the editor was opened with, closing the editor.
pub fn cancel_collection_filter(state: &mut AppState)
    ensures
        filter_cancelled(*old(state), *final(state)),
{
    let editor = match state.filter_editor.take() {
        None => return,
        Some(editor) => editor,
    };
    let collection = editor.collection;
    set_filter(state, collection, editor.original);
    rebuild_collection_view(state, collection);
}

/// `new` is `old` after clearing the filter of the collection on screen.
pub open spec fn filter_cleared(old: AppState, new: AppState) -> bool {
    match spec_active_collection(old.navigation.active) {
        None => new == old,
        Some(c) => {
            let empty = view_of(new.library_views, c).filter;
            empty@.len() == 0 && rebuilt(with_filter(old, c, empty), new, c)
        },
    }
}

/// Clears the committed filter of the collection on screen.
pub fn clear_current_collection_filter(state: &mut AppState)
    ensures
        filter_cleared(*old(state), *final(state)),
{
    let collection = match active_collection(state) {
        None => return,
        Some(c) => c,
    };
    set_filter(state, collection, String::new());
    rebuild_collection_view(state, collection);
}

/// `new` is `old` with the Songs, Albums and Artists views rebuilt in turn.
pub open spec fn views_rebuilt(old: AppState, new: AppState) -> bool {
    exists|a: AppState, b: AppState|
        #![trigger rebuilt(old, a, CollectionKind::Songs), rebuilt(a, b, CollectionKind::Albums)]
        rebuilt(old, a, CollectionKind::Songs) && rebuilt(a, b, CollectionKind::Albums) && rebuilt(
            b,
            new,
            CollectionKind::Artists,
        )
}

/// Rebuilds the Songs, Albums and Artists views in turn.
pub fn rebuild_library_views(state: &mut AppState)
    ensures
        views_rebuilt(*old(state), *final(state)),
{
    rebuild_collection_view(state, CollectionKind::Songs);
    let ghost a = *state;
    rebuild_collection_view(state, CollectionKind::Albums);
    let ghost b = *state;
    rebuild_collection_view(state, CollectionKind::Artists);
    assert(rebuilt(*old(state), a, CollectionKind::Songs) && rebuilt(a, b, CollectionKind::Albums)
        && rebuilt(b, *state, CollectionKind::Artists));
}

} // verus!
