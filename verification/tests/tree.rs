use glues::context::notebook::{screen, ContextState, NotebookContext};
use glues::context::Context;
use glues::data::{Directory, Note};
use glues::editing_normal_mode::VimState;
use glues::event::{Event, NotebookEvent};
use glues::glues::Glues;
use glues::state::{InnerState, NotebookState, VimVisualState};
use glues::transition::{EntryTransition, NormalModeTransition, NotebookTransition, Transition, VisualModeTransition};
use glues::tree::{Tree, TreeItem};

fn root() -> Directory {
    Directory { id: "root".to_string(), parent_id: None, name: "Notes".to_string() }
}

fn directory(id: &str, parent: &str) -> Directory {
    Directory { id: id.to_string(), parent_id: Some(parent.to_string()), name: id.to_uppercase() }
}

fn note(id: &str, directory: &str) -> Note {
    Note {
        id: id.to_string(),
        directory_id: directory.to_string(),
        name: id.to_uppercase(),
        content: format!("text of {id}\nsecond line"),
    }
}

fn closed(value: Directory, depth: usize) -> TreeItem {
    TreeItem::Directory { value, depth, opened: false }
}

fn open(value: Directory, depth: usize) -> TreeItem {
    TreeItem::Directory { value, depth, opened: true }
}

fn leaf(value: Note, depth: usize) -> TreeItem {
    TreeItem::Note { value, depth }
}

fn grown() -> Tree {
    let mut tree = Tree::new(root());
    assert!(tree.open(
        &"root".to_string(),
        &vec![note("r", "root")],
        &vec![directory("a", "root"), directory("b", "root")]
    ));
    assert!(tree.open(&"a".to_string(), &vec![note("x", "a"), note("y", "a")], &vec![directory("a1", "a")]));
    assert!(tree.open(&"a1".to_string(), &vec![note("z", "a1")], &Vec::new()));
    tree
}

#[test]
fn a_new_tree_is_its_root() {
    let tree = Tree::new(root());
    assert_eq!(tree.items, vec![closed(root(), 0)]);
    assert_eq!(tree.directory_position(&"root".to_string()), Some(0));
    assert_eq!(tree.position(&"root".to_string()), Some(0));
    assert_eq!(tree.directory(&"root".to_string()), Some(root()));
    assert_eq!(tree.directory(&"other".to_string()), None);
    assert_eq!(tree.position(&"other".to_string()), None);
    assert_eq!(tree.clone(), tree);
}

#[test]
fn opening_shows_directories_then_notes_one_level_deeper() {
    let tree = grown();
    assert_eq!(
        tree.items,
        vec![
            open(root(), 0),
            open(directory("a", "root"), 1),
            open(directory("a1", "a"), 2),
            leaf(note("z", "a1"), 3),
            leaf(note("x", "a"), 2),
            leaf(note("y", "a"), 2),
            closed(directory("b", "root"), 1),
            leaf(note("r", "root"), 1),
        ]
    );
    assert_eq!(tree.position(&"y".to_string()), Some(5));
    assert_eq!(tree.directory_position(&"y".to_string()), None);
    assert_eq!(tree.directory_position(&"b".to_string()), Some(6));
    assert_eq!(tree.directory(&"a1".to_string()), Some(directory("a1", "a")));
    assert_eq!(tree.items[3].level(), 3);
}

#[test]
fn opening_again_shows_the_children_anew() {
    let mut tree = grown();
    assert!(tree.open(&"a".to_string(), &vec![note("y", "a")], &Vec::new()));
    assert_eq!(
        tree.items,
        vec![
            open(root(), 0),
            open(directory("a", "root"), 1),
            leaf(note("y", "a"), 2),
            closed(directory("b", "root"), 1),
            leaf(note("r", "root"), 1),
        ]
    );
    assert!(tree.open(&"b".to_string(), &Vec::new(), &Vec::new()));
    assert_eq!(tree.items[3], open(directory("b", "root"), 1));
    assert_eq!(tree.items.len(), 5);
}

#[test]
fn closing_hides_all_that_lies_inside() {
    let mut tree = grown();
    assert!(tree.close(&"a".to_string()));
    assert_eq!(
        tree.items,
        vec![
            open(root(), 0),
            closed(directory("a", "root"), 1),
            closed(directory("b", "root"), 1),
            leaf(note("r", "root"), 1),
        ]
    );
    assert!(tree.close(&"b".to_string()));
    assert_eq!(tree.items.len(), 4);
    assert!(tree.close(&"root".to_string()));
    assert_eq!(tree.items, vec![closed(root(), 0)]);
}

#[test]
fn what_the_tree_does_not_show_cannot_be_opened_or_closed() {
    let mut tree = grown();
    let before = tree.clone();
    assert!(!tree.open(&"c".to_string(), &vec![note("n", "c")], &Vec::new()));
    assert!(!tree.close(&"c".to_string()));
    assert!(!tree.open(&"x".to_string(), &Vec::new(), &Vec::new()));
    assert!(!tree.close(&"x".to_string()));
    assert_eq!(tree, before);
}

#[test]
fn the_screen_goes_with_the_state() {
    for (state, expected) in [
        (InnerState::NoteSelected, ContextState::NoteTreeBrowsing),
        (InnerState::DirectorySelected, ContextState::NoteTreeBrowsing),
        (InnerState::NoteTreeNumber(4), ContextState::NoteTreeNumbering),
        (InnerState::NoteMoreActions, ContextState::NoteActionsDialog),
        (InnerState::DirectoryMoreActions, ContextState::DirectoryActionsDialog),
        (InnerState::EditingNormalMode(VimState::Idle), ContextState::EditorNormalMode { idle: true }),
        (
            InnerState::EditingNormalMode(VimState::Numbering(2)),
            ContextState::EditorNormalMode { idle: false },
        ),
        (InnerState::EditingVisualMode(VimVisualState::Idle), ContextState::EditorVisualMode),
        (InnerState::EditingVisualMode(VimVisualState::Numbering(1)), ContextState::EditorVisualMode),
        (InnerState::EditingInsertMode, ContextState::EditorInsertMode),
    ] {
        assert_eq!(screen(state), expected);
    }
}

#[test]
fn the_selection_moves_along_the_items() {
    let mut context = NotebookContext::new();
    assert_eq!(context.selected(), None);
    context.select_next(3);
    assert_eq!(context.selected, 0);
    context.update_items(&grown());
    assert_eq!(context.tree_items.len(), 8);
    assert_eq!(context.selected(), Some(open(root(), 0)));
    context.select_next(3);
    assert_eq!(context.selected(), Some(leaf(note("z", "a1"), 3)));
    context.select_next(0);
    assert_eq!(context.selected, 3);
    context.select_next(usize::MAX);
    assert_eq!(context.selected, 7);
    context.select_next(1);
    assert_eq!(context.selected, 7);
    context.select_prev(2);
    assert_eq!(context.selected, 5);
    context.select_prev(0);
    assert_eq!(context.selected, 5);
    context.select_prev(50);
    assert_eq!(context.selected, 0);
    context.select_item(&"b".to_string());
    assert_eq!(context.selected, 6);
    context.select_item(&"nowhere".to_string());
    assert_eq!(context.selected, 6);
    context.update_items(&Tree::new(root()));
    assert_eq!(context.selected, 0);
    assert_eq!(context.tree_items, vec![closed(root(), 0)]);
}

#[test]
fn opening_a_note_fills_the_editor() {
    let mut context = NotebookContext::new();
    context.editor.show_line_number = true;
    context.editor.line_yanked = true;
    context.editor.area.insert_char('x');
    context.open_note(note("n", "root"));
    assert_eq!(context.opened_note, Some(note("n", "root")));
    assert_eq!(context.editor.area.lines(), vec!["text of n", "second line"]);
    assert_eq!(context.editor.area.cursor(), (0, 0));
    assert!(context.editor.show_line_number);
    assert!(context.editor.line_yanked);
    context.editor.area.undo();
    assert_eq!(context.editor.area.lines(), vec!["text of n", "second line"]);
}

fn in_notebook(inner_state: InnerState) -> Glues {
    let mut state = NotebookState::new(root());
    state.root = grown();
    state.editing = Some(note("n", "root"));
    state.inner_state = inner_state;
    Glues { root: root(), state: glues::glues::State::Notebook(state) }
}

#[test]
fn transitions_of_the_tree_show_it_anew() {
    let glues = in_notebook(InnerState::DirectorySelected);
    let shown = |transition: NotebookTransition| {
        let mut context = Context::new();
        context.notebook.selected = 0;
        let follow = context.handle_transition(&glues, Transition::Notebook(transition), 0);
        assert_eq!(follow, None);
        assert_eq!(context.notebook.tree_items.len(), 8);
        assert_eq!(context.notebook.state, ContextState::NoteTreeBrowsing);
        context.notebook.selected
    };
    assert_eq!(
        shown(NotebookTransition::OpenDirectory {
            id: "a".to_string(),
            notes: Vec::new(),
            directories: Vec::new()
        }),
        0
    );
    assert_eq!(shown(NotebookTransition::CloseDirectory("b".to_string())), 6);
    assert_eq!(shown(NotebookTransition::RenameNote(note("x", "a"))), 0);
    assert_eq!(shown(NotebookTransition::RenameDirectory(directory("a", "root"))), 0);
    assert_eq!(shown(NotebookTransition::AddNote(note("y", "a"))), 5);
    assert_eq!(shown(NotebookTransition::AddDirectory(directory("a1", "a"))), 2);
    assert_eq!(
        shown(NotebookTransition::RemoveNote {
            note: note("gone", "a"),
            selected_directory: directory("a", "root")
        }),
        1
    );
    assert_eq!(
        shown(NotebookTransition::RemoveDirectory {
            directory: directory("gone", "root"),
            selected_directory: root()
        }),
        0
    );
}

#[test]
fn moving_the_selection_tells_the_notebook() {
    let glues = in_notebook(InnerState::DirectorySelected);
    let mut context = Context::new();
    context.handle_transition(&glues, Transition::Entry(EntryTransition::OpenNotebook), 0);
    assert_eq!(context.state, glues::context::ContextState::Notebook);
    assert_eq!(context.notebook.tree_items.len(), 8);
    assert_eq!(
        context.handle_transition(&glues, Transition::Notebook(NotebookTransition::SelectNext(4)), 0),
        Some(Event::Notebook(NotebookEvent::SelectNote(note("x", "a"))))
    );
    assert_eq!(context.notebook.selected, 4);
    assert_eq!(
        context.handle_transition(&glues, Transition::Notebook(NotebookTransition::SelectPrev(3)), 0),
        Some(Event::Notebook(NotebookEvent::SelectDirectory(directory("a", "root"))))
    );
    assert_eq!(context.notebook.selected, 1);
    assert_eq!(
        context.handle_transition(&glues, Transition::Notebook(NotebookTransition::SelectNext(99)), 0),
        Some(Event::Notebook(NotebookEvent::SelectNote(note("r", "root"))))
    );
    let mut empty = Context::new();
    assert_eq!(
        empty.handle_notebook_transition(
            &NotebookState::new(root()),
            NotebookTransition::SelectNext(1)
        ),
        None
    );
}

#[test]
fn transitions_of_the_editor_reach_the_editor() {
    let glues = in_notebook(InnerState::EditingNormalMode(VimState::Numbering(3)));
    let mut context = Context::new();
    assert_eq!(
        context.handle_transition(
            &glues,
            Transition::Notebook(NotebookTransition::OpenNote(note("n", "root"))),
            0
        ),
        None
    );
    assert_eq!(context.notebook.state, ContextState::EditorNormalMode { idle: false });
    context.handle_transition(
        &glues,
        Transition::Notebook(NotebookTransition::EditingNormalMode(NormalModeTransition::MoveCursorWordEnd(2))),
        0,
    );
    assert_eq!(context.notebook.editor.area.cursor(), (0, 6));
    context.handle_transition(
        &glues,
        Transition::Notebook(NotebookTransition::EditingVisualMode(VisualModeTransition::IdleMode)),
        0,
    );
    context.handle_transition(
        &glues,
        Transition::Notebook(NotebookTransition::EditingVisualMode(VisualModeTransition::MoveCursorDown(1))),
        0,
    );
    assert_eq!(context.notebook.editor.area.selection_range(), Some(((0, 6), (1, 6))));
    context.handle_transition(
        &glues,
        Transition::Notebook(NotebookTransition::EditingVisualMode(VisualModeTransition::DeleteSelection)),
        0,
    );
    assert_eq!(context.notebook.editor.area.lines(), vec!["text oline"]);
    let follow = context.handle_transition(
        &glues,
        Transition::Notebook(NotebookTransition::ViewMode(note("n", "root"))),
        0,
    );
    assert_eq!(
        follow,
        Some(Event::Notebook(NotebookEvent::UpdateNoteContent("text oline".to_string())))
    );
    assert_eq!(context.save(), Event::Notebook(NotebookEvent::UpdateNoteContent("text oline".to_string())));
    for transition in [
        NotebookTransition::Nothing,
        NotebookTransition::BrowseNoteTree,
        NotebookTransition::ShowNoteActionsDialog,
        NotebookTransition::ShowDirectoryActionsDialog,
        NotebookTransition::UpdateNoteContent(note("n", "root")),
        NotebookTransition::Inedible(Event::Notebook(NotebookEvent::EditNote)),
    ] {
        assert_eq!(context.handle_transition(&glues, Transition::Notebook(transition), 0), None);
        assert_eq!(context.notebook.editor.area.lines(), vec!["text oline"]);
        assert_eq!(context.alert, None);
    }
    for transition in [EntryTransition::Nothing, EntryTransition::Inedible(Event::Notebook(NotebookEvent::EditNote))] {
        context.handle_entry_transition(&glues, transition);
        assert_eq!(context.state, glues::context::ContextState::Entry);
    }
}

#[test]
fn characters_are_typed_in_insert_mode_only() {
    let mut context = NotebookContext::new();
    assert!(!context.type_char('x'));
    assert_eq!(context.editor.area.lines(), vec![""]);
    context.state = ContextState::EditorInsertMode;
    for c in "hi\n!".chars() {
        assert!(context.type_char(c));
    }
    assert_eq!(context.editor.area.lines(), vec!["hi", "!"]);
    context.state = ContextState::EditorVisualMode;
    assert!(!context.type_char('x'));
    assert_eq!(context.editor.area.lines(), vec!["hi", "!"]);
}

#[test]
fn typing_characters() {
    let mut context = NotebookContext::new();
    for c in "ab\ncd".chars() {
        context.editor.area.insert_char(c);
    }
    assert_eq!(context.editor.area.lines(), vec!["ab", "cd"]);
    assert_eq!(context.editor.area.cursor(), (1, 2));
    context.editor.area.insert_char('\r');
    assert_eq!(context.editor.area.lines(), vec!["ab", "cd", ""]);
    context.editor.area.start_selection();
    context.editor.area.move_cursor(glues::step::CursorMove::Top);
    context.editor.area.insert_char('x');
    assert_eq!(context.editor.area.lines(), vec!["x"]);
    assert_eq!(context.editor.area.cursor(), (0, 1));
    context.editor.area.undo();
    context.editor.area.undo();
    assert_eq!(context.editor.area.lines(), vec!["ab", "cd", ""]);
}
