use glues::editor::Editor;
use glues::motion::jump_to;
use glues::step::CursorMove;
use glues::textarea::Area;
use glues::transition::{NormalModeTransition, VisualModeTransition};

fn editor_at(content: &str, row: usize, col: usize) -> Editor {
    let mut editor = Editor::open(content);
    jump_to(&mut editor.area, row, col);
    assert_eq!(editor.area.cursor(), (row, col));
    editor
}

fn lines(editor: &Editor) -> Vec<String> {
    editor.area.lines()
}

#[test]
fn opening_splits_the_content_into_lines() {
    let area = Area::open("one\ntwo\r\n\nfour\n");
    assert_eq!(area.lines(), vec!["one", "two", "", "four"]);
    assert_eq!(area.line_count(), 4);
    assert_eq!(area.line(1), Some("two".to_string()));
    assert_eq!(area.line(4), None);
    assert_eq!(area.line_len(0), 3);
    assert_eq!(area.line_len(2), 0);
    assert_eq!(Area::open("ünï—日本").line_len(0), 6);
    assert_eq!(area.cursor(), (0, 0));
    assert_eq!(area.selection_range(), None);
    assert_eq!(area.yank_text(), "");
    assert_eq!(area.content(), "one\ntwo\n\nfour");
    let empty = Area::open("");
    assert_eq!(empty.lines(), vec![""]);
    assert_eq!(empty.content(), "");
    assert_eq!(Area::open("\n").lines(), vec![""]);
    assert_eq!(Area::open("\n\n").lines(), vec!["", ""]);
    assert_eq!(Area::open("a\r").lines(), vec!["a\r"]);
    assert_eq!(Area::open("a\rb\r\n\r\nc\r\r\n").lines(), vec!["a\rb", "", "c\r"]);
    assert_eq!(Area::open("\r\n\r").lines(), vec!["", "\r"]);
}

#[test]
fn delete_chars_cuts_along_the_line() {
    let mut editor = editor_at("hello world", 0, 0);
    editor.handle_normal_mode_transition(NormalModeTransition::DeleteChars(3));
    assert_eq!(lines(&editor), vec!["lo world"]);
    assert_eq!(editor.area.yank_text(), "hel");
    assert_eq!(editor.area.cursor(), (0, 0));
    assert_eq!(editor.area.selection_range(), None);
    editor.handle_normal_mode_transition(NormalModeTransition::DeleteChars(100));
    assert_eq!(lines(&editor), vec![""]);
    assert_eq!(editor.area.yank_text(), "lo world");
}

#[test]
fn a_count_of_zero_stands_for_one() {
    let mut editor = editor_at("hello\nworld\nagain", 0, 1);
    editor.handle_normal_mode_transition(NormalModeTransition::DeleteChars(0));
    assert_eq!(lines(&editor), vec!["hllo", "world", "again"]);
    editor.handle_normal_mode_transition(NormalModeTransition::YankLines(0));
    assert_eq!(editor.area.yank_text(), "hllo");
    editor.handle_normal_mode_transition(NormalModeTransition::DeleteLines(0));
    assert_eq!(lines(&editor), vec!["world", "again"]);
    editor.handle_normal_mode_transition(NormalModeTransition::DeleteWordEnd(0));
    assert_eq!(lines(&editor), vec!["", "again"]);
    editor.handle_normal_mode_transition(NormalModeTransition::DeleteLineEnd(0));
    assert_eq!(lines(&editor), vec!["", "again"]);
    editor.handle_normal_mode_transition(NormalModeTransition::DeleteLinesAndInsert(0));
    assert_eq!(lines(&editor), vec!["", "again"]);
}

#[test]
fn yanked_lines_are_pasted_below_the_cursor_line() {
    let mut editor = editor_at("zero\n  one\ntwo\nthree", 1, 3);
    editor.handle_normal_mode_transition(NormalModeTransition::YankLines(2));
    assert!(editor.line_yanked);
    assert_eq!(editor.area.yank_text(), "  one\ntwo");
    assert_eq!(editor.area.cursor(), (1, 3));
    assert_eq!(editor.area.selection_range(), None);
    assert_eq!(lines(&editor), vec!["zero", "  one", "two", "three"]);
    editor.handle_normal_mode_transition(NormalModeTransition::MoveCursorDown(2));
    editor.handle_normal_mode_transition(NormalModeTransition::Paste);
    assert_eq!(lines(&editor), vec!["zero", "  one", "two", "three", "  one", "two"]);
    assert_eq!(editor.area.cursor(), (5, 0));
    editor.handle_normal_mode_transition(NormalModeTransition::MoveCursorTop);
    editor.handle_normal_mode_transition(NormalModeTransition::Paste);
    assert_eq!(
        lines(&editor),
        vec!["zero", "  one", "two", "  one", "two", "three", "  one", "two"]
    );
}

#[test]
fn one_yanked_line_is_pasted_as_a_line() {
    let mut editor = editor_at("first\n    second", 1, 2);
    editor.handle_normal_mode_transition(NormalModeTransition::YankLines(1));
    assert_eq!(editor.area.yank_text(), "    second");
    editor.handle_normal_mode_transition(NormalModeTransition::MoveCursorUp(1));
    editor.handle_normal_mode_transition(NormalModeTransition::Paste);
    assert_eq!(lines(&editor), vec!["first", "    second", "    second"]);
    assert_eq!(editor.area.cursor(), (1, 4));
}

#[test]
fn yanking_more_lines_than_there_are_takes_those_that_are() {
    let mut editor = editor_at("a\nb\nc", 1, 0);
    editor.handle_normal_mode_transition(NormalModeTransition::YankLines(10));
    assert_eq!(editor.area.yank_text(), "b\nc");
    assert_eq!(editor.area.cursor(), (1, 0));
}

#[test]
fn a_single_empty_line_is_yanked_as_an_empty_line() {
    let mut editor = editor_at("a\n\nb", 0, 0);
    editor.handle_normal_mode_transition(NormalModeTransition::YankLines(1));
    assert_eq!(editor.area.yank_text(), "a");
    editor.handle_normal_mode_transition(NormalModeTransition::MoveCursorDown(1));
    editor.handle_normal_mode_transition(NormalModeTransition::YankLines(1));
    assert_eq!(editor.area.yank_text(), "");
    assert!(editor.area.nothing_yanked());
    assert!(editor.line_yanked);
    assert_eq!(editor.area.cursor(), (1, 0));
    assert_eq!(editor.area.selection_range(), None);
    editor.handle_normal_mode_transition(NormalModeTransition::MoveCursorDown(1));
    editor.handle_normal_mode_transition(NormalModeTransition::Paste);
    assert_eq!(lines(&editor), vec!["a", "", "b", ""]);
    assert_eq!(editor.area.cursor(), (3, 0));
}

#[test]
fn an_empty_first_line_is_yanked_and_pasted() {
    let mut editor = editor_at("\nx", 0, 0);
    editor.handle_normal_mode_transition(NormalModeTransition::YankLines(1));
    editor.handle_normal_mode_transition(NormalModeTransition::Paste);
    assert_eq!(lines(&editor), vec!["", "", "x"]);
    assert_eq!(editor.area.cursor(), (1, 0));
    editor.handle_normal_mode_transition(NormalModeTransition::MoveCursorBottom);
    editor.handle_normal_mode_transition(NormalModeTransition::Paste);
    assert_eq!(lines(&editor), vec!["", "", "x", ""]);
    editor.handle_normal_mode_transition(NormalModeTransition::Undo);
    editor.handle_normal_mode_transition(NormalModeTransition::Undo);
    assert_eq!(lines(&editor), vec!["", "x"]);
}

#[test]
fn a_deleted_empty_line_comes_back_with_paste() {
    let mut editor = editor_at("a\n\nb", 0, 1);
    editor.handle_normal_mode_transition(NormalModeTransition::DeleteWordBack(1));
    assert_eq!(editor.area.yank_text(), "a");
    assert_eq!(lines(&editor), vec!["", "", "b"]);
    editor.handle_normal_mode_transition(NormalModeTransition::MoveCursorDown(1));
    editor.handle_normal_mode_transition(NormalModeTransition::DeleteLines(1));
    assert_eq!(lines(&editor), vec!["", "b"]);
    assert_eq!(editor.area.yank_text(), "");
    assert!(editor.line_yanked);
    assert_eq!(editor.area.cursor(), (1, 0));
    editor.handle_normal_mode_transition(NormalModeTransition::Paste);
    assert_eq!(lines(&editor), vec!["", "b", ""]);
    let mut editor = editor_at("a\n\nb", 1, 0);
    editor.area.set_yank_text("old");
    editor.handle_normal_mode_transition(NormalModeTransition::DeleteLinesAndInsert(1));
    assert_eq!(lines(&editor), vec!["a", "", "b"]);
    assert_eq!(editor.area.yank_text(), "");
    editor.handle_normal_mode_transition(NormalModeTransition::Paste);
    assert_eq!(lines(&editor), vec!["a", "", "", "b"]);
}

#[test]
fn pasting_with_nothing_ever_yanked_changes_nothing() {
    let mut editor = editor_at("a\nb", 0, 1);
    assert!(!editor.line_yanked);
    assert!(editor.area.nothing_yanked());
    editor.handle_normal_mode_transition(NormalModeTransition::Paste);
    assert_eq!(lines(&editor), vec!["a", "b"]);
    assert_eq!(editor.area.cursor(), (0, 1));
    editor.handle_normal_mode_transition(NormalModeTransition::Undo);
    assert_eq!(lines(&editor), vec!["a", "b"]);
    let mut area = Area::open("hello");
    area.start_selection();
    assert!(area.nothing_selected());
    jump_to(&mut area, 0, 3);
    assert!(!area.nothing_selected());
    area.paste();
    assert_eq!(area.lines(), vec!["hello"]);
    assert_eq!(area.selection_range(), Some(((0, 0), (0, 3))));
    area.copy();
    assert!(!area.nothing_yanked());
    assert!(area.nothing_selected());
}

#[test]
fn the_yanked_text_can_be_set() {
    let mut area = Area::open("one");
    area.set_yank_text("abc");
    assert_eq!(area.yank_text(), "abc");
    area.paste();
    assert_eq!(area.lines(), vec!["abcone"]);
    area.set_yank_text("x\r\ny\n");
    assert_eq!(area.yank_text(), "x\ny\n");
    area.paste();
    assert_eq!(area.lines(), vec!["abcx", "y", "one"]);
    assert_eq!(area.cursor(), (2, 0));
    area.set_yank_text("");
    assert!(area.nothing_yanked());
    assert_eq!(area.lines(), vec!["abcx", "y", "one"]);
    area.undo();
    assert_eq!(area.lines(), vec!["abcone"]);
}

#[test]
fn a_piece_is_pasted_at_the_cursor() {
    let mut editor = editor_at("hello world", 0, 6);
    editor.handle_normal_mode_transition(NormalModeTransition::DeleteWordEnd(1));
    assert!(!editor.line_yanked);
    assert_eq!(lines(&editor), vec!["hello "]);
    assert_eq!(editor.area.yank_text(), "world");
    editor.handle_normal_mode_transition(NormalModeTransition::MoveCursorLineStart);
    editor.handle_normal_mode_transition(NormalModeTransition::Paste);
    assert_eq!(lines(&editor), vec!["worldhello "]);
    assert_eq!(editor.area.cursor(), (0, 5));
}

#[test]
fn delete_lines_takes_the_lines_with_their_breaks() {
    let mut editor = editor_at("zero\none\ntwo\n  three", 1, 2);
    editor.handle_normal_mode_transition(NormalModeTransition::DeleteLines(2));
    assert_eq!(lines(&editor), vec!["zero", "  three"]);
    assert_eq!(editor.area.yank_text(), "one\ntwo");
    assert_eq!(editor.area.cursor(), (1, 2));
    assert!(editor.line_yanked);
    let mut editor = editor_at("zero\none\ntwo", 0, 3);
    editor.handle_normal_mode_transition(NormalModeTransition::DeleteLines(1));
    assert_eq!(lines(&editor), vec!["one", "two"]);
    assert_eq!(editor.area.cursor(), (0, 0));
    let mut editor = editor_at("  zero\none\ntwo", 1, 1);
    editor.handle_normal_mode_transition(NormalModeTransition::DeleteLines(5));
    assert_eq!(lines(&editor), vec!["  zero"]);
    assert_eq!(editor.area.cursor(), (0, 2));
    let mut editor = editor_at("only", 0, 2);
    editor.handle_normal_mode_transition(NormalModeTransition::DeleteLines(1));
    assert_eq!(lines(&editor), vec![""]);
    assert_eq!(editor.area.cursor(), (0, 0));
    assert_eq!(editor.area.yank_text(), "only");
}

#[test]
fn deleted_lines_come_back_with_paste() {
    let mut editor = editor_at("a\nb\nc\nd", 1, 0);
    editor.handle_normal_mode_transition(NormalModeTransition::DeleteLines(2));
    assert_eq!(lines(&editor), vec!["a", "d"]);
    editor.handle_normal_mode_transition(NormalModeTransition::MoveCursorUp(1));
    editor.handle_normal_mode_transition(NormalModeTransition::Paste);
    assert_eq!(lines(&editor), vec!["a", "b", "c", "d"]);
}

#[test]
fn delete_lines_and_insert_leaves_a_line_to_write_on() {
    let mut editor = editor_at("zero\none\ntwo\nthree", 1, 2);
    editor.handle_normal_mode_transition(NormalModeTransition::DeleteLinesAndInsert(2));
    assert_eq!(lines(&editor), vec!["zero", "", "three"]);
    assert_eq!(editor.area.cursor(), (1, 0));
    assert_eq!(editor.area.yank_text(), "one\ntwo");
    assert!(editor.line_yanked);
}

#[test]
fn delete_inside_word_takes_the_word_under_the_cursor() {
    for col in [0, 2, 4] {
        let mut editor = editor_at("hello world", 0, col);
        editor.handle_normal_mode_transition(NormalModeTransition::DeleteInsideWord(1));
        assert_eq!(lines(&editor), vec![" world"], "from column {col}");
        assert_eq!(editor.area.yank_text(), "hello");
        assert_eq!(editor.area.cursor(), (0, 0));
        assert!(!editor.line_yanked);
    }
    for col in [6, 8, 10] {
        let mut editor = editor_at("hello world", 0, col);
        editor.handle_normal_mode_transition(NormalModeTransition::DeleteInsideWord(1));
        assert_eq!(lines(&editor), vec!["hello "], "from column {col}");
        assert_eq!(editor.area.cursor(), (0, 6));
    }
    let mut editor = editor_at("one two three", 0, 5);
    editor.handle_normal_mode_transition(NormalModeTransition::DeleteInsideWord(2));
    assert_eq!(lines(&editor), vec!["one "]);
    assert_eq!(editor.area.yank_text(), "two three");
}

#[test]
fn delete_word_end_and_word_back() {
    let mut editor = editor_at("one two three", 0, 4);
    editor.handle_normal_mode_transition(NormalModeTransition::DeleteWordEnd(1));
    assert_eq!(lines(&editor), vec!["one  three"]);
    assert_eq!(editor.area.yank_text(), "two");
    let mut editor = editor_at("one two three", 0, 0);
    editor.handle_normal_mode_transition(NormalModeTransition::DeleteWordEnd(2));
    assert_eq!(lines(&editor), vec![" three"]);
    let mut editor = editor_at("one two three", 0, 10);
    editor.handle_normal_mode_transition(NormalModeTransition::DeleteWordBack(1));
    assert_eq!(lines(&editor), vec!["one two ree"]);
    assert_eq!(editor.area.yank_text(), "th");
    assert_eq!(editor.area.cursor(), (0, 8));
    editor.handle_normal_mode_transition(NormalModeTransition::DeleteWordBack(2));
    assert_eq!(lines(&editor), vec!["ree"]);
    assert_eq!(editor.area.cursor(), (0, 0));
}

#[test]
fn delete_to_the_ends_of_the_line() {
    let mut editor = editor_at("hello world\nsecond\nthird", 0, 5);
    editor.handle_normal_mode_transition(NormalModeTransition::DeleteLineStart);
    assert_eq!(lines(&editor), vec![" world", "second", "third"]);
    assert_eq!(editor.area.cursor(), (0, 0));
    assert_eq!(editor.area.yank_text(), "hello");
    let mut editor = editor_at("hello world\nsecond\nthird", 0, 5);
    editor.handle_normal_mode_transition(NormalModeTransition::DeleteLineEnd(1));
    assert_eq!(lines(&editor), vec!["hello", "second", "third"]);
    assert_eq!(editor.area.cursor(), (0, 5));
    let mut editor = editor_at("hello world\nsecond\nthird", 0, 5);
    editor.handle_normal_mode_transition(NormalModeTransition::DeleteLineEnd(2));
    assert_eq!(lines(&editor), vec!["hello", "third"]);
    assert_eq!(editor.area.yank_text(), " world\nsecond");
}

#[test]
fn new_lines_below_and_above() {
    let mut editor = editor_at("abc def\nnext", 0, 3);
    editor.handle_normal_mode_transition(NormalModeTransition::InsertNewLineBelow);
    assert_eq!(lines(&editor), vec!["abc def", "", "next"]);
    assert_eq!(editor.area.cursor(), (1, 0));
    let mut editor = editor_at("abc def\nnext", 1, 2);
    editor.handle_normal_mode_transition(NormalModeTransition::InsertNewLineAbove);
    assert_eq!(lines(&editor), vec!["abc def", "", "next"]);
    assert_eq!(editor.area.cursor(), (1, 0));
    let mut editor = editor_at("abc", 0, 1);
    editor.handle_normal_mode_transition(NormalModeTransition::InsertNewLineAbove);
    assert_eq!(lines(&editor), vec!["", "abc"]);
    assert_eq!(editor.area.cursor(), (0, 0));
}

#[test]
fn the_ways_into_insert_mode() {
    let mut editor = editor_at("  abc def\nnext", 0, 4);
    editor.handle_normal_mode_transition(NormalModeTransition::InsertAtCursor);
    assert_eq!(editor.area.cursor(), (0, 4));
    editor.handle_normal_mode_transition(NormalModeTransition::InsertAfterCursor);
    assert_eq!(editor.area.cursor(), (0, 5));
    editor.handle_normal_mode_transition(NormalModeTransition::InsertAtLineEnd);
    assert_eq!(editor.area.cursor(), (0, 9));
    editor.handle_normal_mode_transition(NormalModeTransition::InsertAtLineStart);
    assert_eq!(editor.area.cursor(), (0, 0));
    assert_eq!(lines(&editor), vec!["  abc def", "next"]);
}

#[test]
fn the_switches() {
    let mut editor = Editor::open("text");
    assert!(!editor.show_line_number);
    assert!(!editor.show_browser);
    editor.handle_normal_mode_transition(NormalModeTransition::ToggleLineNumbers);
    assert!(editor.show_line_number);
    assert!(!editor.show_browser);
    editor.handle_normal_mode_transition(NormalModeTransition::ToggleBrowser);
    editor.handle_normal_mode_transition(NormalModeTransition::ToggleLineNumbers);
    assert!(!editor.show_line_number);
    assert!(editor.show_browser);
    for transition in [
        NormalModeTransition::ToggleMode,
        NormalModeTransition::NumberingMode,
        NormalModeTransition::GatewayMode,
        NormalModeTransition::YankMode,
        NormalModeTransition::DeleteMode,
        NormalModeTransition::DeleteInsideMode,
        NormalModeTransition::ChangeMode,
        NormalModeTransition::ChangeInsideMode,
    ] {
        editor.handle_normal_mode_transition(transition);
        assert_eq!(lines(&editor), vec!["text"]);
        assert_eq!(editor.area.cursor(), (0, 0));
        assert!(editor.show_browser);
    }
}

#[test]
fn undo_takes_a_run_of_changes_back() {
    let content = "alpha beta\n  gamma\ndelta";
    let mut editor = editor_at(content, 0, 6);
    editor.handle_normal_mode_transition(NormalModeTransition::DeleteWordEnd(1));
    editor.handle_normal_mode_transition(NormalModeTransition::InsertNewLineBelow);
    editor.handle_normal_mode_transition(NormalModeTransition::MoveCursorDown(1));
    editor.handle_normal_mode_transition(NormalModeTransition::DeleteChars(4));
    assert_eq!(lines(&editor), vec!["alpha ", "", "mma", "delta"]);
    for _ in 0..3 {
        editor.handle_normal_mode_transition(NormalModeTransition::Undo);
    }
    assert_eq!(editor.area.content(), content);
    editor.handle_normal_mode_transition(NormalModeTransition::Undo);
    assert_eq!(editor.area.content(), content);
    for _ in 0..3 {
        editor.handle_normal_mode_transition(NormalModeTransition::Redo);
    }
    assert_eq!(lines(&editor), vec!["alpha ", "", "mma", "delta"]);
    editor.handle_normal_mode_transition(NormalModeTransition::Redo);
    assert_eq!(lines(&editor), vec!["alpha ", "", "mma", "delta"]);
}

#[test]
fn undo_puts_the_cursor_back() {
    let mut area = Area::open("one two\nthree");
    jump_to(&mut area, 0, 3);
    area.insert_newline();
    area.delete_char();
    area.delete_char();
    area.paste();
    area.insert_newline();
    assert_eq!(area.lines(), vec!["on", " two", "three"]);
    for _ in 0..4 {
        area.undo();
    }
    assert_eq!(area.lines(), vec!["one two", "three"]);
    assert_eq!(area.cursor(), (0, 3));
}

#[test]
fn undo_after_a_cut_puts_the_cursor_at_the_end_of_what_was_cut() {
    let mut editor = editor_at("hello world", 0, 2);
    editor.handle_normal_mode_transition(NormalModeTransition::DeleteChars(3));
    assert_eq!(lines(&editor), vec!["he world"]);
    editor.handle_normal_mode_transition(NormalModeTransition::Undo);
    assert_eq!(lines(&editor), vec!["hello world"]);
    assert_eq!(editor.area.cursor(), (0, 5));
}

#[test]
fn the_history_keeps_fifty_changes() {
    let mut area = Area::open("x");
    for _ in 0..51 {
        area.insert_newline();
    }
    assert_eq!(area.line_count(), 52);
    for _ in 0..60 {
        area.undo();
    }
    assert_eq!(area.line_count(), 2);
    for _ in 0..60 {
        area.redo();
    }
    assert_eq!(area.line_count(), 52);
}

#[test]
fn a_change_forgets_what_could_be_redone() {
    let mut area = Area::open("abc");
    area.move_cursor(CursorMove::End);
    area.delete_char();
    area.delete_char();
    area.undo();
    assert_eq!(area.lines(), vec!["ab"]);
    area.insert_newline();
    area.redo();
    assert_eq!(area.lines(), vec!["ab", ""]);
    area.undo();
    area.undo();
    assert_eq!(area.lines(), vec!["abc"]);
}

#[test]
fn deleting_a_character_joins_lines_at_the_head_of_a_line() {
    let mut area = Area::open("ab\ncd");
    area.delete_char();
    assert_eq!(area.lines(), vec!["ab", "cd"]);
    jump_to(&mut area, 1, 0);
    area.delete_char();
    assert_eq!(area.lines(), vec!["abcd"]);
    assert_eq!(area.cursor(), (0, 2));
    area.delete_char();
    assert_eq!(area.lines(), vec!["acd"]);
    assert_eq!(area.cursor(), (0, 1));
}

#[test]
fn changes_delete_what_is_selected_first() {
    let mut area = Area::open("hello world");
    area.start_selection();
    jump_to(&mut area, 0, 6);
    area.insert_newline();
    assert_eq!(area.lines(), vec!["", "world"]);
    assert_eq!(area.yank_text(), "");
    area.undo();
    assert_eq!(area.lines(), vec!["world"]);
    area.undo();
    assert_eq!(area.lines(), vec!["hello world"]);
    assert_eq!(area.cursor(), (0, 6));
    area.start_selection();
    jump_to(&mut area, 0, 0);
    area.delete_char();
    assert_eq!(area.lines(), vec!["world"]);
    assert_eq!(area.selection_range(), None);
    jump_to(&mut area, 0, 5);
    area.start_selection();
    jump_to(&mut area, 0, 2);
    area.copy();
    assert_eq!(area.yank_text(), "rld");
    area.start_selection();
    jump_to(&mut area, 0, 0);
    area.paste();
    assert_eq!(area.lines(), vec!["rldrld"]);
}

#[test]
fn visual_mode_selects_from_where_it_began() {
    let mut editor = editor_at("hello world", 0, 0);
    editor.handle_visual_mode_transition(VisualModeTransition::IdleMode);
    assert_eq!(editor.area.selection_range(), Some(((0, 0), (0, 0))));
    editor.handle_visual_mode_transition(VisualModeTransition::MoveCursorWordEnd(1));
    assert_eq!(editor.area.selection_range(), Some(((0, 0), (0, 4))));
    editor.handle_visual_mode_transition(VisualModeTransition::NumberingMode);
    editor.handle_visual_mode_transition(VisualModeTransition::GatewayMode);
    assert_eq!(editor.area.selection_range(), Some(((0, 0), (0, 4))));
    editor.line_yanked = true;
    editor.handle_visual_mode_transition(VisualModeTransition::YankSelection);
    assert_eq!(editor.area.yank_text(), "hello");
    assert_eq!(lines(&editor), vec!["hello world"]);
    assert_eq!(editor.area.selection_range(), None);
    assert!(!editor.line_yanked);
}

#[test]
fn a_selection_made_backwards_is_taken_forwards() {
    let mut editor = editor_at("hello world", 0, 8);
    editor.handle_visual_mode_transition(VisualModeTransition::IdleMode);
    editor.handle_visual_mode_transition(VisualModeTransition::MoveCursorBack(3));
    assert_eq!(editor.area.selection_range(), Some(((0, 5), (0, 8))));
    editor.handle_visual_mode_transition(VisualModeTransition::DeleteSelection);
    assert_eq!(lines(&editor), vec!["hellold"]);
    assert_eq!(editor.area.yank_text(), " wor");
    assert_eq!(editor.area.cursor(), (0, 5));
    assert_eq!(editor.area.selection_range(), None);
}

#[test]
fn a_selection_to_the_end_of_a_line_takes_the_line_break() {
    let mut editor = editor_at("ab\ncd", 0, 0);
    editor.handle_visual_mode_transition(VisualModeTransition::IdleMode);
    editor.handle_visual_mode_transition(VisualModeTransition::MoveCursorLineEnd);
    editor.handle_visual_mode_transition(VisualModeTransition::DeleteSelectionAndInsertMode);
    assert_eq!(lines(&editor), vec!["cd"]);
    assert_eq!(editor.area.yank_text(), "ab\n");
    assert_eq!(editor.area.cursor(), (0, 0));
}

#[test]
fn a_selection_over_lines() {
    let mut editor = editor_at("one two\nthree\nfour five", 0, 4);
    editor.handle_visual_mode_transition(VisualModeTransition::IdleMode);
    editor.handle_visual_mode_transition(VisualModeTransition::MoveCursorDown(2));
    assert_eq!(editor.area.selection_range(), Some(((0, 4), (2, 4))));
    editor.handle_visual_mode_transition(VisualModeTransition::YankSelection);
    assert_eq!(editor.area.yank_text(), "two\nthree\nfour ");
    editor.handle_normal_mode_transition(NormalModeTransition::MoveCursorTop);
    editor.handle_normal_mode_transition(NormalModeTransition::MoveCursorLineStart);
    editor.handle_normal_mode_transition(NormalModeTransition::Paste);
    assert_eq!(lines(&editor), vec!["two", "three", "four one two", "three", "four five"]);
    assert_eq!(editor.area.cursor(), (2, 5));
}

#[test]
fn leaving_visual_mode_gives_the_selection_up() {
    let mut editor = editor_at("hello world", 0, 2);
    editor.handle_visual_mode_transition(VisualModeTransition::IdleMode);
    editor.handle_visual_mode_transition(VisualModeTransition::MoveCursorForward(4));
    editor.handle_normal_mode_transition(NormalModeTransition::IdleMode);
    assert_eq!(editor.area.selection_range(), None);
    assert_eq!(lines(&editor), vec!["hello world"]);
    assert_eq!(editor.area.cursor(), (0, 6));
    editor.handle_visual_mode_transition(VisualModeTransition::YankSelection);
    assert_eq!(editor.area.yank_text(), "");
}
