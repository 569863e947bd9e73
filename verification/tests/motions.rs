use glues::editor::Editor;
use glues::motion::{
    cursor_move_back, cursor_move_down, cursor_move_forward, cursor_move_up, jump_to,
    move_cursor_by, move_cursor_to_line, move_cursor_to_line_non_empty_start,
    move_cursor_word_back, move_cursor_word_end, move_cursor_word_forward, Motion,
};
use glues::step::CursorMove;
use glues::textarea::Area;
use glues::transition::{NormalModeTransition, VisualModeTransition};

fn numbered_lines(count: usize) -> String {
    let mut content = String::new();
    for i in 0..count {
        if i > 0 {
            content.push('\n');
        }
        content.push_str(&format!("line {i}"));
    }
    content
}

fn all_motions() -> Vec<Motion> {
    vec![
        Motion::Forward,
        Motion::Back,
        Motion::Down,
        Motion::Up,
        Motion::WordForward,
        Motion::WordEnd,
        Motion::WordBack,
        Motion::ToLine,
        Motion::LineStart,
        Motion::LineEnd,
        Motion::LineNonEmptyStart,
        Motion::Top,
        Motion::Bottom,
    ]
}

fn on_text(area: &Area) -> bool {
    let (row, col) = area.cursor();
    match area.line(row) {
        Some(line) => col <= line.chars().count(),
        None => false,
    }
}

#[test]
fn word_forward_reaches_the_next_word() {
    let mut editor = Editor::open("hello world");
    assert_eq!(editor.area.cursor(), (0, 0));
    editor.handle_normal_mode_transition(NormalModeTransition::MoveCursorWordForward(1));
    assert_eq!(editor.area.cursor(), (0, 6));
}

#[test]
fn three_lines_down_from_the_top_of_ten() {
    let mut editor = Editor::open(&numbered_lines(10));
    editor.handle_normal_mode_transition(NormalModeTransition::MoveCursorDown(3));
    assert_eq!(editor.area.cursor(), (3, 0));
}

#[test]
fn down_stops_at_the_last_line() {
    let mut editor = Editor::open(&numbered_lines(3));
    editor.handle_normal_mode_transition(NormalModeTransition::MoveCursorDown(3));
    assert_eq!(editor.area.cursor(), (2, 0));
    let mut editor = Editor::open(&numbered_lines(10));
    editor.handle_normal_mode_transition(NormalModeTransition::MoveCursorDown(usize::MAX));
    assert_eq!(editor.area.cursor(), (9, 0));
}

#[test]
fn every_motion_with_every_count_stays_on_the_text() {
    let content = "fn main() {\n    let x = 1;\n\n  \t \n}\nlast line, longer than the others";
    for motion in all_motions() {
        for count in [0, 1, 2, 3, 7, 100, usize::MAX] {
            for start in [(0, 0), (1, 4), (2, 0), (3, 2), (5, 33), (5, 10)] {
                let mut area = Area::open(content);
                jump_to(&mut area, start.0, start.1);
                assert_eq!(area.cursor(), start);
                move_cursor_by(&mut area, motion, count);
                assert!(on_text(&area), "{motion:?} {count} from {start:?}");
            }
        }
    }
}

#[test]
fn a_count_of_zero_moves_nothing() {
    let content = "alpha beta\n  gamma\n\ndelta";
    for motion in [
        Motion::Forward,
        Motion::Back,
        Motion::Down,
        Motion::Up,
        Motion::WordForward,
        Motion::WordEnd,
        Motion::WordBack,
        Motion::ToLine,
    ] {
        for start in [(0, 0), (0, 10), (1, 3), (2, 0), (3, 5)] {
            let mut area = Area::open(content);
            jump_to(&mut area, start.0, start.1);
            move_cursor_by(&mut area, motion, 0);
            assert_eq!(area.cursor(), start, "{motion:?} from {start:?}");
        }
    }
}

#[test]
fn forward_and_back_stop_at_the_ends_of_the_line() {
    let mut area = Area::open("abcdef\nxyz");
    jump_to(&mut area, 0, 2);
    assert_eq!(cursor_move_forward(&area, 3), (0, 5));
    assert_eq!(cursor_move_forward(&area, 4), (0, 6));
    assert_eq!(cursor_move_forward(&area, 40), (0, 6));
    assert_eq!(cursor_move_forward(&area, usize::MAX), (0, 6));
    assert_eq!(cursor_move_back(&area, 1), (0, 1));
    assert_eq!(cursor_move_back(&area, 2), (0, 0));
    assert_eq!(cursor_move_back(&area, 3), (0, 0));
    assert_eq!(area.cursor(), (0, 2));
}

#[test]
fn down_and_up_keep_the_column_where_the_line_reaches() {
    let mut area = Area::open("a long first line\nab\n\nanother long line");
    jump_to(&mut area, 0, 10);
    assert_eq!(cursor_move_down(&area, 1), (1, 2));
    assert_eq!(cursor_move_down(&area, 2), (2, 0));
    assert_eq!(cursor_move_down(&area, 3), (3, 10));
    assert_eq!(cursor_move_down(&area, 4), (3, 10));
    jump_to(&mut area, 3, 12);
    assert_eq!(cursor_move_up(&area, 1), (2, 0));
    assert_eq!(cursor_move_up(&area, 2), (1, 2));
    assert_eq!(cursor_move_up(&area, 3), (0, 12));
    assert_eq!(cursor_move_up(&area, 9), (0, 12));
}

#[test]
fn a_jump_stops_at_the_end_of_the_text() {
    let mut area = Area::open("one\ntwo two\nthree");
    jump_to(&mut area, 1, 5);
    assert_eq!(area.cursor(), (1, 5));
    jump_to(&mut area, 1, 50);
    assert_eq!(area.cursor(), (1, 7));
    jump_to(&mut area, 7, 2);
    assert_eq!(area.cursor(), (2, 2));
    jump_to(&mut area, 70_000, 70_000);
    assert_eq!(area.cursor(), (2, 5));
    jump_to(&mut area, 0, 70_000);
    assert_eq!(area.cursor(), (0, 3));
    jump_to(&mut area, 70_000, 1);
    assert_eq!(area.cursor(), (2, 1));
}

#[test]
fn a_jump_beyond_sixteen_bits_lands_where_it_says() {
    let long_line = "x".repeat(70_010);
    let mut area = Area::open(&long_line);
    jump_to(&mut area, 0, 70_000);
    assert_eq!(area.cursor(), (0, 70_000));
    let many_lines = numbered_lines(65_600);
    let mut area = Area::open(&many_lines);
    jump_to(&mut area, 65_580, 3);
    assert_eq!(area.cursor(), (65_580, 3));
    move_cursor_by(&mut area, Motion::Down, 0);
    assert_eq!(area.cursor(), (65_580, 3));
    move_cursor_by(&mut area, Motion::Down, 10);
    assert_eq!(area.cursor(), (65_590, 3));
}

#[test]
fn words_are_runs_of_one_class_of_characters() {
    let mut area = Area::open("fn foo(a) {\n  bar\n}");
    let mut seen = Vec::new();
    for _ in 0..9 {
        move_cursor_word_forward(&mut area, 1);
        seen.push(area.cursor());
    }
    assert_eq!(
        seen,
        vec![(0, 3), (0, 6), (0, 7), (0, 8), (0, 10), (1, 0), (1, 2), (2, 0), (2, 1)]
    );
    let mut area = Area::open("fn foo(a) {\n  bar\n}");
    move_cursor_word_forward(&mut area, 4);
    assert_eq!(area.cursor(), (0, 8));
}

#[test]
fn word_end_and_word_back() {
    let mut area = Area::open("aaa bbb [[[ccc]]]\n\n ddd");
    let mut seen = Vec::new();
    for _ in 0..7 {
        move_cursor_word_end(&mut area, 1);
        seen.push(area.cursor());
    }
    assert_eq!(seen, vec![(0, 2), (0, 6), (0, 10), (0, 13), (0, 16), (2, 3), (2, 4)]);
    let mut seen = Vec::new();
    for _ in 0..8 {
        move_cursor_word_back(&mut area, 1);
        seen.push(area.cursor());
    }
    assert_eq!(
        seen,
        vec![(2, 1), (1, 0), (0, 17), (0, 14), (0, 11), (0, 8), (0, 4), (0, 0)]
    );
    move_cursor_word_back(&mut area, 1);
    assert_eq!(area.cursor(), (0, 0));
    move_cursor_word_end(&mut area, 3);
    assert_eq!(area.cursor(), (0, 10));
    move_cursor_word_back(&mut area, 2);
    assert_eq!(area.cursor(), (0, 4));
}

#[test]
fn the_first_character_that_is_no_white_space() {
    let mut area = Area::open("    indented\nplain\n \t  \n\n\u{a0}\u{3000}wide");
    jump_to(&mut area, 0, 9);
    move_cursor_to_line_non_empty_start(&mut area);
    assert_eq!(area.cursor(), (0, 4));
    jump_to(&mut area, 1, 3);
    move_cursor_to_line_non_empty_start(&mut area);
    assert_eq!(area.cursor(), (1, 0));
    jump_to(&mut area, 2, 2);
    move_cursor_to_line_non_empty_start(&mut area);
    assert_eq!(area.cursor(), (2, 0));
    jump_to(&mut area, 3, 0);
    move_cursor_to_line_non_empty_start(&mut area);
    assert_eq!(area.cursor(), (3, 0));
    jump_to(&mut area, 4, 5);
    move_cursor_to_line_non_empty_start(&mut area);
    assert_eq!(area.cursor(), (4, 2));
}

#[test]
fn a_line_of_white_space_at_the_end_keeps_the_cursor_at_its_head() {
    let mut area = Area::open("text\n   ");
    jump_to(&mut area, 1, 2);
    move_cursor_to_line_non_empty_start(&mut area);
    assert_eq!(area.cursor(), (1, 0));
}

#[test]
fn to_line_goes_to_the_line_and_one_word_on() {
    let mut area = Area::open("one two\n  three four\nfive");
    move_cursor_to_line(&mut area, 2);
    assert_eq!(area.cursor(), (1, 2));
    move_cursor_to_line(&mut area, 1);
    assert_eq!(area.cursor(), (0, 4));
    move_cursor_to_line(&mut area, 3);
    assert_eq!(area.cursor(), (2, 4));
    move_cursor_to_line(&mut area, 30);
    assert_eq!(area.cursor(), (2, 4));
    jump_to(&mut area, 1, 5);
    move_cursor_to_line(&mut area, 0);
    assert_eq!(area.cursor(), (1, 5));
}

#[test]
fn single_steps() {
    let mut area = Area::open("ab\n\ncdef");
    area.move_cursor(CursorMove::Forward);
    area.move_cursor(CursorMove::Forward);
    assert_eq!(area.cursor(), (0, 2));
    area.move_cursor(CursorMove::Forward);
    assert_eq!(area.cursor(), (1, 0));
    area.move_cursor(CursorMove::Up);
    assert_eq!(area.cursor(), (0, 0));
    area.move_cursor(CursorMove::Up);
    assert_eq!(area.cursor(), (0, 0));
    area.move_cursor(CursorMove::Bottom);
    assert_eq!(area.cursor(), (2, 0));
    area.move_cursor(CursorMove::End);
    assert_eq!(area.cursor(), (2, 4));
    area.move_cursor(CursorMove::Forward);
    assert_eq!(area.cursor(), (2, 4));
    area.move_cursor(CursorMove::Down);
    assert_eq!(area.cursor(), (2, 4));
    area.move_cursor(CursorMove::Top);
    assert_eq!(area.cursor(), (0, 2));
    area.move_cursor(CursorMove::Down);
    assert_eq!(area.cursor(), (1, 0));
    area.move_cursor(CursorMove::Jump(2, 3));
    assert_eq!(area.cursor(), (2, 3));
    area.move_cursor(CursorMove::Head);
    assert_eq!(area.cursor(), (2, 0));
    area.move_cursor(CursorMove::WordBack);
    assert_eq!(area.cursor(), (1, 0));
}

#[test]
fn the_motions_of_both_modes_agree() {
    let content = "alpha beta gamma\n  delta\nepsilon";
    let pairs = vec![
        (NormalModeTransition::MoveCursorDown(1), VisualModeTransition::MoveCursorDown(1)),
        (NormalModeTransition::MoveCursorUp(1), VisualModeTransition::MoveCursorUp(1)),
        (NormalModeTransition::MoveCursorBack(2), VisualModeTransition::MoveCursorBack(2)),
        (NormalModeTransition::MoveCursorForward(3), VisualModeTransition::MoveCursorForward(3)),
        (
            NormalModeTransition::MoveCursorWordForward(2),
            VisualModeTransition::MoveCursorWordForward(2),
        ),
        (NormalModeTransition::MoveCursorWordEnd(2), VisualModeTransition::MoveCursorWordEnd(2)),
        (NormalModeTransition::MoveCursorWordBack(1), VisualModeTransition::MoveCursorWordBack(1)),
        (NormalModeTransition::MoveCursorLineStart, VisualModeTransition::MoveCursorLineStart),
        (NormalModeTransition::MoveCursorLineEnd, VisualModeTransition::MoveCursorLineEnd),
        (
            NormalModeTransition::MoveCursorLineNonEmptyStart,
            VisualModeTransition::MoveCursorLineNonEmptyStart,
        ),
        (NormalModeTransition::MoveCursorTop, VisualModeTransition::MoveCursorTop),
        (NormalModeTransition::MoveCursorBottom, VisualModeTransition::MoveCursorBottom),
        (NormalModeTransition::MoveCursorToLine(2), VisualModeTransition::MoveCursorToLine(2)),
    ];
    for (normal, visual) in pairs {
        let mut first = Editor::open(content);
        jump_to(&mut first.area, 1, 4);
        first.handle_normal_mode_transition(normal);
        let mut second = Editor::open(content);
        jump_to(&mut second.area, 1, 4);
        second.handle_visual_mode_transition(visual);
        assert_eq!(first.area.cursor(), second.area.cursor(), "{normal:?}");
        assert_eq!(second.area.selection_range(), None);
    }
}
