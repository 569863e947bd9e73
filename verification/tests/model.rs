use glues::step::CursorMove;
use glues::textarea::Area;

type Pos = (usize, usize);
type Text = Vec<Vec<char>>;

/// A buffer worked out by hand, to hold the text area against.
#[derive(Clone, Debug, PartialEq)]
struct Model {
    lines: Text,
    cursor: Pos,
    anchor: Option<Pos>,
    yank: Text,
    edits: Vec<(Text, Pos, Text, Pos)>,
    applied: usize,
    limit: usize,
}

#[derive(Clone, Copy, PartialEq)]
enum Kind {
    Space,
    Punct,
    Other,
}

fn is_punctuation(c: char) -> bool {
    ('!'..='/').contains(&c)
        || (':'..='@').contains(&c)
        || ('['..='`').contains(&c)
        || ('{'..='~').contains(&c)
}

fn kind(c: char) -> Kind {
    if is_white(c) {
        Kind::Space
    } else if is_punctuation(c) {
        Kind::Punct
    } else {
        Kind::Other
    }
}

fn word_starts_at(line: &[char], i: usize) -> bool {
    i < line.len() && kind(line[i]) != Kind::Space && (i == 0 || kind(line[i - 1]) != kind(line[i]))
}

fn word_ends_at(line: &[char], i: usize) -> bool {
    i < line.len()
        && kind(line[i]) != Kind::Space
        && (i == line.len() - 1 || kind(line[i + 1]) != kind(line[i]))
}

fn jump_target(lines: &Text, row: usize, col: usize) -> Pos {
    let row = row.min(lines.len() - 1);
    (row, col.min(lines[row].len()))
}

fn step_target(m: CursorMove, lines: &Text, at: Pos) -> Pos {
    let (row, col) = at;
    let len = lines[row].len();
    match m {
        CursorMove::Forward => {
            if col < len {
                (row, col + 1)
            } else if row + 1 < lines.len() {
                (row + 1, 0)
            } else {
                at
            }
        }
        CursorMove::Up => {
            if row == 0 {
                at
            } else {
                jump_target(lines, row - 1, col)
            }
        }
        CursorMove::Down => {
            if row + 1 < lines.len() {
                jump_target(lines, row + 1, col)
            } else {
                at
            }
        }
        CursorMove::Head => (row, 0),
        CursorMove::End => (row, len),
        CursorMove::Top => jump_target(lines, 0, col),
        CursorMove::Bottom => jump_target(lines, lines.len() - 1, col),
        CursorMove::WordForward => match (col + 1..len).find(|&i| word_starts_at(&lines[row], i)) {
            Some(c) => (row, c),
            None if row + 1 < lines.len() => (row + 1, 0),
            None => (row, len),
        },
        CursorMove::WordEnd => match (col + 1..len).find(|&i| word_ends_at(&lines[row], i)) {
            Some(c) => (row, c),
            None => {
                let mut row = row;
                loop {
                    if row + 1 >= lines.len() {
                        break (row, lines[row].len());
                    }
                    row += 1;
                    if let Some(c) = (0..lines[row].len()).find(|&i| word_ends_at(&lines[row], i)) {
                        break (row, c);
                    }
                }
            }
        },
        CursorMove::WordBack => match (0..col).rev().find(|&i| word_starts_at(&lines[row], i)) {
            Some(c) => (row, c),
            None if row > 0 => (row - 1, lines[row - 1].len()),
            None => (row, 0),
        },
        CursorMove::Jump(r, c) => jump_target(lines, r as usize, c as usize),
    }
}

fn text_between(lines: &Text, start: Pos, end: Pos) -> Text {
    if start.0 == end.0 {
        vec![lines[start.0][start.1..end.1].to_vec()]
    } else {
        let mut text = vec![lines[start.0][start.1..].to_vec()];
        text.extend(lines[start.0 + 1..end.0].iter().cloned());
        text.push(lines[end.0][..end.1].to_vec());
        text
    }
}

fn without_range(lines: &Text, start: Pos, end: Pos) -> Text {
    let mut left: Text = lines[..start.0].to_vec();
    let mut joined = lines[start.0][..start.1].to_vec();
    joined.extend(&lines[end.0][end.1..]);
    left.push(joined);
    left.extend(lines[end.0 + 1..].iter().cloned());
    left
}

fn with_text(lines: &Text, at: Pos, text: &Text) -> Text {
    let head = lines[at.0][..at.1].to_vec();
    let tail = lines[at.0][at.1..].to_vec();
    let mut result: Text = lines[..at.0].to_vec();
    if text.len() == 1 {
        result.push([head, text[0].clone(), tail].concat());
    } else {
        result.push([head, text[0].clone()].concat());
        result.extend(text[1..text.len() - 1].iter().cloned());
        result.push([text[text.len() - 1].clone(), tail].concat());
    }
    result.extend(lines[at.0 + 1..].iter().cloned());
    result
}

impl Model {
    fn fresh(content: &str) -> Model {
        let mut lines: Text = content.lines().map(|line| line.chars().collect()).collect();
        if lines.is_empty() {
            lines.push(Vec::new());
        }
        Model {
            lines,
            cursor: (0, 0),
            anchor: None,
            yank: vec![Vec::new()],
            edits: Vec::new(),
            applied: 0,
            limit: 50,
        }
    }

    fn selection(&self) -> Option<(Pos, Pos)> {
        match self.anchor {
            None => None,
            Some(a) if a == self.cursor => None,
            Some(a) if a < self.cursor => Some((a, self.cursor)),
            Some(a) => Some((self.cursor, a)),
        }
    }

    fn selection_range(&self) -> Option<(Pos, Pos)> {
        self.anchor.map(|a| if self.cursor < a { (self.cursor, a) } else { (a, self.cursor) })
    }

    fn edited(&mut self, lines: Text, cursor: Pos, cursor_before: Pos) {
        let edit = (self.lines.clone(), cursor_before, lines.clone(), cursor);
        self.lines = lines;
        self.cursor = cursor;
        if self.limit == 0 {
            return;
        }
        if self.edits.len() == self.limit {
            self.edits.remove(0);
            self.applied = self.applied.saturating_sub(1);
        }
        self.edits.truncate(self.applied);
        self.edits.push(edit);
        self.applied += 1;
    }

    fn delete_selection(&mut self, keep: bool) {
        let selection = self.selection();
        self.anchor = None;
        if let Some((start, end)) = selection {
            if keep {
                self.yank = text_between(&self.lines, start, end);
            }
            let lines = without_range(&self.lines, start, end);
            self.edited(lines, start, end);
        }
    }

    fn apply(&mut self, op: Op) {
        match op {
            Op::Move(m) => self.cursor = step_target(m, &self.lines, self.cursor),
            Op::StartSelection => self.anchor = Some(self.cursor),
            Op::CancelSelection => self.anchor = None,
            Op::Copy => {
                if let Some((start, end)) = self.selection() {
                    self.yank = text_between(&self.lines, start, end);
                }
                self.anchor = None;
            }
            Op::Cut => self.delete_selection(true),
            Op::InsertChar(c) if c != '\n' && c != '\r' => {
                self.delete_selection(false);
                let (row, col) = self.cursor;
                let mut lines = self.lines.clone();
                lines[row].insert(col, c);
                self.edited(lines, (row, col + 1), (row, col));
            }
            Op::InsertChar(_) | Op::InsertNewline => {
                self.delete_selection(false);
                let (row, col) = self.cursor;
                let mut lines: Text = self.lines[..row].to_vec();
                lines.push(self.lines[row][..col].to_vec());
                lines.push(self.lines[row][col..].to_vec());
                lines.extend(self.lines[row + 1..].iter().cloned());
                self.edited(lines, (row + 1, 0), (row, col));
            }
            Op::DeleteChar => {
                if self.selection().is_some() {
                    self.delete_selection(false);
                    return;
                }
                self.anchor = None;
                let (row, col) = self.cursor;
                if col > 0 {
                    let mut lines = self.lines.clone();
                    lines[row].remove(col - 1);
                    self.edited(lines, (row, col - 1), (row, col));
                } else if row > 0 {
                    let above = self.lines[row - 1].len();
                    let mut lines = self.lines.clone();
                    let line = lines.remove(row);
                    lines[row - 1].extend(line);
                    self.edited(lines, (row - 1, above), (row, col));
                }
            }
            Op::Paste => {
                if self.yank.len() == 1 && self.yank[0].is_empty() {
                    return;
                }
                self.delete_selection(false);
                let at = self.cursor;
                let lines = with_text(&self.lines, at, &self.yank);
                let cursor = if self.yank.len() == 1 {
                    (at.0, at.1 + self.yank[0].len())
                } else {
                    (at.0 + self.yank.len() - 1, self.yank[self.yank.len() - 1].len())
                };
                self.edited(lines, cursor, at);
            }
            Op::Undo => {
                if self.applied > 0 {
                    let edit = self.edits[self.applied - 1].clone();
                    self.lines = edit.0;
                    self.cursor = edit.1;
                    self.anchor = None;
                    self.applied -= 1;
                }
            }
            Op::SetYank(text) => self.yank = pieces(text),
            Op::Redo => {
                if self.applied < self.edits.len() {
                    let edit = self.edits[self.applied].clone();
                    self.lines = edit.2;
                    self.cursor = edit.3;
                    self.anchor = None;
                    self.applied += 1;
                }
            }
        }
    }

    fn agrees_with(&self, area: &Area, trail: &str) {
        let lines: Vec<String> = self.lines.iter().map(|line| line.iter().collect()).collect();
        assert_eq!(area.lines(), lines, "lines after {trail}");
        assert_eq!(area.cursor(), self.cursor, "cursor after {trail}");
        assert_eq!(area.selection_range(), self.selection_range(), "selection after {trail}");
        let yank: Vec<String> = self.yank.iter().map(|line| line.iter().collect()).collect();
        assert_eq!(area.yank_text(), yank.join("\n"), "yank after {trail}");
        assert_eq!(area.line_count(), self.lines.len());
        assert_eq!(area.content(), lines.join("\n"));
    }
}

#[derive(Clone, Copy, Debug)]
enum Op {
    Move(CursorMove),
    StartSelection,
    CancelSelection,
    Copy,
    Cut,
    InsertChar(char),
    InsertNewline,
    DeleteChar,
    Paste,
    Undo,
    Redo,
    SetYank(&'static str),
}

/// The pieces that the line feeds part a text into, each without a carriage
/// return at its end.
fn pieces(text: &str) -> Text {
    text.split('\n')
        .map(|piece| piece.strip_suffix('\r').unwrap_or(piece).chars().collect())
        .collect()
}

fn perform(area: &mut Area, op: Op) {
    match op {
        Op::Move(m) => area.move_cursor(m),
        Op::StartSelection => area.start_selection(),
        Op::CancelSelection => area.cancel_selection(),
        Op::Copy => area.copy(),
        Op::Cut => area.cut(),
        Op::InsertChar(c) => area.insert_char(c),
        Op::InsertNewline => area.insert_newline(),
        Op::DeleteChar => area.delete_char(),
        Op::Paste => area.paste(),
        Op::Undo => area.undo(),
        Op::Redo => area.redo(),
        Op::SetYank(text) => area.set_yank_text(text),
    }
}

/// Numbers that look random and are the same in every run.
struct Numbers(u64);

impl Numbers {
    fn next(&mut self, below: u64) -> u64 {
        self.0 = self.0.wrapping_mul(6364136223846793005).wrapping_add(1442695040888963407);
        (self.0 >> 33) % below
    }

    fn op(&mut self) -> Op {
        match self.next(30) {
            0 => Op::Move(CursorMove::Forward),
            1 => Op::Move(CursorMove::Up),
            2 => Op::Move(CursorMove::Down),
            3 => Op::Move(CursorMove::Head),
            4 => Op::Move(CursorMove::End),
            5 => Op::Move(CursorMove::Top),
            6 => Op::Move(CursorMove::Bottom),
            7 | 8 => Op::Move(CursorMove::WordForward),
            9 | 10 => Op::Move(CursorMove::WordEnd),
            11 | 12 => Op::Move(CursorMove::WordBack),
            13 => Op::Move(CursorMove::Jump(self.next(8) as u16, self.next(30) as u16)),
            14 | 15 => Op::StartSelection,
            16 => Op::CancelSelection,
            17 => Op::Copy,
            18 => Op::Cut,
            19 => Op::InsertNewline,
            20 => Op::DeleteChar,
            21 => Op::Paste,
            22 => Op::Undo,
            23 => Op::Redo,
            28 | 29 => Op::SetYank(
                ["", "abc", "a\nb", "x\r\ny\n", "\r", "\n", " two  words \r\n\r\n"][self.next(7) as usize],
            ),
            _ => Op::InsertChar(['x', ' ', '.', '\n', 'é', '\t', '\r', '('][self.next(8) as usize]),
        }
    }
}

const TEXTS: [&str; 6] = [
    "",
    "hello world",
    "fn main() {\n    let x = foo(a, b);\n\n  \t \n}\nlast line, longer than the others",
    "one\n\n\n  two  \n\tthree",
    "ünïcödé wörds — and (punctuation)!?\n日本語 のテキスト\n\u{a0}\u{3000}wide blanks",
    "a.b,c;d e_f g-h\n[[[ccc]]] {x}{y}\n   \n.",
];

#[test]
fn the_text_area_does_what_the_model_says() {
    let mut numbers = Numbers(20260101);
    for round in 0..300 {
        let content = TEXTS[round % TEXTS.len()];
        let mut area = Area::open(content);
        let mut model = Model::fresh(content);
        model.agrees_with(&area, "opening");
        let mut trail = String::new();
        for _ in 0..120 {
            let op = numbers.op();
            trail.push_str(&format!("{op:?} "));
            perform(&mut area, op);
            model.apply(op);
            model.agrees_with(&area, &trail);
        }
    }
}

#[test]
fn undo_goes_back_through_the_whole_history() {
    let mut numbers = Numbers(7);
    for round in 0..100 {
        let content = TEXTS[round % TEXTS.len()];
        let mut area = Area::open(content);
        let mut model = Model::fresh(content);
        for _ in 0..80 {
            let op = numbers.op();
            perform(&mut area, op);
            model.apply(op);
        }
        for back in 0..60 {
            perform(&mut area, Op::Undo);
            model.apply(Op::Undo);
            model.agrees_with(&area, &format!("undo {back} in round {round}"));
        }
        for forth in 0..60 {
            perform(&mut area, Op::Redo);
            model.apply(Op::Redo);
            model.agrees_with(&area, &format!("redo {forth} in round {round}"));
        }
    }
}

fn is_white(c: char) -> bool {
    matches!(
        c,
        '\u{9}'..='\u{d}'
            | ' '
            | '\u{85}'
            | '\u{a0}'
            | '\u{1680}'
            | '\u{2000}'..='\u{200a}'
            | '\u{2028}'
            | '\u{2029}'
            | '\u{202f}'
            | '\u{205f}'
            | '\u{3000}'
    )
}

#[test]
fn the_white_space_of_unicode() {
    for code in 0..=0x10_ffffu32 {
        if let Some(c) = char::from_u32(code) {
            assert_eq!(is_white(c), c.is_whitespace(), "{c:?}");
        }
    }
}

#[test]
fn the_punctuation_of_ascii() {
    for code in 0..=0x2_ffffu32 {
        if let Some(c) = char::from_u32(code) {
            assert_eq!(is_punctuation(c), c.is_ascii_punctuation(), "{c:?}");
        }
    }
}
