//! The directories in the database: the statements that fetch, add, move,
//! rename and remove them. Removing a directory takes many statements, one
//! after the other, each decided by the answers to those before it.

use crate::data::{Directory, DirectoryId};
use crate::db::{Answer, AnswerView, Statement};
use crate::error::Error;
use uuid::Uuid;
use vstd::prelude::*;
use vstd::string::StringExecFns;

verus! {

/// What an error says when a directory is fetched that the database does
/// not hold.
pub const NOT_FOUND: &'static str = "directory not found";

/// What an error says when the database answers what was not asked.
pub const WRONG_ANSWER: &'static str = "the answer does not fit the statement";

/// `Uuid::now_v7`, then `to_string`: a new identifier, made of the time and
/// of chance, written in 36 characters.
#[verifier::external_body]
fn new_id() -> (id: String)
    ensures
        id@.len() == 36,
{
    Uuid::now_v7().to_string()
}

/// The statement that fetches the directory `directory_id`.
pub fn fetch_directory(directory_id: DirectoryId) -> (statement: Statement)
    ensures
        statement == (Statement::SelectDirectory { id: directory_id }),
{
    Statement::SelectDirectory { id: directory_id }
}

/// The directory that was fetched: the first that the database found. That
/// it found none is a storage error, and so is its failure.
pub fn fetched_directory(answer: Answer) -> (result: Result<Directory, Error>)
    ensures
        match answer {
            Answer::Directories(found) => if found@.len() > 0 {
                result == Ok::<Directory, Error>(found@[0])
            } else {
                result matches Err(Error::Storage(text)) && text@ == NOT_FOUND@
            },
            Answer::Failed(message) => result == Err::<Directory, Error>(Error::Storage(message)),
            Answer::Done => result matches Err(Error::Wip(text)) && text@ == WRONG_ANSWER@,
        },
{
    match answer {
        Answer::Directories(found) => {
            if found.len() > 0 {
                Ok(found[0].clone())
            } else {
                Err(Error::Storage(String::from_str(NOT_FOUND)))
            }
        },
        Answer::Failed(message) => Err(Error::Storage(message)),
        Answer::Done => Err(Error::Wip(String::from_str(WRONG_ANSWER))),
    }
}

/// The statement that fetches the directories lying directly in
/// `parent_id`.
pub fn fetch_directories(parent_id: DirectoryId) -> (statement: Statement)
    ensures
        statement == (Statement::SelectDirectories { parent_id }),
{
    Statement::SelectDirectories { parent_id }
}

/// The directories that were fetched, in the order of the table.
pub fn fetched_directories(answer: Answer) -> (result: Result<Vec<Directory>, Error>)
    ensures
        match answer {
            Answer::Directories(found) => result == Ok::<Vec<Directory>, Error>(found),
            Answer::Failed(message) => result == Err::<Vec<Directory>, Error>(
                Error::Storage(message),
            ),
            Answer::Done => result matches Err(Error::Wip(text)) && text@ == WRONG_ANSWER@,
        },
{
    match answer {
        Answer::Directories(found) => Ok(found),
        Answer::Failed(message) => Err(Error::Storage(message)),
        Answer::Done => Err(Error::Wip(String::from_str(WRONG_ANSWER))),
    }
}

/// A new directory `name` in `parent_id`, under `id`, with the statement
/// that inserts it.
pub fn directory_with(id: DirectoryId, parent_id: DirectoryId, name: String) -> (added: (
    Directory,
    Statement,
))
    ensures
        added.0 == (Directory { id, parent_id: Some(parent_id), name }),
        added.1 == (Statement::InsertDirectory { directory: added.0 }),
{
    let directory = Directory { id, parent_id: Some(parent_id), name };
    let statement = Statement::InsertDirectory { directory: directory.clone() };
    (directory, statement)
}

/// A new directory `name` in `parent_id`, under an identifier of its own,
/// with the statement that inserts it.
pub fn add_directory(parent_id: DirectoryId, name: String) -> (added: (Directory, Statement))
    ensures
        added.0.parent_id == Some(parent_id),
        added.0.name == name,
        added.0.id@.len() == 36,
        added.1 == (Statement::InsertDirectory { directory: added.0 }),
{
    directory_with(new_id(), parent_id, name)
}

/// The statement that puts the directory `directory_id` into `parent_id`.
pub fn move_directory(directory_id: DirectoryId, parent_id: DirectoryId) -> (statement: Statement)
    ensures
        statement == (Statement::MoveDirectory { id: directory_id, parent_id }),
{
    Statement::MoveDirectory { id: directory_id, parent_id }
}

/// The statement that names the directory `directory_id` `name`.
pub fn rename_directory(directory_id: DirectoryId, name: String) -> (statement: Statement)
    ensures
        statement == (Statement::RenameDirectory { id: directory_id, name }),
{
    Statement::RenameDirectory { id: directory_id, name }
}

/// What a removal waits for.
#[derive(Clone, Copy, Debug, PartialEq, Eq)]
pub enum Awaiting {
    /// The notes of the directory on top are being deleted.
    NotesDeleted,
    /// The directories in the directory on top are being fetched.
    Directories,
    /// The directory on top is being deleted.
    DirectoryDeleted,
    /// The storage is writing out the deletion of the directory on top.
    Synced,
}

/// One directory that is being removed: its identifier, the directories
/// that were found in it, and how many of them have been taken up.
#[derive(Debug, PartialEq, Eq)]
pub struct Frame {
    pub id: DirectoryId,
    pub children: Vec<Directory>,
    pub taken: usize,
}

/// The removal of a directory with all that lies in it, as far as it has
/// come: the directories that are being removed, the outermost first, each
/// lying in the one before it.
#[derive(Debug, PartialEq, Eq)]
pub struct Removal {
    pub frames: Vec<Frame>,
    pub awaiting: Awaiting,
}

/// The model of a frame.
pub struct FrameView {
    pub id: Seq<char>,
    pub children: Seq<Directory>,
    pub taken: nat,
}

/// The model of a removal.
pub struct RemovalView {
    pub frames: Seq<FrameView>,
    pub awaiting: Awaiting,
}

impl View for Frame {
    type V = FrameView;

    open spec fn view(&self) -> FrameView {
        FrameView { id: self.id@, children: self.children@, taken: self.taken as nat }
    }
}

impl View for Removal {
    type V = RemovalView;

    open spec fn view(&self) -> RemovalView {
        RemovalView { frames: Seq::new(self.frames@.len(), |i: int| self.frames@[i]@), awaiting: self.awaiting }
    }
}

/// How a removal goes on.
pub enum Course {
    /// With this statement, identified by the directory it is about.
    Make(StatementView),
    /// No further: the directory is removed.
    Finished,
    /// No further: the database failed, and said this.
    Failed(Seq<char>),
    /// No further: the answer does not fit the statement.
    Misfit,
}

/// The statements of a removal, by the identifier they are about.
pub enum StatementView {
    DeleteNotes(Seq<char>),
    SelectDirectories(Seq<char>),
    DeleteDirectory(Seq<char>),
    Sync,
}

impl StatementView {
    /// The statement `statement` is this one.
    pub open spec fn is(self, statement: Statement) -> bool {
        match self {
            StatementView::DeleteNotes(id) => statement matches Statement::DeleteNotes { directory_id }
                && directory_id@ == id,
            StatementView::SelectDirectories(id) => statement matches Statement::SelectDirectories {
                parent_id,
            } && parent_id@ == id,
            StatementView::DeleteDirectory(id) => statement matches Statement::DeleteDirectory { id: deleted }
                && deleted@ == id,
            StatementView::Sync => statement is Sync,
        }
    }
}

impl RemovalView {
    /// The validity of a removal: at least one directory is being removed,
    /// and of none more directories have been taken up than were found.
    pub open spec fn wf(self) -> bool {
        &&& self.frames.len() >= 1
        &&& forall|i: int|
            0 <= i < self.frames.len() ==> (#[trigger] self.frames[i]).taken
                <= self.frames[i].children.len()
    }

    /// The removal of the directory `id`, begun.
    pub open spec fn begun(id: Seq<char>) -> RemovalView {
        RemovalView {
            frames: seq![FrameView { id, children: Seq::empty(), taken: 0 }],
            awaiting: Awaiting::NotesDeleted,
        }
    }

    /// The innermost of the directories that are being removed.
    pub open spec fn top(self) -> FrameView {
        self.frames.last()
    }

    /// The removal with the directory on top turned into `top`, waiting for
    /// `awaiting`.
    pub open spec fn with_top(self, top: FrameView, awaiting: Awaiting) -> RemovalView {
        RemovalView { frames: self.frames.drop_last().push(top), awaiting }
    }

    /// The removal going on with the directory on top: into the next of the
    /// directories found in it, or, when all of them are removed, to the
    /// deletion of the directory itself.
    pub open spec fn descend(self) -> (RemovalView, Course) {
        let top = self.top();
        if top.taken < top.children.len() {
            let child = top.children[top.taken as int];
            (
                RemovalView {
                    frames: self.frames.drop_last().push(
                        FrameView { taken: top.taken + 1, ..top },
                    ).push(FrameView { id: child.id@, children: Seq::empty(), taken: 0 }),
                    awaiting: Awaiting::NotesDeleted,
                },
                Course::Make(StatementView::DeleteNotes(child.id@)),
            )
        } else {
            (
                RemovalView { awaiting: Awaiting::DirectoryDeleted, ..self },
                Course::Make(StatementView::DeleteDirectory(top.id)),
            )
        }
    }

    /// The removal after the answer `answer`, and how it goes on. A failure
    /// of the database ends it, and so does an answer that does not fit.
    pub open spec fn next(self, answer: AnswerView) -> (RemovalView, Course) {
        let top = self.top();
        match (self.awaiting, answer) {
            (_, AnswerView::Failed(message)) => (self, Course::Failed(message)),
            (Awaiting::NotesDeleted, AnswerView::Done) => (
                RemovalView { awaiting: Awaiting::Directories, ..self },
                Course::Make(StatementView::SelectDirectories(top.id)),
            ),
            (Awaiting::Directories, AnswerView::Directories(found)) => self.with_top(
                FrameView { children: found, taken: 0, ..top },
                Awaiting::Directories,
            ).descend(),
            (Awaiting::DirectoryDeleted, AnswerView::Done) => (
                RemovalView { awaiting: Awaiting::Synced, ..self },
                Course::Make(StatementView::Sync),
            ),
            (Awaiting::Synced, AnswerView::Done) => if self.frames.len() <= 1 {
                (self, Course::Finished)
            } else {
                RemovalView { frames: self.frames.drop_last(), awaiting: Awaiting::Synced }.descend()
            },
            _ => (self, Course::Misfit),
        }
    }
}

/// The result `result` of a step of a removal says that it goes on as
/// `course` says.
pub open spec fn follows(result: Result<Option<Statement>, Error>, course: Course) -> bool {
    match course {
        Course::Make(statement) => result matches Ok(Some(made)) && statement.is(made),
        Course::Finished => result == Ok::<Option<Statement>, Error>(None),
        Course::Failed(message) => result matches Err(Error::Storage(text)) && text@ == message,
        Course::Misfit => result matches Err(Error::Wip(text)) && text@ == WRONG_ANSWER@,
    }
}

/// Begins the removal of the directory `directory_id` with all that lies in
/// it. The first statement deletes the notes in it.
pub fn remove_directory(directory_id: DirectoryId) -> (begun: (Removal, Statement))
    ensures
        begun.0@ == RemovalView::begun(directory_id@),
        begun.0@.wf(),
        begun.1 == (Statement::DeleteNotes { directory_id }),
{
    let mut frames: Vec<Frame> = Vec::new();
    frames.push(Frame { id: directory_id.clone(), children: Vec::new(), taken: 0 });
    let removal = Removal { frames, awaiting: Awaiting::NotesDeleted };
    assert(removal@.frames =~= RemovalView::begun(directory_id@).frames);
    (removal, Statement::DeleteNotes { directory_id })
}

impl Removal {
    /// Goes on with the directory on top.
    fn descend(&mut self) -> (statement: Statement)
        requires
            old(self)@.wf(),
        ensures
            final(self)@ == old(self)@.descend().0,
            final(self)@.wf(),
            old(self)@.descend().1 matches Course::Make(made) && made.is(statement),
    {
        let last = self.frames.len() - 1;
        let ghost before = self@;
        let taken = self.frames[last].taken;
        if taken < self.frames[last].children.len() {
            let child_id = self.frames[last].children[taken].id.clone();
            let mut top = self.frames.pop().unwrap();
            top.taken = taken + 1;
            self.frames.push(top);
            self.frames.push(Frame { id: child_id.clone(), children: Vec::new(), taken: 0 });
            self.awaiting = Awaiting::NotesDeleted;
            assert(self@.frames =~= before.descend().0.frames);
            Statement::DeleteNotes { directory_id: child_id }
        } else {
            self.awaiting = Awaiting::DirectoryDeleted;
            Statement::DeleteDirectory { id: self.frames[last].id.clone() }
        }
    }

    /// Takes the answer to the statement that was made last, and says how
    /// the removal goes on: with the next statement, or no further, because
    /// the directory is removed or because the database failed.
    ///
    /// In each directory the notes are deleted first, then the directories
    /// found in it are removed one after the other, each with all that lies
    /// in it, then the directory itself is deleted and the storage told to
    /// write that out.
    pub fn advance(&mut self, answer: Answer) -> (result: Result<Option<Statement>, Error>)
        requires
            old(self)@.wf(),
        ensures
            final(self)@ == old(self)@.next(answer@).0,
            final(self)@.wf(),
            follows(result, old(self)@.next(answer@).1),
    {
        let last = self.frames.len() - 1;
        let ghost before = self@;
        match (self.awaiting, answer) {
            (_, Answer::Failed(message)) => {
                Err(Error::Storage(message))
            },
            (Awaiting::NotesDeleted, Answer::Done) => {
                self.awaiting = Awaiting::Directories;
                Ok(Some(Statement::SelectDirectories { parent_id: self.frames[last].id.clone() }))
            },
            (Awaiting::Directories, Answer::Directories(found)) => {
                let ghost children = found@;
                let mut top = self.frames.pop().unwrap();
                top.children = found;
                top.taken = 0;
                self.frames.push(top);
                assert(self@.frames =~= before.with_top(
                    FrameView { children, taken: 0, ..before.top() },
                    Awaiting::Directories,
                ).frames);
                Ok(Some(self.descend()))
            },
            (Awaiting::DirectoryDeleted, Answer::Done) => {
                self.awaiting = Awaiting::Synced;
                Ok(Some(Statement::Sync))
            },
            (Awaiting::Synced, Answer::Done) => {
                if self.frames.len() <= 1 {
                    Ok(None)
                } else {
                    self.frames.pop();
                    assert(self@.frames =~= before.frames.drop_last());
                    Ok(Some(self.descend()))
                }
            },
            _ => {
                Err(Error::Wip(String::from_str(WRONG_ANSWER)))
            },
        }
    }
}

} // verus!
