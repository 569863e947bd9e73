//! A model of the database, and the removal of a directory run against it:
//! what the statements of a removal, made one after the other on the two
//! tables, leave of them.

use crate::data::{Directory, Note};
use crate::db::directory::{Awaiting, Course, FrameView, RemovalView, StatementView};
use crate::db::AnswerView;
use vstd::prelude::*;

verus! {

/// The two tables.
pub struct Store {
    pub directories: Seq<Directory>,
    pub notes: Seq<Note>,
}

/// The directory lies directly in the directory `id`.
pub open spec fn lies_in(directory: Directory, id: Seq<char>) -> bool {
    directory.parent_id matches Some(parent) && parent@ == id
}

/// The condition that a directory lies directly in `id`.
pub open spec fn lying_in(id: Seq<char>) -> spec_fn(Directory) -> bool {
    |d: Directory| lies_in(d, id)
}

/// The condition that a directory is not one of `gone`.
pub open spec fn directory_not(gone: Set<Seq<char>>) -> spec_fn(Directory) -> bool {
    |d: Directory| !gone.contains(d.id@)
}

/// The condition that a note lies in none of the directories `gone`.
pub open spec fn note_not_in(gone: Set<Seq<char>>) -> spec_fn(Note) -> bool {
    |n: Note| !gone.contains(n.directory_id@)
}

impl Store {
    /// The directories that lie directly in `id`, in the order of the table.
    pub open spec fn children(self, id: Seq<char>) -> Seq<Directory> {
        self.directories.filter(lying_in(id))
    }

    /// The store without the notes that lie directly in `id`.
    pub open spec fn without_notes(self, id: Seq<char>) -> Store {
        Store { notes: self.notes.filter(note_not_in(set![id])), ..self }
    }

    /// The store without the directory `id`.
    pub open spec fn without_directory(self, id: Seq<char>) -> Store {
        Store { directories: self.directories.filter(directory_not(set![id])), ..self }
    }

    /// What a statement of a removal makes of the store, and what the
    /// database answers.
    pub open spec fn execute(self, statement: StatementView) -> (Store, AnswerView) {
        match statement {
            StatementView::DeleteNotes(id) => (self.without_notes(id), AnswerView::Done),
            StatementView::SelectDirectories(id) => (self, AnswerView::Directories(self.children(id))),
            StatementView::DeleteDirectory(id) => (self.without_directory(id), AnswerView::Done),
            StatementView::Sync => (self, AnswerView::Done),
        }
    }

    /// The store after the removal of the directory `id` with all that lies
    /// in it, at most `depth` levels deep: without the notes in it, without
    /// what the removal of each directory in it takes, and without the
    /// directory itself.
    pub open spec fn removed(self, id: Seq<char>, depth: nat) -> Store
        decreases depth, 1nat, 0nat,
    {
        let emptied = self.without_notes(id);
        emptied.removed_each(emptied.children(id), 0, depth).without_directory(id)
    }

    /// The store after the removal of the directories `children` from index
    /// `from` on, one after the other.
    pub open spec fn removed_each(self, children: Seq<Directory>, from: nat, depth: nat) -> Store
        decreases depth, 0nat, children.len() - from,
    {
        if from >= children.len() || depth == 0 {
            self
        } else {
            self.removed(children[from as int].id@, (depth - 1) as nat).removed_each(
                children,
                from + 1,
                depth,
            )
        }
    }

    /// Nothing lies deeper in `id` than `depth` levels: the removal comes to
    /// an end within them.
    pub open spec fn shallow(self, id: Seq<char>, depth: nat) -> bool
        decreases depth, 1nat, 0nat,
    {
        let emptied = self.without_notes(id);
        emptied.shallow_each(emptied.children(id), 0, depth)
    }

    /// The removal of the directories `children` from index `from` on comes
    /// to an end within `depth` levels.
    pub open spec fn shallow_each(self, children: Seq<Directory>, from: nat, depth: nat) -> bool
        decreases depth, 0nat, children.len() - from,
    {
        if from >= children.len() {
            true
        } else if depth == 0 {
            false
        } else {
            let id = children[from as int].id@;
            self.shallow(id, (depth - 1) as nat) && self.removed(
                id,
                (depth - 1) as nat,
            ).shallow_each(children, from + 1, depth)
        }
    }

    /// How many statements the removal of `id` makes before the last one,
    /// which has the storage write out that `id` is deleted.
    pub open spec fn statements(self, id: Seq<char>, depth: nat) -> nat
        decreases depth, 1nat, 0nat,
    {
        let emptied = self.without_notes(id);
        3 + emptied.statements_each(emptied.children(id), 0, depth)
    }

    /// How many statements the removal of the directories `children` from
    /// index `from` on makes.
    pub open spec fn statements_each(self, children: Seq<Directory>, from: nat, depth: nat) -> nat
        decreases depth, 0nat, children.len() - from,
    {
        if from >= children.len() || depth == 0 {
            0
        } else {
            let id = children[from as int].id@;
            self.statements(id, (depth - 1) as nat) + 1 + self.removed(
                id,
                (depth - 1) as nat,
            ).statements_each(children, from + 1, depth)
        }
    }
}

/// A removal under way on a store: how far the removal has come, how it
/// goes on, and what the store holds.
pub struct Run {
    pub removal: RemovalView,
    pub course: Course,
    pub store: Store,
}

impl Run {
    /// The removal of `id` from `store`, about to make its first statement.
    pub open spec fn begun(store: Store, id: Seq<char>) -> Run {
        Run {
            removal: RemovalView::begun(id),
            course: Course::Make(StatementView::DeleteNotes(id)),
            store,
        }
    }

    /// The run after the statement that is due: the database makes it and
    /// answers, and the removal takes the answer. A run that has come to
    /// its end stays as it is.
    pub open spec fn step(self) -> Run {
        match self.course {
            Course::Make(statement) => {
                let (store, answer) = self.store.execute(statement);
                let (removal, course) = self.removal.next(answer);
                Run { removal, course, store }
            },
            _ => self,
        }
    }

    /// The run after `n` statements.
    pub open spec fn steps(self, n: nat) -> Run
        decreases n,
    {
        if n == 0 {
            self
        } else {
            self.step().steps((n - 1) as nat)
        }
    }
}

/// A directory of which the removal has just begun: none of its directories
/// is known yet.
pub open spec fn entered(id: Seq<char>) -> FrameView {
    FrameView { id, children: Seq::empty(), taken: 0 }
}

/// A directory of which all directories are removed.
pub open spec fn emptied(id: Seq<char>, children: Seq<Directory>) -> FrameView {
    FrameView { id, children, taken: children.len() }
}

/// Statements add up.
pub proof fn lemma_steps_add(run: Run, a: nat, b: nat)
    ensures
        run.steps(a + b) == run.steps(a).steps(b),
    decreases a,
{
    if a > 0 {
        lemma_steps_add(run.step(), (a - 1) as nat, b);
    }
}

/// The run right after the removal has gone on with the directory `id`, of
/// whose directories `children` the first `from` are taken up.
pub open spec fn descended(
    below: Seq<FrameView>,
    id: Seq<char>,
    children: Seq<Directory>,
    from: nat,
    store: Store,
) -> Run {
    let going = RemovalView {
        frames: below.push(FrameView { id, children, taken: from }),
        awaiting: Awaiting::Synced,
    }.descend();
    Run { removal: going.0, course: going.1, store }
}

/// The removal of one directory, from its first statement to the last but
/// one: whatever directories are being removed around it, it leaves them as
/// they are, and leaves of the store what `removed` says.
pub proof fn lemma_removal_runs(below: Seq<FrameView>, id: Seq<char>, store: Store, depth: nat)
    requires
        store.shallow(id, depth),
    ensures
        (Run {
            removal: RemovalView { frames: below.push(entered(id)), awaiting: Awaiting::NotesDeleted },
            course: Course::Make(StatementView::DeleteNotes(id)),
            store,
        }).steps(store.statements(id, depth)) == (Run {
            removal: RemovalView {
                frames: below.push(emptied(id, store.without_notes(id).children(id))),
                awaiting: Awaiting::Synced,
            },
            course: Course::Make(StatementView::Sync),
            store: store.removed(id, depth),
        }),
    decreases depth, 1nat, 0nat,
{
    let start = Run {
        removal: RemovalView { frames: below.push(entered(id)), awaiting: Awaiting::NotesDeleted },
        course: Course::Make(StatementView::DeleteNotes(id)),
        store,
    };
    let cleared = store.without_notes(id);
    let children = cleared.children(id);
    let inner = cleared.statements_each(children, 0, depth);
    // the notes are deleted
    let first = start.step();
    // the directories are fetched, and the removal goes on with the first
    let second = first.step();
    assert(below.push(entered(id)).drop_last().push(
        FrameView { children, taken: 0, ..entered(id) },
    ) =~= below.push(FrameView { id, children, taken: 0 }));
    lemma_each_runs(below, id, children, 0, cleared, depth);
    let third = second.steps(inner);
    // the directory is deleted
    let fourth = third.step();
    assert(start.steps(2) == second) by {
        assert(first.steps(1) == first.step().steps(0));
    }
    assert(third.steps(1) == fourth) by {
        assert(third.steps(1) == third.step().steps(0));
    }
    lemma_steps_add(start, 2, inner);
    lemma_steps_add(start, 2 + inner, 1);
}

/// The removal of the directories in one directory, one after the other,
/// up to the statement that deletes the directory itself.
pub proof fn lemma_each_runs(
    below: Seq<FrameView>,
    id: Seq<char>,
    children: Seq<Directory>,
    from: nat,
    store: Store,
    depth: nat,
)
    requires
        from <= children.len(),
        store.shallow_each(children, from, depth),
    ensures
        descended(below, id, children, from, store).steps(
            store.statements_each(children, from, depth),
        ) == (Run {
            removal: RemovalView {
                frames: below.push(emptied(id, children)),
                awaiting: Awaiting::DirectoryDeleted,
            },
            course: Course::Make(StatementView::DeleteDirectory(id)),
            store: store.removed_each(children, from, depth),
        }),
    decreases depth, 0nat, children.len() - from,
{
    let start = descended(below, id, children, from, store);
    let top = FrameView { id, children, taken: from };
    if from < children.len() {
        let child = children[from as int].id@;
        let around = below.push(FrameView { id, children, taken: from + 1 });
        assert(below.push(top).drop_last() =~= below);
        lemma_removal_runs(around, child, store, (depth - 1) as nat);
        let count = store.statements(child, (depth - 1) as nat);
        let done = start.steps(count);
        let after = store.removed(child, (depth - 1) as nat);
        // the storage writes out the deletion of the child, and the removal
        // goes on with the next
        let next = done.step();
        assert(done.removal.frames.drop_last() =~= around);
        lemma_each_runs(below, id, children, from + 1, after, depth);
        let rest = after.statements_each(children, from + 1, depth);
        assert(done.steps(1) == next) by {
            assert(done.steps(1) == done.step().steps(0));
        }
        lemma_steps_add(start, count, 1);
        lemma_steps_add(start, count + 1, rest);
    }
}

/// A removal comes to its end: on a store in which nothing lies deeper in
/// the directory than `depth` levels, the statements of the removal, made
/// one after the other, end with the directory removed, and leave of the
/// store what `removed` says.
pub proof fn lemma_removal_ends(store: Store, id: Seq<char>, depth: nat)
    requires
        store.shallow(id, depth),
    ensures
        Run::begun(store, id).steps(store.statements(id, depth) + 1).course == Course::Finished,
        Run::begun(store, id).steps(store.statements(id, depth) + 1).store == store.removed(
            id,
            depth,
        ),
{
    let start = Run::begun(store, id);
    let below = Seq::<FrameView>::empty();
    lemma_removal_runs(below, id, store, depth);
    let count = store.statements(id, depth);
    let done = start.steps(count);
    assert(done.steps(1) == done.step()) by {
        assert(done.steps(1) == done.step().steps(0));
    }
    lemma_steps_add(start, count, 1);
}


/// Filtering by one condition and then by another is filtering by both.
pub proof fn lemma_filter_twice<A>(
    s: Seq<A>,
    first: spec_fn(A) -> bool,
    second: spec_fn(A) -> bool,
    both: spec_fn(A) -> bool,
)
    requires
        forall|a: A| #[trigger] both(a) == (first(a) && second(a)),
    ensures
        s.filter(first).filter(second) == s.filter(both),
    decreases s.len(),
{
    reveal(Seq::filter);
    if s.len() > 0 {
        lemma_filter_twice(s.drop_last(), first, second, both);
        if first(s.last()) {
            assert(s.drop_last().filter(first).push(s.last()).drop_last() =~= s.drop_last().filter(
                first,
            ));
        }
    }
}

/// What is left after filtering was there before, and meets the condition;
/// and what was there and meets the condition is left.
pub proof fn lemma_filter_holds<A>(s: Seq<A>, keep: spec_fn(A) -> bool, a: A)
    ensures
        s.filter(keep).contains(a) == (s.contains(a) && keep(a)),
    decreases s.len(),
{
    reveal(Seq::filter);
    if s.len() > 0 {
        let rest = s.drop_last();
        lemma_filter_holds(rest, keep, a);
        if s.filter(keep).contains(a) {
            let i = choose|i: int| 0 <= i < s.filter(keep).len() && s.filter(keep)[i] == a;
            if !keep(s.last()) || i < s.filter(keep).len() - 1 {
                assert(rest.filter(keep)[i] == a);
            }
        }
        if s.contains(a) && keep(a) {
            let j = choose|j: int| 0 <= j < s.len() && s[j] == a;
            if j < s.len() - 1 {
                assert(rest[j] == a);
            }
        }
    }
}

impl Store {
    /// The store without the directories in `gone` and without the notes
    /// that lie directly in them.
    pub open spec fn without(self, gone: Set<Seq<char>>) -> Store {
        Store {
            directories: self.directories.filter(directory_not(gone)),
            notes: self.notes.filter(note_not_in(gone)),
        }
    }

    /// The directories that are `id` or lie in it, at most `depth` levels
    /// deep.
    pub open spec fn all_inside(self, id: Seq<char>, depth: nat) -> Set<Seq<char>> {
        Set::new(|x: Seq<char>| self.inside(x, id, depth))
    }

    /// The directories that the removal of `id` takes: `id`, and those that
    /// the removal of each directory in it takes.
    pub open spec fn taken(self, id: Seq<char>, depth: nat) -> Set<Seq<char>>
        decreases depth, 1nat, 0nat,
    {
        let emptied = self.without_notes(id);
        emptied.taken_each(emptied.children(id), 0, depth).insert(id)
    }

    /// The directories that the removal of `children` from index `from` on
    /// takes.
    pub open spec fn taken_each(self, children: Seq<Directory>, from: nat, depth: nat) -> Set<
        Seq<char>,
    >
        decreases depth, 0nat, children.len() - from,
    {
        if from >= children.len() || depth == 0 {
            Set::empty()
        } else {
            let id = children[from as int].id@;
            self.taken(id, (depth - 1) as nat).union(
                self.removed(id, (depth - 1) as nat).taken_each(children, from + 1, depth),
            )
        }
    }

    /// The directory `x` is `id`, or lies in it at most `depth` levels deep.
    pub open spec fn inside(self, x: Seq<char>, id: Seq<char>, depth: nat) -> bool
        decreases depth,
    {
        x == id || (depth > 0 && exists|i: int|
            0 <= i < self.directories.len() && lies_in(#[trigger] self.directories[i], id)
                && self.inside(x, self.directories[i].id@, (depth - 1) as nat))
    }

    /// The store without the directory `id` and all that lies in it, at most
    /// `depth` levels deep: without those directories, and without the notes
    /// in them.
    pub open spec fn without_all(self, id: Seq<char>, depth: nat) -> Store {
        self.without(self.all_inside(id, depth))
    }

    /// Every directory of the store lies less high than the directory it
    /// lies in: no directory lies in itself, however far down.
    pub open spec fn ranked(self, height: spec_fn(Seq<char>) -> nat) -> bool {
        forall|i: int|
            0 <= i < self.directories.len() ==> ((#[trigger] self.directories[i]).parent_id matches Some(
                parent,
            ) ==> height(self.directories[i].id@) < height(parent@))
    }

    /// Every directory of this store is one of `other`.
    pub open spec fn within(self, other: Store) -> bool {
        forall|d: Directory| self.directories.contains(d) ==> other.directories.contains(d)
    }
}

/// Taking `first` out and then `second` is taking both out.
pub proof fn lemma_without_twice(store: Store, first: Set<Seq<char>>, second: Set<Seq<char>>)
    ensures
        store.without(first).without(second) == store.without(first.union(second)),
{
    let both = first.union(second);
    lemma_filter_twice(
        store.directories,
        directory_not(first),
        directory_not(second),
        directory_not(both),
    );
    lemma_filter_twice(store.notes, note_not_in(first), note_not_in(second), note_not_in(both));
}

/// A removal takes out the directories that it takes, with the notes in
/// them, and leaves the rest of the store as it is.
pub proof fn lemma_removed_is_without(store: Store, id: Seq<char>, depth: nat)
    ensures
        store.removed(id, depth) == store.without(store.taken(id, depth)),
    decreases depth, 1nat, 0nat,
{
    let cleared = store.without_notes(id);
    let children = cleared.children(id);
    let inner = cleared.taken_each(children, 0, depth);
    lemma_removed_each_is_without(cleared, children, 0, depth);
    let all = inner.insert(id);
    lemma_filter_twice(
        store.directories,
        directory_not(inner),
        directory_not(set![id]),
        directory_not(all),
    );
    lemma_filter_twice(store.notes, note_not_in(set![id]), note_not_in(inner), note_not_in(all));
}

/// The removal of directories, one after the other, takes out the
/// directories that it takes, with the notes in them, and leaves the rest.
pub proof fn lemma_removed_each_is_without(
    store: Store,
    children: Seq<Directory>,
    from: nat,
    depth: nat,
)
    ensures
        store.removed_each(children, from, depth) == store.without(
            store.taken_each(children, from, depth),
        ),
    decreases depth, 0nat, children.len() - from,
{
    if from >= children.len() || depth == 0 {
        let nothing = Set::<Seq<char>>::empty();
        lemma_filter_all(store.directories, directory_not(nothing));
        lemma_filter_all(store.notes, note_not_in(nothing));
    } else {
        let id = children[from as int].id@;
        let after = store.removed(id, (depth - 1) as nat);
        lemma_removed_is_without(store, id, (depth - 1) as nat);
        lemma_removed_each_is_without(after, children, from + 1, depth);
        lemma_without_twice(
            store,
            store.taken(id, (depth - 1) as nat),
            after.taken_each(children, from + 1, depth),
        );
    }
}

/// Filtering by a condition that everything meets leaves everything.
pub proof fn lemma_filter_all<A>(s: Seq<A>, keep: spec_fn(A) -> bool)
    requires
        forall|a: A| #[trigger] keep(a),
    ensures
        s.filter(keep) == s,
    decreases s.len(),
{
    reveal(Seq::filter);
    if s.len() > 0 {
        lemma_filter_all(s.drop_last(), keep);
    }
}

/// What lies in a directory of a store lies in it in every store that holds
/// all the directories of the first.
pub proof fn lemma_inside_within(store: Store, other: Store, x: Seq<char>, id: Seq<char>, depth: nat)
    requires
        store.within(other),
        store.inside(x, id, depth),
    ensures
        other.inside(x, id, depth),
    decreases depth,
{
    if x != id {
        let i = choose|i: int|
            0 <= i < store.directories.len() && lies_in(#[trigger] store.directories[i], id)
                && store.inside(x, store.directories[i].id@, (depth - 1) as nat);
        let d = store.directories[i];
        assert(store.directories.contains(d));
        lemma_inside_within(store, other, x, d.id@, (depth - 1) as nat);
    }
}

/// A store without some directories lies within the store.
pub proof fn lemma_without_within(store: Store, gone: Set<Seq<char>>)
    ensures
        store.without(gone).within(store),
{
    assert forall|d: Directory| store.without(gone).directories.contains(d) implies store.directories.contains(
        d,
    ) by {
        lemma_filter_holds(store.directories, directory_not(gone), d);
    }
}

/// The directories found in a directory are directories of the store, and
/// lie in that directory; and every such directory is found.
pub proof fn lemma_children(store: Store, id: Seq<char>, d: Directory)
    ensures
        store.children(id).contains(d) == (store.directories.contains(d) && lies_in(d, id)),
        store.without_notes(id).children(id) == store.children(id),
{
    lemma_filter_holds(store.directories, lying_in(id), d);
}

/// A removal takes only directories that lie in the directory removed.
pub proof fn lemma_taken_inside(store: Store, id: Seq<char>, depth: nat, x: Seq<char>)
    requires
        store.taken(id, depth).contains(x),
    ensures
        store.inside(x, id, depth),
    decreases depth, 1nat, 0nat,
{
    if x != id {
        let cleared = store.without_notes(id);
        lemma_taken_each_inside(store, cleared, id, cleared.children(id), 0, depth, x);
    }
}

/// The removal of the directories found in a directory takes only
/// directories that lie in that directory.
pub proof fn lemma_taken_each_inside(
    store: Store,
    current: Store,
    id: Seq<char>,
    children: Seq<Directory>,
    from: nat,
    depth: nat,
    x: Seq<char>,
)
    requires
        current.within(store),
        children == store.children(id),
        current.taken_each(children, from, depth).contains(x),
    ensures
        store.inside(x, id, depth),
    decreases depth, 0nat, children.len() - from,
{
    if !(from >= children.len() || depth == 0) {
        let child = children[from as int];
        let after = current.removed(child.id@, (depth - 1) as nat);
        lemma_children(store, id, child);
        if current.taken(child.id@, (depth - 1) as nat).contains(x) {
            lemma_taken_inside(current, child.id@, (depth - 1) as nat, x);
            lemma_inside_within(current, store, x, child.id@, (depth - 1) as nat);
        } else {
            lemma_removed_is_without(current, child.id@, (depth - 1) as nat);
            lemma_without_within(current, current.taken(child.id@, (depth - 1) as nat));
            lemma_taken_each_inside(store, after, id, children, from + 1, depth, x);
        }
    }
}

/// The removal of directories, one after the other, takes each of them.
pub proof fn lemma_taken_each_has(
    store: Store,
    children: Seq<Directory>,
    from: nat,
    depth: nat,
    j: int,
)
    requires
        from <= j < children.len(),
        store.shallow_each(children, from, depth),
    ensures
        store.taken_each(children, from, depth).contains(children[j].id@),
    decreases children.len() - from,
{
    let first = children[from as int].id@;
    assert(store.taken(first, (depth - 1) as nat).contains(first));
    if j > from {
        lemma_taken_each_has(
            store.removed(children[from as int].id@, (depth - 1) as nat),
            children,
            from + 1,
            depth,
            j,
        );
    }
}

/// A removal takes every directory that lies directly in one it takes.
pub proof fn lemma_taken_closed(store: Store, id: Seq<char>, depth: nat, e: Directory, y: Seq<char>)
    requires
        store.shallow(id, depth),
        store.directories.contains(e),
        lies_in(e, y),
        store.taken(id, depth).contains(y),
    ensures
        store.taken(id, depth).contains(e.id@),
    decreases depth, 1nat, 0nat,
{
    let cleared = store.without_notes(id);
    let children = cleared.children(id);
    lemma_children(store, id, e);
    if y == id {
        let j = choose|j: int| 0 <= j < children.len() && children[j] == e;
        lemma_taken_each_has(cleared, children, 0, depth, j);
    } else {
        lemma_taken_each_closed(cleared, children, 0, depth, e, y);
    }
}

/// The removal of directories, one after the other, takes every directory
/// that lies directly in one it takes.
pub proof fn lemma_taken_each_closed(
    store: Store,
    children: Seq<Directory>,
    from: nat,
    depth: nat,
    e: Directory,
    y: Seq<char>,
)
    requires
        store.shallow_each(children, from, depth),
        store.directories.contains(e),
        lies_in(e, y),
        store.taken_each(children, from, depth).contains(y),
    ensures
        store.taken_each(children, from, depth).contains(e.id@),
    decreases depth, 0nat, children.len() - from,
{
    if !(from >= children.len() || depth == 0) {
        let child = children[from as int].id@;
        let taken = store.taken(child, (depth - 1) as nat);
        let after = store.removed(child, (depth - 1) as nat);
        if taken.contains(y) {
            lemma_taken_closed(store, child, (depth - 1) as nat, e, y);
        } else {
            lemma_removed_is_without(store, child, (depth - 1) as nat);
            lemma_filter_holds(store.directories, directory_not(taken), e);
            if after.directories.contains(e) {
                lemma_taken_each_closed(after, children, from + 1, depth, e, y);
            }
        }
    }
}

/// A removal takes every directory that lies in one it takes, however deep.
pub proof fn lemma_inside_taken(
    store: Store,
    id: Seq<char>,
    depth: nat,
    x: Seq<char>,
    y: Seq<char>,
    levels: nat,
)
    requires
        store.shallow(id, depth),
        store.taken(id, depth).contains(y),
        store.inside(x, y, levels),
    ensures
        store.taken(id, depth).contains(x),
    decreases levels,
{
    if x != y {
        let i = choose|i: int|
            0 <= i < store.directories.len() && lies_in(#[trigger] store.directories[i], y)
                && store.inside(x, store.directories[i].id@, (levels - 1) as nat);
        let e = store.directories[i];
        lemma_taken_closed(store, id, depth, e, y);
        lemma_inside_taken(store, id, depth, x, e.id@, (levels - 1) as nat);
    }
}

/// A store within a ranked store is ranked.
pub proof fn lemma_within_ranked(store: Store, other: Store, height: spec_fn(Seq<char>) -> nat)
    requires
        store.within(other),
        other.ranked(height),
    ensures
        store.ranked(height),
{
    assert forall|i: int| 0 <= i < store.directories.len() implies ((
    #[trigger] store.directories[i]).parent_id matches Some(parent) ==> height(
        store.directories[i].id@,
    ) < height(parent@)) by {
        let d = store.directories[i];
        assert(store.directories.contains(d));
    }
}

/// In a ranked store nothing lies deeper in a directory than the directory
/// lies high.
pub proof fn lemma_ranked_shallow(
    store: Store,
    id: Seq<char>,
    depth: nat,
    height: spec_fn(Seq<char>) -> nat,
)
    requires
        store.ranked(height),
        height(id) <= depth,
    ensures
        store.shallow(id, depth),
    decreases depth, 1nat, 0nat,
{
    let cleared = store.without_notes(id);
    let children = cleared.children(id);
    assert forall|j: int| 0 <= j < children.len() implies height((#[trigger] children[j]).id@)
        < height(id) by {
        let child = children[j];
        lemma_children(store, id, child);
    }
    lemma_ranked_shallow_each(cleared, id, children, 0, depth, height);
}

/// In a ranked store nothing lies deeper in directories than they lie high.
pub proof fn lemma_ranked_shallow_each(
    store: Store,
    id: Seq<char>,
    children: Seq<Directory>,
    from: nat,
    depth: nat,
    height: spec_fn(Seq<char>) -> nat,
)
    requires
        store.ranked(height),
        height(id) <= depth,
        forall|j: int| 0 <= j < children.len() ==> height((#[trigger] children[j]).id@) < height(id),
    ensures
        store.shallow_each(children, from, depth),
    decreases depth, 0nat, children.len() - from,
{
    if from < children.len() {
        let child = children[from as int].id@;
        lemma_ranked_shallow(store, child, (depth - 1) as nat, height);
        let after = store.removed(child, (depth - 1) as nat);
        lemma_removed_is_without(store, child, (depth - 1) as nat);
        lemma_without_within(store, store.taken(child, (depth - 1) as nat));
        lemma_within_ranked(after, store, height);
        lemma_ranked_shallow_each(after, id, children, from + 1, depth, height);
    }
}


/// In a store where nothing lies deeper in `id` than `depth` levels, the
/// removal of `id` takes exactly the directories that are `id` or lie in it.
pub proof fn lemma_taken_is_inside(store: Store, id: Seq<char>, depth: nat)
    requires
        store.shallow(id, depth),
    ensures
        store.taken(id, depth) == store.all_inside(id, depth),
{
    assert forall|x: Seq<char>| store.taken(id, depth).contains(x) == store.all_inside(
        id,
        depth,
    ).contains(x) by {
        if store.taken(id, depth).contains(x) {
            lemma_taken_inside(store, id, depth, x);
        }
        if store.inside(x, id, depth) {
            lemma_inside_taken(store, id, depth, x, id, depth);
        }
    }
}

/// The removal of a directory: on a store in which every directory lies
/// less high than the one it lies in, the statements of the removal of
/// `id`, made one after the other, come to an end with the directory
/// removed, and leave the store without `id`, without the directories that
/// lie in it, however deep, and without the notes in any of them. Every
/// other directory and every other note is left as it was, in its place.
pub proof fn law_removal(store: Store, id: Seq<char>, height: spec_fn(Seq<char>) -> nat)
    requires
        store.ranked(height),
    ensures
        ({
            let depth = height(id);
            let end = Run::begun(store, id).steps(store.statements(id, depth) + 1);
            &&& end.course == Course::Finished
            &&& end.store == store.without_all(id, depth)
        }),
{
    let depth = height(id);
    lemma_ranked_shallow(store, id, depth, height);
    lemma_removal_ends(store, id, depth);
    lemma_removed_is_without(store, id, depth);
    lemma_taken_is_inside(store, id, depth);
}

/// What a removal leaves: a directory is in the store afterwards if and
/// only if it was there before and neither is the directory removed nor
/// lies in it; a note, if and only if it was there before and lies in no
/// such directory.
pub proof fn law_removal_leaves(store: Store, id: Seq<char>, depth: nat, d: Directory, n: Note)
    ensures
        store.without_all(id, depth).directories.contains(d) == (store.directories.contains(d)
            && !store.inside(d.id@, id, depth)),
        store.without_all(id, depth).notes.contains(n) == (store.notes.contains(n) && !store.inside(
            n.directory_id@,
            id,
            depth,
        )),
{
    let gone = store.all_inside(id, depth);
    lemma_filter_holds(store.directories, directory_not(gone), d);
    lemma_filter_holds(store.notes, note_not_in(gone), n);
}

} // verus!
