//! The collection of tasks: it hands out the ids, keeps the tasks in the
//! order in which they were added, and is the only place where they change.

use vstd::prelude::*;

use crate::naive_date_time_wrapper::{DateTime, NaiveDateTimeWrapper};
use crate::persistence;
use crate::persistence::{are_tasks_of, is_saved_form, reading_fails_at, PersistenceError};
use crate::task::{Task, TaskView};
use crate::task_status::TaskStatus;

verus! {

/// Whether one of the tasks has the id.
pub open spec fn has_id(tasks: Seq<TaskView>, id: int) -> bool {
    exists|i: int| 0 <= i < tasks.len() && (#[trigger] tasks[i]).id == id
}

/// Whether `i` is the place of the first task that has the id.
pub open spec fn first_with_id(tasks: Seq<TaskView>, id: int, i: int) -> bool {
    &&& 0 <= i < tasks.len()
    &&& tasks[i].id == id
    &&& forall|j: int| 0 <= j < i ==> (#[trigger] tasks[j]).id != id
}

/// The place of the first task that has the id, where one has it.
pub open spec fn position(tasks: Seq<TaskView>, id: int) -> int {
    choose|i: int| first_with_id(tasks, id, i)
}

/// Whether `m` is the highest id among the tasks, 0 standing for the highest
/// id of no tasks.
pub open spec fn is_highest_id(tasks: Seq<TaskView>, m: int) -> bool {
    &&& forall|i: int| 0 <= i < tasks.len() ==> (#[trigger] tasks[i]).id <= m
    &&& m == 0 || has_id(tasks, m)
}

/// No two tasks share an id.
pub open spec fn distinct_ids(tasks: Seq<TaskView>) -> bool {
    forall|i: int, j: int|
        0 <= i < tasks.len() && 0 <= j < tasks.len() && i != j ==> (#[trigger] tasks[i]).id != (
        #[trigger] tasks[j]).id
}

/// What a task list holds: the tasks in the order in which they were added,
/// and the counter, which is the last id that was handed out.
pub struct TaskListView {
    pub tasks: Seq<TaskView>,
    pub counter: int,
}

impl TaskListView {
    /// The list of a new run: no tasks, and no id handed out yet.
    pub open spec fn empty() -> TaskListView {
        TaskListView { tasks: Seq::empty(), counter: 0 }
    }

    /// Every task has an id of its own, and one that the counter has
    /// reached: the next id is new.
    pub open spec fn well_formed(self) -> bool {
        &&& 0 <= self.counter
        &&& distinct_ids(self.tasks)
        &&& forall|i: int| 0 <= i < self.tasks.len() ==> 1 <= (#[trigger] self.tasks[i]).id
            <= self.counter
    }

    /// The id that the next added task gets.
    pub open spec fn next_id(self) -> int {
        self.counter + 1
    }

    /// The list after a task with the title was added.
    pub open spec fn add(self, title: Seq<char>) -> TaskListView {
        TaskListView {
            tasks: self.tasks.push(TaskView::fresh(self.next_id(), title)),
            counter: self.next_id(),
        }
    }

    /// The task with the id: the first one, should several have it.
    pub open spec fn get(self, id: int) -> Option<TaskView> {
        if has_id(self.tasks, id) {
            Some(self.tasks[position(self.tasks, id)])
        } else {
            None
        }
    }

    /// The list with `task` in the place of the first task that has the id;
    /// the list as it is where no task has it.
    pub open spec fn replace(self, id: int, task: TaskView) -> TaskListView {
        if has_id(self.tasks, id) {
            TaskListView { tasks: self.tasks.update(position(self.tasks, id), task), ..self }
        } else {
            self
        }
    }

    /// The list after the description of the task with the id was set.
    pub open spec fn update_description(self, id: int, description: Seq<char>) -> TaskListView {
        self.replace(id, self.tasks[position(self.tasks, id)].with_description(description))
    }

    /// The list after the due date of the task with the id was set.
    pub open spec fn update_due_date(self, id: int, due_date: DateTime) -> TaskListView {
        self.replace(id, self.tasks[position(self.tasks, id)].with_due_date(due_date))
    }

    /// The list after the status of the task with the id was set.
    pub open spec fn update_status(self, id: int, status: TaskStatus) -> TaskListView {
        self.replace(id, self.tasks[position(self.tasks, id)].with_status(status))
    }

    /// The list after the first task with the id was taken out; the list as
    /// it is where no task has it.
    pub open spec fn delete(self, id: int) -> TaskListView {
        if has_id(self.tasks, id) {
            TaskListView { tasks: self.tasks.remove(position(self.tasks, id)), ..self }
        } else {
            self
        }
    }
}

/// The first place at which an id occurs is the only place that is a first
/// one, so `position` finds it.
pub proof fn lemma_position_is_first(tasks: Seq<TaskView>, id: int, i: int)
    requires
        first_with_id(tasks, id, i),
    ensures
        has_id(tasks, id),
        position(tasks, id) == i,
{
    let p = position(tasks, id);
    assert(first_with_id(tasks, id, p));
    if p < i {
        assert(tasks[p].id != id);
    } else if i < p {
        assert(tasks[i].id != id);
    }
}

/// Where a task has the id, there is a first one: `position` names it.
pub proof fn lemma_position_exists(tasks: Seq<TaskView>, id: int)
    requires
        has_id(tasks, id),
    ensures
        first_with_id(tasks, id, position(tasks, id)),
{
    let k = choose|k: int| 0 <= k < tasks.len() && (#[trigger] tasks[k]).id == id;
    lemma_first_up_to(tasks, id, k);
}

/// Where the task at `k` has the id, some task up to `k` is the first that
/// has it.
proof fn lemma_first_up_to(tasks: Seq<TaskView>, id: int, k: int)
    requires
        0 <= k < tasks.len(),
        tasks[k].id == id,
    ensures
        exists|i: int| first_with_id(tasks, id, i),
    decreases k,
{
    if exists|j: int| 0 <= j < k && (#[trigger] tasks[j]).id == id {
        let j = choose|j: int| 0 <= j < k && (#[trigger] tasks[j]).id == id;
        lemma_first_up_to(tasks, id, j);
    } else {
        assert(first_with_id(tasks, id, k));
    }
}

/// One change to a task list.
pub enum ListOp {
    /// A task with the title is added.
    Add { title: Seq<char> },
    /// The description of the task with the id is set.
    UpdateDescription { id: int, description: Seq<char> },
    /// The due date of the task with the id is set.
    UpdateDueDate { id: int, due_date: DateTime },
    /// The status of the task with the id is set.
    UpdateStatus { id: int, status: TaskStatus },
    /// The task with the id is deleted.
    Delete { id: int },
}

impl TaskListView {
    /// The list after one change.
    pub open spec fn apply(self, op: ListOp) -> TaskListView {
        match op {
            ListOp::Add { title } => self.add(title),
            ListOp::UpdateDescription { id, description } => self.update_description(
                id,
                description,
            ),
            ListOp::UpdateDueDate { id, due_date } => self.update_due_date(id, due_date),
            ListOp::UpdateStatus { id, status } => self.update_status(id, status),
            ListOp::Delete { id } => self.delete(id),
        }
    }

    /// The list after a run of changes, the first of them made first.
    pub open spec fn apply_all(self, ops: Seq<ListOp>) -> TaskListView
        decreases ops.len(),
    {
        if ops.len() == 0 {
            self
        } else {
            self.apply_all(ops.drop_last()).apply(ops.last())
        }
    }
}

/// How many of the changes add a task.
pub open spec fn count_adds(ops: Seq<ListOp>) -> nat
    decreases ops.len(),
{
    if ops.len() == 0 {
        0
    } else if ops.last() is Add {
        count_adds(ops.drop_last()) + 1
    } else {
        count_adds(ops.drop_last())
    }
}

/// Ids count up by one from add to add, whatever updates and deletes come
/// between: after a run of changes of which `n` add a task, the next task
/// that is added gets the id `counter + n + 1`, where `counter` is what the
/// counter was before the run. So no add returns an id that an earlier add
/// of the run returned.
pub proof fn lemma_ids_count_up(list: TaskListView, ops: Seq<ListOp>)
    ensures
        list.apply_all(ops).counter == list.counter + count_adds(ops),
        list.apply_all(ops).next_id() == list.counter + count_adds(ops) + 1,
    decreases ops.len(),
{
    if ops.len() > 0 {
        lemma_ids_count_up(list, ops.drop_last());
    }
}

/// The adds of a run of changes are the adds of its two parts.
proof fn lemma_count_adds_splits(ops: Seq<ListOp>, j: int)
    requires
        0 <= j <= ops.len(),
    ensures
        count_adds(ops) == count_adds(ops.take(j)) + count_adds(ops.skip(j)),
    decreases ops.len(),
{
    if j == ops.len() {
        assert(ops.take(j) =~= ops);
        assert(ops.skip(j) =~= Seq::<ListOp>::empty());
    } else {
        lemma_count_adds_splits(ops.drop_last(), j);
        assert(ops.drop_last().take(j) =~= ops.take(j));
        assert(ops.drop_last().skip(j) =~= ops.skip(j).drop_last());
        assert(ops.skip(j).last() == ops.last());
    }
}

/// The id that the change at `k` of a run returns, should it add a task:
/// the next id of the list as the changes before it leave it.
pub open spec fn returned_id(list: TaskListView, ops: Seq<ListOp>, k: int) -> int {
    list.apply_all(ops.take(k)).next_id()
}

/// Of two adds of a run of changes, the later one returns the higher id:
/// higher by the number of adds from the earlier one up to it. Two adds
/// with no add between them return ids that differ by one, whatever
/// updates and deletes stand between them.
pub proof fn lemma_later_add_returns_higher_id(
    list: TaskListView,
    ops: Seq<ListOp>,
    j: int,
    k: int,
)
    requires
        0 <= j < k < ops.len(),
        ops[j] is Add,
        ops[k] is Add,
    ensures
        returned_id(list, ops, k) == returned_id(list, ops, j) + count_adds(ops.subrange(j, k)),
        count_adds(ops.subrange(j, k)) == 1 + count_adds(ops.subrange(j + 1, k)),
        returned_id(list, ops, k) > returned_id(list, ops, j),
{
    lemma_ids_count_up(list, ops.take(j));
    lemma_ids_count_up(list, ops.take(k));
    lemma_count_adds_splits(ops.take(k), j);
    assert(ops.take(k).take(j) =~= ops.take(j));
    assert(ops.take(k).skip(j) =~= ops.subrange(j, k));
    let between = ops.subrange(j, k);
    lemma_count_adds_splits(between, 1);
    assert(between.skip(1) =~= ops.subrange(j + 1, k));
    assert(between.take(1).drop_last() =~= Seq::<ListOp>::empty());
    assert(between.take(1).last() == ops[j]);
    assert(count_adds(between.take(1).drop_last()) == 0);
}

/// A change keeps a list well formed: the ids stay distinct, and none is
/// beyond the counter.
pub proof fn lemma_apply_keeps_well_formed(list: TaskListView, op: ListOp)
    requires
        list.well_formed(),
    ensures
        list.apply(op).well_formed(),
{
    let after = list.apply(op);
    match op {
        ListOp::Add { title } => {
            assert forall|i: int, j: int|
                0 <= i < after.tasks.len() && 0 <= j < after.tasks.len() && i != j implies (
            #[trigger] after.tasks[i]).id != (#[trigger] after.tasks[j]).id by {
                if i < list.tasks.len() {
                    assert(after.tasks[i] == list.tasks[i]);
                }
                if j < list.tasks.len() {
                    assert(after.tasks[j] == list.tasks[j]);
                }
            }
            assert forall|i: int| 0 <= i < after.tasks.len() implies 1 <= (
            #[trigger] after.tasks[i]).id <= after.counter by {
                if i < list.tasks.len() {
                    assert(after.tasks[i] == list.tasks[i]);
                }
            }
        },
        ListOp::Delete { id } => {
            if has_id(list.tasks, id) {
                lemma_position_exists(list.tasks, id);
                let p = position(list.tasks, id);
                assert forall|i: int| 0 <= i < after.tasks.len() implies (
                #[trigger] after.tasks[i]) == list.tasks[if i < p {
                    i
                } else {
                    i + 1
                }] by {}
                assert forall|i: int, j: int|
                    0 <= i < after.tasks.len() && 0 <= j < after.tasks.len() && i != j implies (
                #[trigger] after.tasks[i]).id != (#[trigger] after.tasks[j]).id by {
                    let i0 = if i < p {
                        i
                    } else {
                        i + 1
                    };
                    let j0 = if j < p {
                        j
                    } else {
                        j + 1
                    };
                    assert(list.tasks[i0].id != list.tasks[j0].id);
                }
            }
        },
        _ => {
            let id = match op {
                ListOp::UpdateDescription { id, .. } => id,
                ListOp::UpdateDueDate { id, .. } => id,
                ListOp::UpdateStatus { id, .. } => id,
                _ => 0,
            };
            if has_id(list.tasks, id) {
                lemma_position_exists(list.tasks, id);
                assert forall|i: int| 0 <= i < after.tasks.len() implies (
                #[trigger] after.tasks[i]).id == list.tasks[i].id by {}
                assert forall|i: int, j: int|
                    0 <= i < after.tasks.len() && 0 <= j < after.tasks.len() && i != j implies (
                #[trigger] after.tasks[i]).id != (#[trigger] after.tasks[j]).id by {
                    assert(list.tasks[i].id != list.tasks[j].id);
                }
            }
        },
    }
}

/// A run of changes keeps a list well formed: however adds, updates and
/// deletes are mixed, no two tasks of the list share an id.
pub proof fn lemma_well_formed_is_kept(list: TaskListView, ops: Seq<ListOp>)
    requires
        list.well_formed(),
    ensures
        list.apply_all(ops).well_formed(),
    decreases ops.len(),
{
    if ops.len() > 0 {
        lemma_well_formed_is_kept(list, ops.drop_last());
        lemma_apply_keeps_well_formed(list.apply_all(ops.drop_last()), ops.last());
    }
}

/// Deleting a task leaves the ids of the others distinct.
pub proof fn lemma_delete_keeps_distinct_ids(list: TaskListView, id: int)
    requires
        distinct_ids(list.tasks),
    ensures
        distinct_ids(list.delete(id).tasks),
{
    let after = list.delete(id);
    if has_id(list.tasks, id) {
        lemma_position_exists(list.tasks, id);
        let p = position(list.tasks, id);
        assert forall|i: int, j: int|
            0 <= i < after.tasks.len() && 0 <= j < after.tasks.len() && i != j implies (
        #[trigger] after.tasks[i]).id != (#[trigger] after.tasks[j]).id by {
            let i0 = if i < p {
                i
            } else {
                i + 1
            };
            let j0 = if j < p {
                j
            } else {
                j + 1
            };
            assert(after.tasks[i] == list.tasks[i0]);
            assert(after.tasks[j] == list.tasks[j0]);
            assert(list.tasks[i0].id != list.tasks[j0].id);
        }
    }
}

/// Setting a field of a task leaves the ids distinct.
pub proof fn lemma_replace_keeps_distinct_ids(list: TaskListView, id: int, task: TaskView)
    requires
        distinct_ids(list.tasks),
        task.id == id,
    ensures
        distinct_ids(list.replace(id, task).tasks),
{
    let after = list.replace(id, task);
    if has_id(list.tasks, id) {
        lemma_position_exists(list.tasks, id);
        assert forall|i: int, j: int|
            0 <= i < after.tasks.len() && 0 <= j < after.tasks.len() && i != j implies (
        #[trigger] after.tasks[i]).id != (#[trigger] after.tasks[j]).id by {
            assert(after.tasks[i].id == list.tasks[i].id);
            assert(after.tasks[j].id == list.tasks[j].id);
        }
    }
}

/// Once a task is deleted, its id finds nothing: a list whose tasks have
/// ids of their own holds no second task with it.
pub proof fn lemma_deleted_task_is_gone(list: TaskListView, id: int)
    requires
        distinct_ids(list.tasks),
    ensures
        list.delete(id).get(id) is None,
{
    let after = list.delete(id);
    if has_id(list.tasks, id) {
        lemma_position_exists(list.tasks, id);
        let p = position(list.tasks, id);
        assert forall|i: int| 0 <= i < after.tasks.len() implies (#[trigger] after.tasks[i]).id
            != id by {
            let i0 = if i < p {
                i
            } else {
                i + 1
            };
            assert(after.tasks[i] == list.tasks[i0]);
            assert(list.tasks[i0].id != list.tasks[p].id);
        }
    }
}

/// Deleting an id that no task has changes nothing: the tasks and their
/// order stay, and so does the counter.
pub proof fn lemma_delete_of_unknown_id(list: TaskListView, id: int)
    requires
        !has_id(list.tasks, id),
    ensures
        list.delete(id) == list,
{
}

/// Updating a task that is not there changes nothing, whichever field the
/// update is for.
pub proof fn lemma_update_of_unknown_id(
    list: TaskListView,
    id: int,
    description: Seq<char>,
    due_date: DateTime,
    status: TaskStatus,
)
    requires
        !has_id(list.tasks, id),
    ensures
        list.update_description(id, description) == list,
        list.update_due_date(id, due_date) == list,
        list.update_status(id, status) == list,
{
}

/// The tasks of a run, in the order in which they were added.
pub struct TaskList {
    pub tasks: Vec<Task>,
    task_counter: usize,
}

impl View for TaskList {
    type V = TaskListView;

    closed spec fn view(&self) -> TaskListView {
        TaskListView {
            tasks: self.tasks.deep_view(),
            counter: self.task_counter as int,
        }
    }
}

impl TaskList {
    /// The ids and the counter of a list are numbers that `usize` holds:
    /// none is negative.
    pub proof fn lemma_view_fits(self)
        ensures
            0 <= self@.counter <= usize::MAX,
            forall|i: int|
                0 <= i < self@.tasks.len() ==> 0 <= (#[trigger] self@.tasks[i]).id <= usize::MAX,
    {
    }

    /// An empty list whose first task will get the id 1.
    pub fn new() -> (res: TaskList)
        ensures
            res@ == TaskListView::empty(),
    {
        let res = TaskList { tasks: Vec::new(), task_counter: 0 };
        assert(res@.tasks =~= Seq::empty());
        res
    }

    /// Adds a task with the title at the end of the list and returns its id,
    /// which is one more than the counter was. The new task has no
    /// description and no due date and is not started. The title is taken
    /// as it is, also an empty one.
    pub fn add_task(&mut self, title: String) -> (id: usize)
        requires
            old(self)@.counter < usize::MAX,
        ensures
            id == old(self)@.next_id(),
            final(self)@ == old(self)@.add(title@),
            old(self)@.well_formed() ==> final(self)@.well_formed(),
    {
        proof {
            if self@.well_formed() {
                lemma_apply_keeps_well_formed(self@, ListOp::Add { title: title@ });
            }
        }
        self.task_counter += 1;
        let task = Task::new(self.task_counter, title);
        self.tasks.push(task);
        assert(self@.tasks =~= old(self)@.add(title@).tasks);
        self.task_counter
    }

    /// The place of the first task with the id, if a task has it.
    fn find(&self, task_id: usize) -> (res: Option<usize>)
        ensures
            match res {
                Some(i) => first_with_id(self@.tasks, task_id as int, i as int) && position(
                    self@.tasks,
                    task_id as int,
                ) == i && has_id(self@.tasks, task_id as int),
                None => !has_id(self@.tasks, task_id as int),
            },
    {
        let mut i: usize = 0;
        while i < self.tasks.len()
            invariant
                i <= self.tasks.len(),
                forall|j: int| 0 <= j < i ==> (#[trigger] self@.tasks[j]).id != task_id,
            decreases self.tasks.len() - i,
        {
            if self.tasks[i].id == task_id {
                proof {
                    lemma_position_is_first(self@.tasks, task_id as int, i as int);
                }
                return Some(i);
            }
            i += 1;
        }
        None
    }

    /// Sets the description of the task with the id. Where no task has the
    /// id, nothing changes.
    pub fn update_task_description(&mut self, task_id: usize, description: String)
        ensures
            final(self)@ == old(self)@.update_description(task_id as int, description@),
            !has_id(old(self)@.tasks, task_id as int) ==> final(self)@ == old(self)@,
            old(self)@.well_formed() ==> final(self)@.well_formed(),
            distinct_ids(old(self)@.tasks) ==> distinct_ids(final(self)@.tasks),
    {
        proof {
            if distinct_ids(self@.tasks) && has_id(self@.tasks, task_id as int) {
                lemma_position_exists(self@.tasks, task_id as int);
                lemma_replace_keeps_distinct_ids(
                    self@,
                    task_id as int,
                    self@.tasks[position(self@.tasks, task_id as int)].with_description(
                        description@,
                    ),
                );
            }
            if self@.well_formed() {
                lemma_apply_keeps_well_formed(
                    self@,
                    ListOp::UpdateDescription { id: task_id as int, description: description@ },
                );
            }
        }
        if let Some(i) = self.find(task_id) {
            self.tasks[i].set_description(description);
            assert(self@.tasks =~= old(self)@.update_description(
                task_id as int,
                description@,
            ).tasks);
        }
    }

    /// Sets the due date of the task with the id. Where no task has the id,
    /// nothing changes.
    pub fn update_task_due_date(&mut self, task_id: usize, due_date: NaiveDateTimeWrapper)
        ensures
            final(self)@ == old(self)@.update_due_date(task_id as int, due_date@),
            !has_id(old(self)@.tasks, task_id as int) ==> final(self)@ == old(self)@,
            old(self)@.well_formed() ==> final(self)@.well_formed(),
            distinct_ids(old(self)@.tasks) ==> distinct_ids(final(self)@.tasks),
    {
        proof {
            if distinct_ids(self@.tasks) && has_id(self@.tasks, task_id as int) {
                lemma_position_exists(self@.tasks, task_id as int);
                lemma_replace_keeps_distinct_ids(
                    self@,
                    task_id as int,
                    self@.tasks[position(self@.tasks, task_id as int)].with_due_date(due_date@),
                );
            }
            if self@.well_formed() {
                lemma_apply_keeps_well_formed(
                    self@,
                    ListOp::UpdateDueDate { id: task_id as int, due_date: due_date@ },
                );
            }
        }
        if let Some(i) = self.find(task_id) {
            self.tasks[i].set_due_date(due_date);
            assert(self@.tasks =~= old(self)@.update_due_date(task_id as int, due_date@).tasks);
        }
    }

    /// Sets the status of the task with the id, whatever it was before.
    /// Where no task has the id, nothing changes.
    pub fn update_task_status(&mut self, task_id: usize, status: TaskStatus)
        ensures
            final(self)@ == old(self)@.update_status(task_id as int, status),
            !has_id(old(self)@.tasks, task_id as int) ==> final(self)@ == old(self)@,
            old(self)@.well_formed() ==> final(self)@.well_formed(),
            distinct_ids(old(self)@.tasks) ==> distinct_ids(final(self)@.tasks),
    {
        proof {
            if distinct_ids(self@.tasks) && has_id(self@.tasks, task_id as int) {
                lemma_position_exists(self@.tasks, task_id as int);
                lemma_replace_keeps_distinct_ids(
                    self@,
                    task_id as int,
                    self@.tasks[position(self@.tasks, task_id as int)].with_status(status),
                );
            }
            if self@.well_formed() {
                lemma_apply_keeps_well_formed(
                    self@,
                    ListOp::UpdateStatus { id: task_id as int, status },
                );
            }
        }
        if let Some(i) = self.find(task_id) {
            self.tasks[i].set_status(status);
            assert(self@.tasks =~= old(self)@.update_status(task_id as int, status).tasks);
        }
    }

    /// Takes the first task with the id out of the list; the others keep
    /// their order. Fails, and changes nothing, where no task has the id.
    /// The counter stays as it is: the id is not handed out again.
    pub fn delete_task(&mut self, task_id: usize) -> (res: Result<(), ()>)
        ensures
            res is Ok <==> has_id(old(self)@.tasks, task_id as int),
            final(self)@ == old(self)@.delete(task_id as int),
            res is Err ==> final(self)@ == old(self)@,
            old(self)@.well_formed() ==> final(self)@.well_formed(),
            distinct_ids(old(self)@.tasks) ==> distinct_ids(final(self)@.tasks),
            distinct_ids(old(self)@.tasks) ==> final(self)@.get(task_id as int) is None,
    {
        proof {
            if self@.well_formed() {
                lemma_apply_keeps_well_formed(self@, ListOp::Delete { id: task_id as int });
            }
            if distinct_ids(self@.tasks) {
                lemma_delete_keeps_distinct_ids(self@, task_id as int);
                lemma_deleted_task_is_gone(self@, task_id as int);
            }
        }
        if let Some(i) = self.find(task_id) {
            self.tasks.remove(i);
            assert(self@.tasks =~= old(self)@.delete(task_id as int).tasks);
            Ok(())
        } else {
            Err(())
        }
    }

    /// The first task with the id, if a task has it.
    pub fn get_task_by_id(&self, task_id: usize) -> (res: Option<&Task>)
        ensures
            match res {
                Some(task) => self@.get(task_id as int) == Some(task@),
                None => self@.get(task_id as int) is None,
            },
    {
        match self.find(task_id) {
            Some(i) => Some(&self.tasks[i]),
            None => None,
        }
    }

    /// Writes the tasks as rows for the task file: see
    /// `persistence::save_tasks_to_csv`.
    pub fn save_tasks_to_csv(&self) -> (res: Vec<Vec<String>>)
        ensures
            is_saved_form(res.deep_view(), self@.tasks),
    {
        persistence::save_tasks_to_csv(&self.tasks)
    }

    /// Reads tasks from the rows of the task file: see
    /// `persistence::load_tasks_from_csv`. The list itself stays as it is.
    pub fn load_tasks_from_csv(&self, rows: &Vec<Vec<String>>) -> (res: Result<
        Vec<Task>,
        PersistenceError,
    >)
        ensures
            match res {
                Ok(tasks) => are_tasks_of(tasks.deep_view(), rows.deep_view()),
                Err(error) => exists|i: int|
                    #[trigger] reading_fails_at(rows.deep_view(), i, error),
            },
    {
        persistence::load_tasks_from_csv(rows)
    }

    /// Takes up a saved list again: the tasks as they were read, and for
    /// the counter the saved one, or the highest id among the tasks where
    /// that is more. Where the tasks have ids of their own, none of them 0,
    /// the list is well formed: the next id is new.
    pub fn restore(tasks: Vec<Task>, task_counter: usize) -> (res: TaskList)
        ensures
            res@.tasks == tasks.deep_view(),
            res@.counter >= task_counter,
            forall|i: int|
                0 <= i < res@.tasks.len() ==> (#[trigger] res@.tasks[i]).id <= res@.counter,
            res@.counter == task_counter || has_id(res@.tasks, res@.counter),
            distinct_ids(res@.tasks) && !has_id(res@.tasks, 0) ==> res@.well_formed(),
    {
        let mut res = TaskList { tasks, task_counter };
        let highest = res.get_highest_task_id();
        if highest > task_counter {
            res.task_counter = highest;
        }
        res
    }

    /// The number of tasks.
    pub fn len(&self) -> (res: usize)
        ensures
            res == self@.tasks.len(),
    {
        self.tasks.len()
    }

    /// Whether there is no task.
    pub fn is_empty(&self) -> (res: bool)
        ensures
            res == (self@.tasks.len() == 0),
    {
        self.tasks.len() == 0
    }

    /// Sets the counter, as when a saved list is taken up again. The tasks
    /// stay as they are.
    pub fn update_task_counter(&mut self, task_counter: usize)
        ensures
            final(self)@ == (TaskListView { counter: task_counter as int, ..old(self)@ }),
    {
        self.task_counter = task_counter;
    }

    /// The counter: the last id that was handed out, or what it was set to.
    pub fn get_task_counter(&self) -> (res: usize)
        ensures
            res == self@.counter,
    {
        self.task_counter
    }

    /// The highest id among the tasks, 0 where there are none. Where there
    /// are tasks, one of them has the id that is returned.
    pub fn get_highest_task_id(&self) -> (res: usize)
        ensures
            is_highest_id(self@.tasks, res as int),
            self@.tasks.len() > 0 ==> has_id(self@.tasks, res as int),
            self@.tasks.len() == 0 ==> res == 0,
    {
        let mut highest_task_id: usize = 0;
        let mut i: usize = 0;
        while i < self.tasks.len()
            invariant
                i <= self.tasks.len(),
                forall|j: int| 0 <= j < i ==> (#[trigger] self@.tasks[j]).id <= highest_task_id,
                highest_task_id == 0 || has_id(self@.tasks, highest_task_id as int),
                i > 0 ==> has_id(self@.tasks, highest_task_id as int),
                i == 0 ==> highest_task_id == 0,
            decreases self.tasks.len() - i,
        {
            if self.tasks[i].id > highest_task_id {
                highest_task_id = self.tasks[i].id;
                assert(self@.tasks[i as int].id == highest_task_id);
            } else if i == 0 {
                assert(self@.tasks[0].id == highest_task_id);
            }
            i += 1;
        }
        highest_task_id
    }
}

impl Default for TaskList {
    fn default() -> (res: TaskList)
        ensures
            res@ == TaskListView::empty(),
    {
        TaskList::new()
    }
}

} // verus!
