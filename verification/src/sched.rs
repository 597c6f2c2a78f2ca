//! The cooperative scheduler. Tasks run one at a time and are never
//! interrupted; a task gives up the CPU only by waiting for something. The
//! scheduler keeps what each task waits for, decides which tasks a tick
//! resumes, and wakes the tasks whose wait is over. Switching to a task's
//! stack is the driver's part.

use vstd::prelude::*;

verus! {

/// Which way a task wants to use a socket.
#[derive(Clone, Copy, Debug, PartialEq, Eq, Structural)]
pub enum Direction {
    Readable,
    Writable,
}

/// What a task waits for.
#[derive(Clone, Copy, Debug, PartialEq, Eq)]
pub enum TaskState {
    /// Nothing: the task runs at the next tick.
    Runnable,
    /// The clock: the task went to sleep at `since` for `ms` milliseconds.
    Sleeping { since: u64, ms: u64 },
    /// A socket, by its handle, to become readable or writable.
    WaitingSocket(usize, Direction),
    /// A message in the mailbox.
    WaitingMailbox,
    /// A mutex, by its number, to become free.
    WaitingMutex(usize),
}

/// One task: its number, the size of its stack, and what it waits for.
#[derive(Clone, Copy, Debug, PartialEq, Eq)]
pub struct Task {
    pub id: usize,
    pub stack_bytes: usize,
    pub state: TaskState,
}

/// What happened outside the tasks since the last tick.
#[derive(Debug, PartialEq, Eq)]
pub struct Events {
    /// The time in milliseconds.
    pub now_ms: u64,
    /// The sockets that are ready, each with the way in which it is.
    pub sockets: Vec<(usize, Direction)>,
    /// Whether the mailbox holds a message.
    pub mailbox: bool,
    /// The mutexes that nobody holds.
    pub free_mutexes: Vec<usize>,
}

/// What became of a task that was resumed.
#[derive(Clone, Copy, Debug, PartialEq, Eq)]
pub enum Resumed {
    /// The task waits for this.
    Suspended(TaskState),
    /// The task's entry function returned, or the task panicked.
    Finished,
}

/// The tasks, in the order in which they were spawned.
pub struct Scheduler {
    tasks: Vec<Task>,
    spawned: usize,
}

/// The sleep that began at `since` for `ms` milliseconds is over at `now`.
pub open spec fn slept(since: u64, ms: u64, now: u64) -> bool {
    since + ms <= now
}

/// What a task in `state` waits for after `events`: nothing, if its wait is
/// over; what it waited for, if not.
pub open spec fn woken(state: TaskState, events: Events) -> TaskState {
    match state {
        TaskState::Runnable => TaskState::Runnable,
        TaskState::Sleeping { since, ms } => if slept(since, ms, events.now_ms) {
            TaskState::Runnable
        } else {
            state
        },
        TaskState::WaitingSocket(handle, direction) => if events.sockets@.contains(
            (handle, direction),
        ) {
            TaskState::Runnable
        } else {
            state
        },
        TaskState::WaitingMailbox => if events.mailbox {
            TaskState::Runnable
        } else {
            state
        },
        TaskState::WaitingMutex(mutex) => if events.free_mutexes@.contains(mutex) {
            TaskState::Runnable
        } else {
            state
        },
    }
}

/// `tasks` after `events`: each task as it was, waiting for what `woken` says.
pub open spec fn after_wake(tasks: Seq<Task>, events: Events) -> Seq<Task> {
    Seq::new(
        tasks.len(),
        |i: int| Task { id: tasks[i].id, stack_bytes: tasks[i].stack_bytes, state: woken(tasks[i].state, events) },
    )
}

/// The numbers of the tasks of `tasks` that wait for nothing, in their order.
pub open spec fn runnable(tasks: Seq<Task>) -> Seq<usize>
    decreases tasks.len(),
{
    if tasks.len() == 0 {
        Seq::empty()
    } else {
        let before = runnable(tasks.drop_last());
        if tasks.last().state == TaskState::Runnable {
            before.push(tasks.last().id)
        } else {
            before
        }
    }
}

/// The place of the task with the number `id` in `tasks`, or `tasks.len()`
/// where there is none.
pub open spec fn place_of(tasks: Seq<Task>, id: usize) -> int
    decreases tasks.len(),
{
    if tasks.len() == 0 {
        0
    } else if tasks[0].id == id {
        0
    } else {
        1 + place_of(tasks.subrange(1, tasks.len() as int), id)
    }
}

/// `tasks` after the task `id` was resumed and `outcome` became of it.
/// Nothing changes where no task has that number.
pub open spec fn after_resume(tasks: Seq<Task>, id: usize, outcome: Resumed) -> Seq<Task> {
    let place = place_of(tasks, id);
    if place >= tasks.len() {
        tasks
    } else {
        match outcome {
            Resumed::Suspended(state) => tasks.update(
                place,
                Task { id, stack_bytes: tasks[place].stack_bytes, state },
            ),
            Resumed::Finished => tasks.remove(place),
        }
    }
}

/// No two tasks have the same number, and every number is below `spawned`.
pub open spec fn numbered(tasks: Seq<Task>, spawned: usize) -> bool {
    &&& forall|i: int| 0 <= i < tasks.len() ==> (#[trigger] tasks[i]).id < spawned
    &&& forall|i: int, j: int|
        0 <= i < j < tasks.len() ==> (#[trigger] tasks[i]).id != (#[trigger] tasks[j]).id
}

/// The place of a number is a place, holds that number where it is one, and
/// no place before it does.
pub proof fn lemma_place_of(tasks: Seq<Task>, id: usize)
    ensures
        0 <= place_of(tasks, id) <= tasks.len(),
        place_of(tasks, id) < tasks.len() ==> tasks[place_of(tasks, id)].id == id,
        forall|i: int| 0 <= i < place_of(tasks, id) ==> (#[trigger] tasks[i]).id != id,
    decreases tasks.len(),
{
    if tasks.len() != 0 && tasks[0].id != id {
        let rest = tasks.subrange(1, tasks.len() as int);
        lemma_place_of(rest, id);
        assert forall|i: int| 0 <= i < place_of(tasks, id) implies (#[trigger] tasks[i]).id
            != id by {
            if i > 0 {
                assert(rest[i - 1].id != id);
            }
        }
    }
}

/// The task with the number `id` is in `tasks` and waits for nothing.
pub open spec fn ready(tasks: Seq<Task>, id: usize) -> bool {
    exists|i: int| 0 <= i < tasks.len() && (#[trigger] tasks[i]).id == id && tasks[i].state == TaskState::Runnable
}

/// A tick resumes exactly the tasks that wait for nothing: each of them is
/// in the list, and nothing else is.
pub proof fn lemma_runnable(tasks: Seq<Task>)
    ensures
        runnable(tasks).len() <= tasks.len(),
        forall|id: usize| ready(tasks, id) <==> #[trigger] runnable(tasks).contains(id),
    decreases tasks.len(),
{
    if tasks.len() != 0 {
        let front = tasks.drop_last();
        let last = tasks.last();
        lemma_runnable(front);
        let list = runnable(tasks);
        assert forall|id: usize| ready(tasks, id) implies #[trigger] list.contains(id) by {
            let i = choose|i: int|
                0 <= i < tasks.len() && (#[trigger] tasks[i]).id == id && tasks[i].state
                    == TaskState::Runnable;
            if i < front.len() {
                assert(front[i].id == id && front[i].state == TaskState::Runnable);
                assert(ready(front, id));
                assert(runnable(front).contains(id));
                let k = choose|k: int| 0 <= k < runnable(front).len() && runnable(front)[k] == id;
                assert(list[k] == id);
            } else {
                assert(list[list.len() - 1] == id);
            }
        }
        assert forall|id: usize| #[trigger] list.contains(id) implies ready(tasks, id) by {
            let k = choose|k: int| 0 <= k < list.len() && list[k] == id;
            if k < runnable(front).len() {
                assert(runnable(front)[k] == id);
                assert(runnable(front).contains(id));
                assert(ready(front, id));
                let i = choose|i: int|
                    0 <= i < front.len() && (#[trigger] front[i]).id == id && front[i].state
                        == TaskState::Runnable;
                assert(tasks[i].id == id && tasks[i].state == TaskState::Runnable);
            } else {
                let i = tasks.len() - 1;
                assert(tasks[i].id == id && tasks[i].state == TaskState::Runnable);
            }
        }
    } else {
        assert forall|id: usize| ready(tasks, id) <==> #[trigger] runnable(tasks).contains(id) by {
        }
    }
}

/// Where some task waits for nothing, the next tick resumes a task.
pub proof fn lemma_tick_makes_progress(tasks: Seq<Task>, i: int)
    requires
        0 <= i < tasks.len(),
        tasks[i].state == TaskState::Runnable,
    ensures
        runnable(tasks).len() > 0,
        runnable(tasks).contains(tasks[i].id),
{
    lemma_runnable(tasks);
    assert(ready(tasks, tasks[i].id));
    assert(runnable(tasks).contains(tasks[i].id));
}

/// A sleeping task sleeps through every wake-up before its time is up, and
/// the first wake-up at or after that time makes it runnable: it runs at the
/// tick that follows.
pub proof fn lemma_sleep_ends_on_time(tasks: Seq<Task>, i: int, events: Events)
    requires
        0 <= i < tasks.len(),
        tasks[i].state is Sleeping,
    ensures
        events.now_ms < tasks[i].state->since + tasks[i].state->ms ==> after_wake(
            tasks,
            events,
        )[i].state == tasks[i].state,
        events.now_ms >= tasks[i].state->since + tasks[i].state->ms ==> after_wake(
            tasks,
            events,
        )[i].state == TaskState::Runnable && runnable(after_wake(tasks, events)).contains(
            tasks[i].id,
        ),
{
    let woke = after_wake(tasks, events);
    if events.now_ms >= tasks[i].state->since + tasks[i].state->ms {
        lemma_tick_makes_progress(woke, i);
    }
}

/// Whether `list` holds the pair `(handle, direction)`.
fn socket_listed(list: &Vec<(usize, Direction)>, handle: usize, direction: Direction) -> (listed: bool)
    ensures
        listed == list@.contains((handle, direction)),
{
    let mut k: usize = 0;
    while k < list.len()
        invariant
            k <= list@.len(),
            forall|j: int| 0 <= j < k ==> list@[j] != (handle, direction),
        decreases list@.len() - k,
    {
        let entry = list[k];
        if entry.0 == handle && entry.1 == direction {
            assert(list@[k as int] == (handle, direction));
            return true;
        }
        k += 1;
    }
    false
}

/// Whether `list` holds `mutex`.
fn mutex_listed(list: &Vec<usize>, mutex: usize) -> (listed: bool)
    ensures
        listed == list@.contains(mutex),
{
    let mut k: usize = 0;
    while k < list.len()
        invariant
            k <= list@.len(),
            forall|j: int| 0 <= j < k ==> list@[j] != mutex,
        decreases list@.len() - k,
    {
        if list[k] == mutex {
            return true;
        }
        k += 1;
    }
    false
}

/// What a task in `state` waits for after `events`.
pub fn wake_state(state: TaskState, events: &Events) -> (next: TaskState)
    ensures
        next == woken(state, *events),
{
    match state {
        TaskState::Runnable => TaskState::Runnable,
        TaskState::Sleeping { since, ms } => {
            if events.now_ms >= since && events.now_ms - since >= ms {
                TaskState::Runnable
            } else {
                state
            }
        },
        TaskState::WaitingSocket(handle, direction) => {
            if socket_listed(&events.sockets, handle, direction) {
                TaskState::Runnable
            } else {
                state
            }
        },
        TaskState::WaitingMailbox => {
            if events.mailbox {
                TaskState::Runnable
            } else {
                state
            }
        },
        TaskState::WaitingMutex(mutex) => {
            if mutex_listed(&events.free_mutexes, mutex) {
                TaskState::Runnable
            } else {
                state
            }
        },
    }
}

impl View for Scheduler {
    type V = Seq<Task>;

    /// The tasks in the order in which they were spawned.
    closed spec fn view(&self) -> Seq<Task> {
        self.tasks@
    }
}

impl Scheduler {
    /// Every task has a number of its own.
    pub closed spec fn wf(&self) -> bool {
        numbered(self.tasks@, self.spawned)
    }

    /// How many tasks were spawned so far.
    pub closed spec fn spawned(&self) -> usize {
        self.spawned
    }

    /// A scheduler without tasks.
    pub fn new() -> (scheduler: Scheduler)
        ensures
            scheduler.wf(),
            scheduler@ == Seq::<Task>::empty(),
            scheduler.spawned() == 0,
    {
        Scheduler { tasks: Vec::new(), spawned: 0 }
    }

    /// Adds a task with a stack of `stack_bytes` bytes behind the others and
    /// returns its number. The task is runnable.
    pub fn spawn(&mut self, stack_bytes: usize) -> (id: usize)
        requires
            old(self).wf(),
            old(self).spawned() < usize::MAX,
        ensures
            final(self).wf(),
            id == old(self).spawned(),
            final(self).spawned() == id + 1,
            final(self)@ == old(self)@.push(Task { id, stack_bytes, state: TaskState::Runnable }),
    {
        let id = self.spawned;
        self.tasks.push(Task { id, stack_bytes, state: TaskState::Runnable });
        self.spawned = self.spawned + 1;
        id
    }

    /// Wakes every task whose wait is over after `events`.
    pub fn wake(&mut self, events: &Events)
        requires
            old(self).wf(),
        ensures
            final(self).wf(),
            final(self).spawned() == old(self).spawned(),
            final(self)@ == after_wake(old(self)@, *events),
    {
        let mut i: usize = 0;
        while i < self.tasks.len()
            invariant
                i <= self.tasks@.len(),
                self.tasks@.len() == old(self).tasks@.len(),
                self.spawned == old(self).spawned,
                forall|j: int|
                    0 <= j < self.tasks@.len() ==> (#[trigger] self.tasks@[j]).id == old(self).tasks@[j].id && self.tasks@[j].stack_bytes == old(self).tasks@[j].stack_bytes,
                forall|j: int|
                    0 <= j < i ==> (#[trigger] self.tasks@[j]).state == woken(
                        old(self).tasks@[j].state,
                        *events,
                    ),
                forall|j: int|
                    i <= j < self.tasks@.len() ==> (#[trigger] self.tasks@[j]).state == old(self).tasks@[j].state,
            decreases self.tasks@.len() - i,
        {
            let task = self.tasks[i];
            let state = wake_state(task.state, events);
            self.tasks[i] = Task { id: task.id, stack_bytes: task.stack_bytes, state };
            i += 1;
        }
        assert(self.tasks@ =~= after_wake(old(self).tasks@, *events));
    }

    /// One tick: the numbers of the tasks to resume, once each, in the order
    /// of the task list. These are the tasks that wait for nothing.
    pub fn run(&self) -> (schedule: Vec<usize>)
        ensures
            schedule@ == runnable(self@),
    {
        let mut schedule: Vec<usize> = Vec::new();
        let mut i: usize = 0;
        while i < self.tasks.len()
            invariant
                i <= self.tasks@.len(),
                schedule@ == runnable(self.tasks@.subrange(0, i as int)),
            decreases self.tasks@.len() - i,
        {
            proof {
                let upto = self.tasks@.subrange(0, i + 1);
                assert(upto.drop_last() =~= self.tasks@.subrange(0, i as int));
                assert(upto.last() == self.tasks@[i as int]);
            }
            match self.tasks[i].state {
                TaskState::Runnable => {
                    schedule.push(self.tasks[i].id);
                },
                _ => {},
            }
            i += 1;
        }
        assert(self.tasks@.subrange(0, i as int) =~= self.tasks@);
        schedule
    }

    /// Where the task `id` stands in the list, if it is there.
    fn find(&self, id: usize) -> (place: usize)
        ensures
            place == place_of(self.tasks@, id),
    {
        let mut i: usize = 0;
        assert(self.tasks@.subrange(0, self.tasks@.len() as int) =~= self.tasks@);
        while i < self.tasks.len()
            invariant
                i <= self.tasks@.len(),
                place_of(self.tasks@, id) == i + place_of(
                    self.tasks@.subrange(i as int, self.tasks@.len() as int),
                    id,
                ),
            decreases self.tasks@.len() - i,
        {
            let ghost rest = self.tasks@.subrange(i as int, self.tasks@.len() as int);
            assert(rest[0] == self.tasks@[i as int]);
            if self.tasks[i].id == id {
                return i;
            }
            assert(rest.subrange(1, rest.len() as int) =~= self.tasks@.subrange(
                i + 1,
                self.tasks@.len() as int,
            ));
            i += 1;
        }
        i
    }

    /// Records what became of the task `id` after it was resumed: what it
    /// waits for now, or that it is gone.
    pub fn resumed(&mut self, id: usize, outcome: Resumed)
        requires
            old(self).wf(),
        ensures
            final(self).wf(),
            final(self).spawned() == old(self).spawned(),
            final(self)@ == after_resume(old(self)@, id, outcome),
    {
        proof {
            lemma_place_of(self.tasks@, id);
        }
        let place = self.find(id);
        if place < self.tasks.len() {
            match outcome {
                Resumed::Suspended(state) => {
                    let stack_bytes = self.tasks[place].stack_bytes;
                    self.tasks[place] = Task { id, stack_bytes, state };
                },
                Resumed::Finished => {
                    self.tasks.remove(place);
                },
            }
        }
    }
}

/// A lock for the cooperative world: it is held by one task or by none.
#[derive(Clone, Copy, Debug, PartialEq, Eq)]
pub struct Mutex {
    pub owner: Option<usize>,
}

impl Mutex {
    /// A mutex that nobody holds.
    pub fn new() -> (mutex: Mutex)
        ensures
            mutex.owner is None,
    {
        Mutex { owner: None }
    }

    /// Gives the mutex to `task` if nobody holds it, and says whether it did.
    /// A task that is refused waits for the mutex.
    pub fn try_lock(&mut self, task: usize) -> (locked: bool)
        ensures
            locked == (old(self).owner is None),
            locked ==> final(self).owner == Some(task),
            !locked ==> final(self).owner == old(self).owner,
    {
        match self.owner {
            None => {
                self.owner = Some(task);
                true
            },
            Some(_) => false,
        }
    }

    /// Gives the mutex up if `task` holds it, and says whether it did. For
    /// any other task nothing changes.
    pub fn unlock(&mut self, task: usize) -> (unlocked: bool)
        ensures
            unlocked == (old(self).owner == Some(task)),
            unlocked ==> final(self).owner is None,
            !unlocked ==> final(self).owner == old(self).owner,
    {
        match self.owner {
            Some(owner) => {
                if owner == task {
                    self.owner = None;
                    true
                } else {
                    false
                }
            },
            None => false,
        }
    }
}

} // verus!
