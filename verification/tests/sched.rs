use runtime::sched::{wake_state, Direction, Events, Mutex, Resumed, Scheduler, TaskState};

fn events(now_ms: u64) -> Events {
    Events { now_ms, sockets: vec![], mailbox: false, free_mutexes: vec![] }
}

#[test]
fn no_task_no_schedule() {
    let scheduler = Scheduler::new();
    assert_eq!(scheduler.run(), Vec::<usize>::new());
}

#[test]
fn spawned_tasks_are_numbered_in_order_and_runnable() {
    let mut scheduler = Scheduler::new();
    assert_eq!(scheduler.spawn(4096), 0);
    assert_eq!(scheduler.spawn(16384), 1);
    assert_eq!(scheduler.spawn(4096), 2);
    assert_eq!(scheduler.run(), vec![0, 1, 2]);
}

#[test]
fn tick_resumes_each_runnable_task_once_in_list_order() {
    let mut scheduler = Scheduler::new();
    for _ in 0..4 {
        scheduler.spawn(4096);
    }
    scheduler.resumed(1, Resumed::Suspended(TaskState::WaitingMailbox));
    scheduler.resumed(3, Resumed::Suspended(TaskState::Sleeping { since: 0, ms: 10 }));
    assert_eq!(scheduler.run(), vec![0, 2]);
    assert_eq!(scheduler.run(), vec![0, 2]);
}

#[test]
fn finished_task_is_removed() {
    let mut scheduler = Scheduler::new();
    scheduler.spawn(4096);
    scheduler.spawn(4096);
    scheduler.resumed(0, Resumed::Finished);
    assert_eq!(scheduler.run(), vec![1]);
    assert_eq!(scheduler.spawn(4096), 2);
    assert_eq!(scheduler.run(), vec![1, 2]);
}

#[test]
fn unknown_task_changes_nothing() {
    let mut scheduler = Scheduler::new();
    scheduler.spawn(4096);
    scheduler.resumed(7, Resumed::Finished);
    scheduler.resumed(7, Resumed::Suspended(TaskState::WaitingMailbox));
    assert_eq!(scheduler.run(), vec![0]);
}

#[test]
fn sleeper_wakes_at_its_deadline_and_not_before() {
    let mut scheduler = Scheduler::new();
    let id = scheduler.spawn(4096);
    scheduler.resumed(id, Resumed::Suspended(TaskState::Sleeping { since: 100, ms: 50 }));
    scheduler.wake(&events(149));
    assert_eq!(scheduler.run(), Vec::<usize>::new());
    scheduler.wake(&events(150));
    assert_eq!(scheduler.run(), vec![id]);
}

#[test]
fn sleep_beyond_the_clock_never_ends() {
    let sleeping = TaskState::Sleeping { since: u64::MAX, ms: 1 };
    assert_eq!(wake_state(sleeping, &events(u64::MAX)), sleeping);
    let whole = TaskState::Sleeping { since: 0, ms: u64::MAX };
    assert_eq!(wake_state(whole, &events(u64::MAX)), TaskState::Runnable);
}

#[test]
fn clock_before_the_sleep_began_does_not_wake() {
    let sleeping = TaskState::Sleeping { since: 100, ms: 0 };
    assert_eq!(wake_state(sleeping, &events(99)), sleeping);
    assert_eq!(wake_state(sleeping, &events(100)), TaskState::Runnable);
}

#[test]
fn socket_wakes_only_its_waiter() {
    let mut scheduler = Scheduler::new();
    let reader = scheduler.spawn(4096);
    let writer = scheduler.spawn(4096);
    let other = scheduler.spawn(4096);
    scheduler.resumed(reader, Resumed::Suspended(TaskState::WaitingSocket(3, Direction::Readable)));
    scheduler.resumed(writer, Resumed::Suspended(TaskState::WaitingSocket(3, Direction::Writable)));
    scheduler.resumed(other, Resumed::Suspended(TaskState::WaitingSocket(4, Direction::Readable)));
    let mut ready = events(0);
    ready.sockets = vec![(9, Direction::Readable), (3, Direction::Readable)];
    scheduler.wake(&ready);
    assert_eq!(scheduler.run(), vec![reader]);
    ready.sockets = vec![(3, Direction::Writable), (4, Direction::Writable)];
    scheduler.wake(&ready);
    assert_eq!(scheduler.run(), vec![reader, writer]);
}

#[test]
fn mailbox_wakes_its_waiter() {
    let mut scheduler = Scheduler::new();
    let id = scheduler.spawn(4096);
    scheduler.resumed(id, Resumed::Suspended(TaskState::WaitingMailbox));
    scheduler.wake(&events(0));
    assert_eq!(scheduler.run(), Vec::<usize>::new());
    let mut ready = events(0);
    ready.mailbox = true;
    scheduler.wake(&ready);
    assert_eq!(scheduler.run(), vec![id]);
}

#[test]
fn free_mutex_wakes_its_waiter() {
    let waiting = TaskState::WaitingMutex(2);
    let mut ready = events(0);
    ready.free_mutexes = vec![1];
    assert_eq!(wake_state(waiting, &ready), waiting);
    ready.free_mutexes = vec![1, 2];
    assert_eq!(wake_state(waiting, &ready), TaskState::Runnable);
}

#[test]
fn runnable_stays_runnable() {
    assert_eq!(wake_state(TaskState::Runnable, &events(0)), TaskState::Runnable);
}

#[test]
fn mutex_has_one_owner() {
    let mut mutex = Mutex::new();
    assert_eq!(mutex.owner, None);
    assert!(mutex.try_lock(1));
    assert_eq!(mutex.owner, Some(1));
    assert!(!mutex.try_lock(2));
    assert!(!mutex.try_lock(1));
    assert_eq!(mutex.owner, Some(1));
    assert!(!mutex.unlock(2));
    assert_eq!(mutex.owner, Some(1));
    assert!(mutex.unlock(1));
    assert_eq!(mutex.owner, None);
    assert!(!mutex.unlock(1));
    assert!(mutex.try_lock(2));
}
