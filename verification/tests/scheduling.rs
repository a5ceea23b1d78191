use pumpkin_world::column::Column;
use pumpkin_world::request::LoadRequest;
use pumpkin_world::scheduler::Scheduler;

fn request(x: i32, z: i32, radius: u32) -> LoadRequest {
    LoadRequest { origin: Column { x, z }, radius }
}

#[test]
fn idle_scheduler_steps_to_none() {
    let mut sched = Scheduler::new();
    assert!(sched.needs_admission());
    assert_eq!(sched.task_count(), 0);
    assert!(sched.step().is_none());
}

#[test]
fn two_requests_interleave_round_robin() {
    // Two radius-1 requests, two work units apiece: execution must
    // alternate one unit from each before either completes.
    let a = request(0, 0, 1);
    let b = request(100, 100, 1);
    let mut sched = Scheduler::new();
    sched.submit(a);
    sched.submit(b);
    sched.start_round();

    let origins: Vec<(i32, u32)> = std::iter::from_fn(|| sched.step())
        .map(|unit| (unit.terrain.origin.x, unit.distance))
        .collect();
    assert_eq!(origins, vec![(0, 0), (100, 0), (0, 1), (100, 1)]);
    assert_eq!(sched.task_count(), 0);
}

#[test]
fn each_of_n_ready_tasks_is_serviced_once_within_n_steps() {
    // Three tasks with three work units each: one round of three steps
    // services each task exactly once, in queue order.
    let mut sched = Scheduler::new();
    for x in [1, 2, 3] {
        sched.submit(request(x, 0, 2));
    }
    sched.start_round();
    let mut serviced = Vec::new();
    for _ in 0..3 {
        let unit = sched.step().expect("a work unit");
        serviced.push(unit.terrain.origin.x);
        assert!(!sched.needs_admission() || serviced.len() == 3);
    }
    assert_eq!(serviced, vec![1, 2, 3]);
    assert!(sched.needs_admission());
    assert_eq!(sched.task_count(), 3);
}

#[test]
fn task_with_k_units_drains_after_exactly_k_steps() {
    // A radius-1 request holds exactly two work units.
    let mut sched = Scheduler::new();
    sched.submit(request(5, 5, 1));
    sched.start_round();
    assert!(sched.step().is_some());
    assert_eq!(sched.task_count(), 1);
    assert!(sched.step().is_some());
    assert_eq!(sched.task_count(), 0);
    assert!(sched.step().is_none());
}

#[test]
fn requests_submitted_mid_round_wait_for_the_next_round() {
    let mut sched = Scheduler::new();
    sched.submit(request(1, 0, 2));
    sched.submit(request(2, 0, 2));
    sched.start_round();
    let first = sched.step().expect("unit of the first task");
    assert_eq!(first.terrain.origin.x, 1);
    // A late arrival joins the back of the queue: the already-queued task
    // is serviced before it.
    sched.submit(request(9, 0, 2));
    let second = sched.step().expect("unit of the second task");
    assert_eq!(second.terrain.origin.x, 2);
    assert!(sched.needs_admission());
    let third = sched.step().expect("unit of the re-queued first task");
    assert_eq!(third.terrain.origin.x, 1);
}

#[test]
fn countdown_tracks_the_fairness_window() {
    let mut sched = Scheduler::new();
    sched.submit(request(1, 0, 3));
    sched.submit(request(2, 0, 3));
    sched.start_round();
    assert!(!sched.needs_admission());
    sched.step();
    assert!(!sched.needs_admission());
    sched.step();
    assert!(sched.needs_admission());
}
