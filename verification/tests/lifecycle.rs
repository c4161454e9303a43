use schedsim::process::{Process, ProcessState};

fn job(name: &str, arrival_time: i32, burst_time: i32) -> Process {
    Process::new(name.to_string(), arrival_time, burst_time)
}

#[test]
fn new_starts_inactive_with_zeroed_metrics() {
    let p = job("P1", 4, 7);
    assert_eq!(p.name, "P1");
    assert_eq!(p.arrival_time, 4);
    assert_eq!(p.burst_time, 7);
    assert_eq!(p.time_remaining, 7);
    assert_eq!(p.state, None);
    assert_eq!(p.turnaround_time, 0);
    assert_eq!(p.response_time, 0);
    assert_eq!(p.wait_time, 0);
    assert_eq!(p.finish_time, 0);
    assert_eq!(p.last_selection_time, None);
    assert!(!p.finished());
}

#[test]
fn new_takes_values_as_they_are() {
    let p = job("", -3, -5);
    assert_eq!(p.name, "");
    assert_eq!(p.arrival_time, -3);
    assert_eq!(p.burst_time, -5);
    assert_eq!(p.time_remaining, -5);
    assert!(!p.finished());
}

#[test]
fn zero_burst_is_finished_at_creation() {
    let mut p = job("idle", 0, 0);
    assert!(p.finished());
    p.deselect();
    assert_eq!(p.state, None);
    p.tick(0);
    assert_eq!(p.turnaround_time, 0);
    assert_eq!(p.time_remaining, 0);
}

#[test]
fn single_process_runs_to_completion() {
    let mut p = job("P1", 0, 3);

    p.select(0);
    p.tick(0);
    assert_eq!(p.time_remaining, 2);
    assert!(!p.finished());

    p.select(1);
    p.tick(1);
    assert_eq!(p.time_remaining, 1);
    assert!(!p.finished());

    p.select(2);
    p.tick(2);
    assert_eq!(p.time_remaining, 0);
    assert!(p.finished());
    assert_eq!(p.finish_time, 2);
    assert_eq!(p.turnaround_time, 3);
    assert_eq!(p.wait_time, 0);
    assert_eq!(p.response_time, 0);
    assert_eq!(p.state, None);
}

#[test]
fn two_processes_first_come_first_served() {
    let mut p1 = job("P1", 0, 2);
    let mut p2 = job("P2", 0, 1);

    for time in 0..2 {
        p1.select(time);
        p2.deselect();
        p1.tick(time);
        p2.tick(time);
    }
    assert!(p1.finished());
    assert_eq!(p1.finish_time, 1);
    assert_eq!(p1.wait_time, 0);
    assert_eq!(p1.turnaround_time, 2);

    p1.deselect();
    p2.select(2);
    p1.tick(2);
    p2.tick(2);

    assert!(p2.finished());
    assert_eq!(p2.wait_time, 2);
    assert_eq!(p2.response_time, 2);
    assert_eq!(p2.finish_time, 2);
    assert_eq!(p2.turnaround_time, 3);
    assert_eq!(p2.state, None);

    assert_eq!(p1.finish_time, 1);
    assert_eq!(p1.wait_time, 0);
    assert_eq!(p1.turnaround_time, 2);
    assert_eq!(p1.state, None);
}

#[test]
fn tick_on_inactive_process_changes_nothing() {
    let mut p = job("P1", 5, 4);
    for time in 0..5 {
        p.tick(time);
    }
    assert_eq!(p.time_remaining, 4);
    assert_eq!(p.state, None);
    assert_eq!(p.turnaround_time, 0);
    assert_eq!(p.wait_time, 0);
    assert_eq!(p.response_time, 0);
    assert_eq!(p.finish_time, 0);
}

#[test]
fn tick_after_finish_changes_nothing() {
    let mut p = job("P1", 0, 1);
    p.select(0);
    p.tick(0);
    assert!(p.finished());
    for time in 1..10 {
        p.deselect();
        p.tick(time);
        assert_eq!(p.state, None);
        assert_eq!(p.time_remaining, 0);
        assert_eq!(p.turnaround_time, 1);
        assert_eq!(p.wait_time, 0);
        assert_eq!(p.finish_time, 0);
        assert!(p.finished());
    }
}

#[test]
fn finish_time_is_the_clock_of_the_last_tick() {
    let mut p = job("late", 40, 2);
    p.select(41);
    p.tick(41);
    assert_eq!(p.finish_time, 0);
    p.select(42);
    p.tick(42);
    assert_eq!(p.finish_time, 42);
    assert_eq!(p.last_selection_time, Some(42));
}

#[test]
fn remaining_time_only_falls() {
    let mut p = job("P1", 0, 4);
    let mut last = p.time_remaining;
    for time in 0..12 {
        if time % 3 == 0 {
            p.deselect();
        } else if !p.finished() {
            p.select(time);
        }
        p.tick(time);
        assert!(p.time_remaining <= last);
        assert!(p.time_remaining >= 0);
        last = p.time_remaining;
    }
    assert_eq!(p.time_remaining, 0);
    assert_eq!(p.finish_time, 5);
}

#[test]
fn response_time_freezes_after_first_run() {
    let mut p = job("P1", 0, 3);
    p.deselect();
    p.tick(0);
    p.tick(1);
    assert_eq!(p.response_time, 2);
    assert_eq!(p.wait_time, 2);

    p.select(2);
    p.tick(2);
    assert_eq!(p.time_remaining, 2);
    assert_eq!(p.response_time, 2);

    p.deselect();
    p.tick(3);
    p.tick(4);
    p.tick(5);
    assert_eq!(p.state, Some(ProcessState::Ready));
    assert_eq!(p.response_time, 2);
    assert_eq!(p.wait_time, 5);
    assert_eq!(p.turnaround_time, 6);
}

#[test]
fn wait_and_turnaround_count_ready_and_active_ticks() {
    let mut p = job("P1", 0, 10);
    p.turnaround_time = 7;
    p.wait_time = 3;
    p.time_remaining = 6;
    // five active ticks, three of them ready
    let running = [false, true, false, false, true];
    for (time, run) in running.iter().enumerate() {
        if *run {
            p.select(time as i32);
        } else {
            p.deselect();
        }
        p.tick(time as i32);
    }
    assert_eq!(p.wait_time, 3 + 3);
    assert_eq!(p.turnaround_time, 7 + 5);
    assert_eq!(p.time_remaining, 6 - 2);
    assert_eq!(p.response_time, 0);
}

#[test]
fn turnaround_is_wait_plus_execution() {
    let mut p = job("P1", 0, 3);
    let running = [false, true, false, true, false, false, true];
    for (time, run) in running.iter().enumerate() {
        if *run {
            p.select(time as i32);
        } else {
            p.deselect();
        }
        p.tick(time as i32);
        assert_eq!(
            p.turnaround_time,
            p.wait_time + (p.burst_time - p.time_remaining)
        );
    }
    assert!(p.finished());
    assert_eq!(p.finish_time, 6);
    assert_eq!(p.wait_time, 4);
    assert_eq!(p.response_time, 1);
    assert_eq!(p.turnaround_time, 7);
}

#[test]
fn deselect_keeps_finished_process_inactive() {
    let mut p = job("P1", 0, 1);
    p.select(3);
    p.tick(3);
    assert!(p.finished());
    assert_eq!(p.state, None);
    p.deselect();
    assert_eq!(p.state, None);
    assert_eq!(p.finish_time, 3);
    assert_eq!(p.last_selection_time, Some(3));
}

#[test]
fn deselect_makes_unfinished_process_ready() {
    let mut p = job("P1", 0, 2);
    p.deselect();
    assert_eq!(p.state, Some(ProcessState::Ready));
    p.select(0);
    assert_eq!(p.state, Some(ProcessState::Running));
    p.deselect();
    assert_eq!(p.state, Some(ProcessState::Ready));
    assert_eq!(p.last_selection_time, Some(0));
    assert_eq!(p.time_remaining, 2);
}

#[test]
fn select_sets_running_and_records_time() {
    let mut p = job("P1", 0, 2);
    p.select(9);
    assert_eq!(p.state, Some(ProcessState::Running));
    assert_eq!(p.last_selection_time, Some(9));
    p.select(9);
    assert_eq!(p.state, Some(ProcessState::Running));
    assert_eq!(p.last_selection_time, Some(9));
    p.select(11);
    assert_eq!(p.last_selection_time, Some(11));
    assert_eq!(p.time_remaining, 2);
    assert_eq!(p.turnaround_time, 0);
}

#[test]
fn finished_is_zero_remaining_time() {
    let mut p = job("P1", 0, 2);
    assert!(!p.finished());
    p.time_remaining = 1;
    assert!(!p.finished());
    p.time_remaining = 0;
    assert!(p.finished());
    p.time_remaining = -1;
    assert!(!p.finished());
}

#[test]
fn arrived_from_arrival_time_on() {
    let p = job("P1", 5, 2);
    assert!(!p.arrived(i32::MIN));
    assert!(!p.arrived(4));
    assert!(p.arrived(5));
    assert!(p.arrived(6));
    assert!(p.arrived(i32::MAX));
    let early = job("P0", -2, 1);
    assert!(!early.arrived(-3));
    assert!(early.arrived(-2));
    assert!(early.arrived(0));
}

#[test]
fn clone_is_independent() {
    let mut p = job("P1", 0, 2);
    let before = p.clone();
    p.select(0);
    p.tick(0);
    assert_eq!(before.time_remaining, 2);
    assert_eq!(before.state, None);
    assert_eq!(before.name, "P1");
    assert_eq!(p.time_remaining, 1);
}

#[test]
fn states_compare_and_print() {
    assert_eq!(ProcessState::Ready, ProcessState::Ready);
    assert_ne!(ProcessState::Ready, ProcessState::Running);
    assert_eq!(format!("{:?}", ProcessState::Running), "Running");
    assert_eq!(format!("{:?}", ProcessState::Ready.clone()), "Ready");
}
