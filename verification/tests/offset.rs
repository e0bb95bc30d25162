use autobright::dispatch::Invocation;
use autobright::offset::{menu_entries, Autobright, MenuAction, MenuEntry, Reply, MENU_STEP};
use std::sync::Mutex;

fn shows(offset: &str) -> Invocation {
    Invocation {
        program: String::from("notify-send"),
        args: vec![
            String::from("--app-name=Autobrightd"),
            format!("Brightness Offset is: {}", offset),
        ],
    }
}

#[test]
fn starts_at_the_default_offset() {
    assert_eq!(Autobright::new(0).offset(), 0);
    assert_eq!(Autobright::new(-12).offset(), -12);
}

#[test]
fn adjust_returns_the_new_offset() {
    let mut state = Autobright::new(3);
    assert_eq!(state.adjust(4), 7);
    assert_eq!(state.offset(), 7);
    assert_eq!(state.adjust(-10), -3);
    assert_eq!(state.offset(), -3);
    assert_eq!(state.adjust(0), -3);
}

#[test]
fn increase_adds_and_reports_ok() {
    let mut state = Autobright::new(0);
    assert_eq!(state.increase(10).status, "Ok");
    assert_eq!(state.offset(), 10);
    assert_eq!(state.increase(-3).status, "Ok");
    assert_eq!(state.offset(), 7);
}

#[test]
fn decrease_subtracts_and_reports_ok() {
    let mut state = Autobright::new(0);
    assert_eq!(state.decrease(10).status, "Ok");
    assert_eq!(state.offset(), -10);
    assert_eq!(state.decrease(-3).status, "Ok");
    assert_eq!(state.offset(), -7);
}

#[test]
fn remote_calls_ask_for_the_new_offset_to_be_shown() {
    let mut state = Autobright::new(2);
    assert_eq!(state.increase(10), Reply { status: String::from("Ok"), notification: shows("12") });
    assert_eq!(state.decrease(20), Reply { status: String::from("Ok"), notification: shows("-8") });
    assert_eq!(state.increase(0), Reply { status: String::from("Ok"), notification: shows("-8") });
}

#[test]
fn offset_reaches_the_ends_of_its_range() {
    let mut state = Autobright::new(i32::MAX - 1);
    state.increase(1);
    assert_eq!(state.offset(), i32::MAX);
    let mut state = Autobright::new(i32::MIN + 1);
    state.decrease(1);
    assert_eq!(state.offset(), i32::MIN);
    let mut state = Autobright::new(-1);
    state.decrease(i32::MIN);
    assert_eq!(state.offset(), i32::MAX);
}

#[test]
fn offset_has_no_bounds_of_its_own() {
    let mut state = Autobright::new(0);
    state.increase(100000);
    assert_eq!(state.offset(), 100000);
    state.decrease(300000);
    assert_eq!(state.offset(), -200000);
}

#[test]
fn menu_entries_move_the_offset_by_the_step() {
    assert_eq!(MENU_STEP, 5);
    let mut state = Autobright::new(1);
    assert_eq!(state.select(MenuEntry::Increase), MenuAction::Notify(shows("6")));
    assert_eq!(state.offset(), 6);
    assert_eq!(state.select(MenuEntry::Decrease), MenuAction::Notify(shows("1")));
    assert_eq!(state.select(MenuEntry::Decrease), MenuAction::Notify(shows("-4")));
    assert_eq!(state.offset(), -4);
}

#[test]
fn quit_leaves_the_offset_alone() {
    let mut state = Autobright::new(42);
    assert_eq!(state.select(MenuEntry::Quit), MenuAction::Quit);
    assert_eq!(state.offset(), 42);
}

#[test]
fn menu_lists_three_entries_in_order() {
    assert_eq!(menu_entries(), vec![MenuEntry::Increase, MenuEntry::Decrease, MenuEntry::Quit]);
    assert_eq!(MenuEntry::Increase.label(), "Increase");
    assert_eq!(MenuEntry::Decrease.label(), "Decrease");
    assert_eq!(MenuEntry::Quit.label(), "Quit");
}

#[test]
fn adjustments_add_up() {
    let deltas = [5, -3, 10, 0, -20, 7, 7, -1];
    let mut state = Autobright::new(4);
    let mut sum = 0;
    for d in deltas {
        sum += d;
        assert_eq!(state.adjust(d), 4 + sum);
    }
    assert_eq!(state.offset(), 4 + 5);
}

#[test]
fn interleaved_callers_lose_no_update() {
    // Three callers, woven together in two different ways: the same end.
    let remote = [10, -4, 3];
    let menu = [5, 5, -5];
    let other = [-1, -1];
    let expected = 7 + 9 + 5 - 2;

    let mut state = Autobright::new(7);
    state.increase(remote[0]);
    state.select(MenuEntry::Increase);
    state.adjust(other[0]);
    state.decrease(-remote[1]);
    state.select(MenuEntry::Increase);
    state.increase(remote[2]);
    state.adjust(other[1]);
    state.select(MenuEntry::Decrease);
    assert_eq!(state.offset(), expected);

    let mut state = Autobright::new(7);
    for d in other {
        state.adjust(d);
    }
    for d in menu {
        state.adjust(d);
    }
    for d in remote {
        state.adjust(d);
    }
    assert_eq!(state.offset(), expected);
}

#[test]
fn every_schedule_of_three_callers_ends_alike() {
    let queues: [Vec<i32>; 3] = [
        (0..200).map(|i| 3 + i % 7).collect(),
        (0..150).map(|i| -(i % 5)).collect(),
        (0..100).map(|i| if i % 2 == 0 { 5 } else { -5 }).collect(),
    ];
    let expected: i32 = 11 + queues.iter().map(|q| q.iter().sum::<i32>()).sum::<i32>();
    let mut seed: u64 = 0x2545F4914F6CDD1D;
    for _ in 0..50 {
        let shared = Mutex::new(Autobright::new(11));
        let mut next = [0usize; 3];
        while next.iter().zip(queues.iter()).any(|(n, q)| *n < q.len()) {
            seed = seed.wrapping_mul(6364136223846793005).wrapping_add(1442695040888963407);
            let caller = ((seed >> 33) % 3) as usize;
            if next[caller] < queues[caller].len() {
                shared.lock().unwrap().adjust(queues[caller][next[caller]]);
                next[caller] += 1;
            }
        }
        assert_eq!(shared.lock().unwrap().offset(), expected);
    }
}
