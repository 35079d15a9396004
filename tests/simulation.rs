use life_core::cells::LivingSet;
use life_core::clock::{is_click, LoopState, CLICK_TIME};
use life_core::life::compute_step;
use life_core::simulation::{State, StateChanges, DEFAULT_INTERVAL};
use life_core::vector::Vector2;
use life_core::worker::{create_worker, ComputeWorker, DummyWorker, PlatformWorker, PlatformWorkerError};

fn inline_state<V>() -> State<impl ComputeWorker<LivingSet, LivingSet>, V> {
    State::new(DummyWorker::new(|s: LivingSet| compute_step(&s)).unwrap())
}

fn cells(s: &State<impl ComputeWorker<LivingSet, LivingSet>, impl Sized>) -> Vec<(i32, i32)> {
    let mut v: Vec<(i32, i32)> = s.living_cells().iter().map(|c| (c.x, c.y)).collect();
    v.sort();
    v
}

#[test]
fn new_state_is_empty_and_stopped() {
    let s = inline_state::<()>();
    assert_eq!(s.get_living_count(), 0);
    assert_eq!(s.step_count(), 0);
    assert_eq!(s.living_count_history(), &vec![0]);
    assert!(s.toggle_record().is_empty());
    assert!(!s.is_playing());
    assert_eq!(s.get_interval(), DEFAULT_INTERVAL);
}

#[test]
fn set_interval_changes_interval() {
    let mut s = inline_state::<()>();
    s.set_interval(1234);
    assert_eq!(s.get_interval(), 1234);
}

#[test]
fn toggle_applies_at_once_when_idle() {
    let mut s = inline_state::<()>();
    s.toggle_cell(Vector2::new(2, 3));
    assert_eq!(cells(&s), vec![(2, 3)]);
    assert_eq!(s.get_living_count(), 1);
    assert_eq!(s.toggle_record(), &vec![0]);
    let changes = s.update(0);
    let mut shown: Vec<(i32, i32)> = changes.cells.unwrap().iter().map(|c| (c.x, c.y)).collect();
    shown.sort();
    assert_eq!(shown, vec![(2, 3)]);
    assert!(!s.update(0).has_changes());
}

#[test]
fn toggle_twice_restores_cells() {
    let mut s = inline_state::<()>();
    s.toggle_cell(Vector2::new(0, 0));
    s.toggle_cell(Vector2::new(5, 5));
    s.toggle_cell(Vector2::new(5, 5));
    assert_eq!(cells(&s), vec![(0, 0)]);
    // The same while a step is out.
    s.step().unwrap();
    s.toggle_cell(Vector2::new(9, 9));
    s.toggle_cell(Vector2::new(9, 9));
    assert_eq!(cells(&s), vec![(0, 0)]);
    s.update(0);
    assert_eq!(cells(&s), Vec::<(i32, i32)>::new());
}

#[test]
fn step_applies_on_update() {
    let mut s = inline_state::<()>();
    for x in 0..3 {
        s.toggle_cell(Vector2::new(x, 0));
    }
    assert_eq!(s.step(), Ok(true));
    assert_eq!(s.step(), Ok(false));
    // The result lands only with the next update.
    assert_eq!(cells(&s), vec![(0, 0), (1, 0), (2, 0)]);
    let changes = s.update(0);
    assert!(changes.cells.is_some());
    assert_eq!(cells(&s), vec![(1, -1), (1, 0), (1, 1)]);
    assert_eq!(s.step_count(), 1);
    assert_eq!(s.living_count_history(), &vec![0, 3]);
    assert_eq!(s.get_living_count(), 3);
}

#[test]
fn deferred_actions_apply_in_order() {
    let mut s = inline_state::<()>();
    s.toggle_cell(Vector2::new(10, 10));
    s.step().unwrap();
    s.toggle_cell(Vector2::new(1, 1));
    s.clear();
    s.toggle_cell(Vector2::new(4, -4));
    // Nothing applied while the step is out.
    assert_eq!(cells(&s), vec![(10, 10)]);
    s.update(0);
    assert_eq!(cells(&s), vec![(4, -4)]);
    assert_eq!(s.step_count(), 0);
    assert_eq!(s.living_count_history(), &vec![0]);
    assert_eq!(s.toggle_record(), &vec![0]);
}

#[test]
fn clear_when_idle_resets_everything() {
    let mut s = inline_state::<()>();
    s.toggle_cell(Vector2::new(0, 0));
    s.step().unwrap();
    s.update(0);
    assert_eq!(s.step_count(), 1);
    s.clear();
    assert_eq!(s.get_living_count(), 0);
    assert_eq!(s.step_count(), 0);
    assert_eq!(s.living_count_history(), &vec![0]);
    assert!(s.toggle_record().is_empty());
}

#[test]
fn load_then_toggle_while_computing() {
    let mut s = inline_state::<&'static str>();
    s.step().unwrap();
    let saved = LivingSet::from_cells(&vec![Vector2::new(7, 7), Vector2::new(8, 8)]);
    s.load_save(saved, "view");
    s.toggle_cell(Vector2::new(7, 7));
    let changes = s.update(0);
    assert_eq!(cells(&s), vec![(8, 8)]);
    assert_eq!(changes.view, Some("view"));
}

#[test]
fn load_when_idle_replaces_state() {
    let mut s = inline_state::<u8>();
    s.toggle_cell(Vector2::new(1, 2));
    s.load_save(LivingSet::from_cells(&vec![Vector2::new(-3, 3)]), 9);
    assert_eq!(cells(&s), vec![(-3, 3)]);
    assert!(s.toggle_record().is_empty());
    assert_eq!(s.update(0).view, Some(9));
}

#[test]
fn playing_steps_once_per_interval() {
    let mut s = inline_state::<()>();
    for x in 0..3 {
        s.toggle_cell(Vector2::new(x, 0));
    }
    s.toggle_playing(1_000);
    assert!(s.is_playing());
    s.update(1_000);
    assert_eq!(s.step_count(), 1);
    // Not yet an interval later.
    s.update(1_000 + DEFAULT_INTERVAL - 1);
    assert_eq!(s.step_count(), 1);
    // Many intervals later: still a single step.
    s.update(1_000 + 10 * DEFAULT_INTERVAL);
    assert_eq!(s.step_count(), 2);
    assert_eq!(cells(&s), vec![(0, 0), (1, 0), (2, 0)]);
    s.toggle_playing(5_000_000);
    assert!(!s.is_playing());
    s.update(50_000_000);
    assert_eq!(s.step_count(), 2);
}

#[test]
fn worker_error_is_reported() {
    let (work_tx, work_rx) = std::sync::mpsc::sync_channel(1);
    let (_res_tx, res_rx) = std::sync::mpsc::sync_channel(1);
    drop(work_rx);
    let mut s: State<_, ()> = State::new(create_worker(
        Ok(PlatformWorker::new(work_tx, res_rx)),
        |x: LivingSet| x,
    ));
    assert_eq!(s.step(), Err(PlatformWorkerError::Disconnected));
    s.toggle_playing(0);
    let changes = s.update(0);
    assert_eq!(changes.worker_error, Some(PlatformWorkerError::Disconnected));
}

#[test]
fn changes_merge_and_clear() {
    let mut a: StateChanges<u8> = StateChanges::new();
    assert!(!a.has_changes());
    let mut b: StateChanges<u8> = StateChanges::new();
    b.view = Some(3);
    a.cells = Some(vec![Vector2::new(1, 1)]);
    a.add_assign(b);
    assert_eq!(a.view, Some(3));
    assert_eq!(a.cells.as_ref().map(|v| v.len()), Some(1));
    let mut c: StateChanges<u8> = StateChanges::new();
    c.worker_error = Some(PlatformWorkerError::MessagePostFailed);
    a.add_assign(c);
    assert_eq!(a.view, Some(3));
    assert!(a.has_changes());
    a.clear();
    assert!(!a.has_changes());
}

#[test]
fn loop_state_timing() {
    let mut l = LoopState::new();
    assert!(!l.is_playing());
    assert!(!l.update(10, 0));
    l = LoopState::Playing { last_update: 100 };
    assert!(!l.should_step(150, 100));
    assert!(l.should_step(200, 100));
    assert!(!l.should_step(50, 1));
    assert!(l.update(250, 100));
    assert_eq!(l, LoopState::Playing { last_update: 250 });
    assert!(!l.update(300, 100));
    assert_eq!(l, LoopState::Playing { last_update: 250 });
}

#[test]
fn click_or_pan() {
    assert!(is_click(1_000, 1_000 + CLICK_TIME - 1, true));
    assert!(!is_click(1_000, 1_000 + CLICK_TIME, true));
    assert!(!is_click(1_000, 1_050, false));
    assert_eq!(CLICK_TIME, 150_000);
}

#[test]
fn clear_and_load_surface_in_changes() {
    let mut s = inline_state::<u8>();
    s.toggle_cell(Vector2::new(1, 1));
    s.update(0);
    s.clear();
    let changes = s.update(0);
    assert_eq!(changes.cells.map(|v| v.len()), Some(0));
    assert_eq!(changes.view, None);
    s.load_save(LivingSet::from_cells(&vec![Vector2::new(2, 2)]), 4);
    let changes = s.update(0);
    assert_eq!(changes.cells.map(|v| v.len()), Some(1));
    assert_eq!(changes.view, Some(4));
    assert!(!s.update(0).has_changes());
}

#[test]
fn landed_generation_surfaces_in_changes() {
    let mut s = inline_state::<()>();
    for x in 0..3 {
        s.toggle_cell(Vector2::new(x, 0));
    }
    s.update(0);
    s.step().unwrap();
    let changes = s.update(0);
    let mut shown: Vec<(i32, i32)> = changes.cells.unwrap().iter().map(|c| (c.x, c.y)).collect();
    shown.sort();
    assert_eq!(shown, vec![(1, -1), (1, 0), (1, 1)]);
    assert_eq!(changes.worker_error, None);
}
