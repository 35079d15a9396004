use life_core::cells::LivingSet;
use life_core::life::compute_step;
use life_core::vector::Vector2;
use life_core::worker::{
    create_worker, ComputeWorker, DummyWorker, Message, PlatformWorker, PlatformWorkerError,
    Worker,
};
use std::sync::mpsc;

fn blinker() -> LivingSet {
    LivingSet::from_cells(&vec![Vector2::new(0, 0), Vector2::new(1, 0), Vector2::new(2, 0)])
}

fn sorted(s: &LivingSet) -> Vec<(i32, i32)> {
    let mut v = s.keys();
    v.sort();
    v
}

#[test]
fn dummy_worker_refuses_second_send() {
    let mut w = DummyWorker::new(|s: LivingSet| compute_step(&s)).unwrap();
    assert!(!w.computing());
    assert_eq!(w.send(blinker()), Ok(true));
    assert!(w.computing());
    assert_eq!(w.send(LivingSet::new()), Ok(false));
    assert!(w.computing());
    let first = w.results().unwrap().unwrap();
    assert_eq!(sorted(&first), vec![(1, -1), (1, 0), (1, 1)]);
    assert!(!w.computing());
    assert!(w.results().unwrap().is_none());
}

#[test]
fn dummy_worker_computes_with_its_function() {
    let mut w = DummyWorker::new(|x: u32| x * 2).unwrap();
    assert_eq!(w.results(), Ok(None));
    assert_eq!(w.send(21), Ok(true));
    assert_eq!(w.results(), Ok(Some(42)));
    assert_eq!(w.send(5), Ok(true));
    assert_eq!(w.results(), Ok(Some(10)));
}

#[test]
fn platform_worker_single_flight() {
    let (work_tx, work_rx) = mpsc::sync_channel::<Message<u32>>(1);
    let (res_tx, res_rx) = mpsc::sync_channel::<u32>(1);
    let mut w = PlatformWorker::new(work_tx, res_rx);
    assert!(!w.computing());
    assert_eq!(w.results(), Ok(None));
    assert_eq!(w.send(7), Ok(true));
    assert!(w.computing());
    assert_eq!(w.send(8), Ok(false));
    assert_eq!(w.results(), Ok(None));
    match work_rx.try_recv() {
        Ok(Message::Process(x)) => assert_eq!(x, 7),
        _ => panic!("the work was not posted"),
    }
    assert!(work_rx.try_recv().is_err());
    res_tx.send(49).unwrap();
    assert_eq!(w.results(), Ok(Some(49)));
    assert!(!w.computing());
    drop(work_rx);
}

#[test]
fn platform_worker_full_channel_refuses() {
    let (work_tx, work_rx) = mpsc::sync_channel::<Message<u32>>(0);
    let (_res_tx, res_rx) = mpsc::sync_channel::<u32>(1);
    let mut w = PlatformWorker::new(work_tx, res_rx);
    // Nobody waits on the other end of a rendezvous channel.
    assert_eq!(w.send(1), Ok(false));
    assert!(!w.computing());
    drop(work_rx);
}

#[test]
fn platform_worker_disconnected() {
    let (work_tx, work_rx) = mpsc::sync_channel::<Message<u32>>(1);
    let (res_tx, res_rx) = mpsc::sync_channel::<u32>(1);
    let mut w = PlatformWorker::new(work_tx, res_rx);
    assert_eq!(w.send(3), Ok(true));
    drop(res_tx);
    assert_eq!(w.results(), Err(PlatformWorkerError::Disconnected));
    assert!(w.computing());
    drop(work_rx);

    let (work_tx, work_rx) = mpsc::sync_channel::<Message<u32>>(1);
    let (_res_tx, res_rx) = mpsc::sync_channel::<u32>(1);
    let mut w = PlatformWorker::new(work_tx, res_rx);
    drop(work_rx);
    assert_eq!(w.send(3), Err(PlatformWorkerError::Disconnected));
    assert!(!w.computing());
}

#[test]
fn platform_worker_stops_on_drop() {
    let (work_tx, work_rx) = mpsc::sync_channel::<Message<u32>>(1);
    let (_res_tx, res_rx) = mpsc::sync_channel::<u32>(1);
    let w = PlatformWorker::new(work_tx, res_rx);
    drop(w);
    assert!(matches!(work_rx.try_recv(), Ok(Message::Stop)));
}

#[test]
fn create_worker_falls_back() {
    let mut w = create_worker(
        Err::<PlatformWorker<LivingSet, LivingSet>, _>(PlatformWorkerError::SpawnFailed),
        |s: LivingSet| compute_step(&s),
    );
    assert!(matches!(w, Worker::Inline(_)));
    assert_eq!(w.send(blinker()), Ok(true));
    assert_eq!(w.send(blinker()), Ok(false));
    let r = w.results().unwrap().unwrap();
    assert_eq!(sorted(&r), vec![(1, -1), (1, 0), (1, 1)]);
}

#[test]
fn create_worker_keeps_threaded() {
    let (work_tx, _work_rx) = mpsc::sync_channel::<Message<u32>>(1);
    let (_res_tx, res_rx) = mpsc::sync_channel::<u32>(1);
    let w = create_worker(Ok(PlatformWorker::new(work_tx, res_rx)), |x: u32| x);
    assert!(matches!(w, Worker::Threaded(_)));
    assert!(!w.computing());
}

#[test]
fn platform_worker_drop_does_not_block() {
    let (work_tx, work_rx) = mpsc::sync_channel::<Message<u32>>(1);
    let (_res_tx, res_rx) = mpsc::sync_channel::<u32>(1);
    let mut w = PlatformWorker::new(work_tx, res_rx);
    assert_eq!(w.send(4), Ok(true));
    // The work channel is full and its receiver alive but idle.
    drop(w);
    assert!(matches!(work_rx.try_recv(), Ok(Message::Process(4))));
    assert!(work_rx.try_recv().is_err());
}
