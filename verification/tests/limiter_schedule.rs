use krust::limiter::{max_active_in, Limiter, WorkerEvent};

#[test]
fn limiter_counts_acquisitions() {
    let mut lim = Limiter::new(2);
    assert!(lim.try_acquire());
    assert!(lim.try_acquire());
    assert!(!lim.try_acquire());
    assert_eq!(lim.active, 2);
    lim.release();
    assert!(lim.try_acquire());
    assert_eq!(lim.active, 2);
}

#[test]
fn five_hosts_under_capacity_two_never_exceed_it() {
    // Five hosts all try to start at once; finishes free slots for the rest.
    let events = vec![
        WorkerEvent::Started,
        WorkerEvent::Started,
        WorkerEvent::Started,
        WorkerEvent::Started,
        WorkerEvent::Started,
        WorkerEvent::Finished,
        WorkerEvent::Started,
        WorkerEvent::Finished,
        WorkerEvent::Started,
        WorkerEvent::Finished,
        WorkerEvent::Finished,
        WorkerEvent::Finished,
    ];
    let peak = max_active_in(2, &events);
    assert_eq!(peak, 2);
}

#[test]
fn sequential_schedule_peaks_at_one() {
    let events = vec![
        WorkerEvent::Started,
        WorkerEvent::Finished,
        WorkerEvent::Started,
        WorkerEvent::Finished,
        WorkerEvent::Started,
        WorkerEvent::Finished,
    ];
    assert_eq!(max_active_in(3, &events), 1);
}

#[test]
fn zero_capacity_admits_nobody() {
    let events = vec![WorkerEvent::Started, WorkerEvent::Started, WorkerEvent::Finished];
    assert_eq!(max_active_in(0, &events), 0);
}
