use radiance::benchmark::Bench;
use radiance::benchmark::Timer;
use radiance::benchmark::TotalTime;

#[test]
fn timer_starts_empty() {
    let t = Timer::new();
    assert_eq!(t.time, 0);
    assert!(t.start.is_none());
    assert_eq!(Timer::default(), Timer::new());
}

#[test]
fn timer_accumulates_spans() {
    let mut t = Timer::new();
    t.start();
    assert!(t.start.is_some());
    t.end();
    assert!(t.start.is_none());
    let first = t.time;
    t.start();
    std::hint::black_box(vec![0u8; 1 << 16]);
    t.end();
    assert!(t.time >= first);
}

#[test]
fn bench_reports_both_totals() {
    let mut b = Bench::new();
    b.render.start();
    b.render.end();
    b.copy.start();
    b.copy.end();
    let total = b.clone().total();
    assert_eq!(total.render, b.render.time);
    assert_eq!(total.copy, b.copy.time);
}

#[test]
fn total_time_combines_saturating() {
    let t = TotalTime { render: 5, copy: 7 };
    assert_eq!(t.combined(), 12);
    let big = TotalTime { render: u128::MAX, copy: 1 };
    assert_eq!(big.combined(), u128::MAX);
}
