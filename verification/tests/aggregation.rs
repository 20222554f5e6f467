use stats::aggregatable::Aggregatable;
use stats::aggregator::StatsAggregator;
use stats::aggregator::create_map;
use stats::counter::Counter;

#[test]
fn aggregate_sums_recorded_writes() {
    let mut c = Counter::fresh();
    c.record(2);
    c.record(40);
    c.record(-2);
    assert_eq!(c.read(), 0);
    c.aggregate();
    assert_eq!(c.read(), 40);
}

#[test]
fn aggregate_twice_is_idempotent() {
    let mut c = Counter::fresh();
    c.record(7);
    c.aggregate();
    assert_eq!(c.read(), 7);
    c.aggregate();
    assert_eq!(c.read(), 7);
}

#[test]
fn aggregate_of_empty_registry_is_a_no_op() {
    let mut agg: StatsAggregator<Counter> = StatsAggregator::new();
    agg.aggregate();
    assert_eq!(agg.container_count(), 0);
}

#[test]
fn registry_pass_is_idempotent_without_writes() {
    let mut agg: StatsAggregator<Counter> = StatsAggregator::new();
    let h = create_map(&mut agg);
    let mut c = Counter::fresh();
    c.record(11);
    agg.set_stat(h, 1, c);
    agg.aggregate();
    agg.aggregate();
    let v = agg.read_stat(h, 1).expect("slot must exist").read();
    assert_eq!(v, 11);
}

#[test]
fn end_to_end_two_threads() {
    let mut agg: StatsAggregator<Counter> = StatsAggregator::new();
    let h = create_map(&mut agg);

    let mut a = Counter::fresh();
    a.record(5);
    agg.set_stat(h, 1, a);
    agg.aggregate();
    let va = agg.read_stat(h, 1).expect("thread A slot must exist").read();
    assert_eq!(va, 5);

    let mut b = Counter::fresh();
    b.record(3);
    agg.set_stat(h, 2, b);
    agg.aggregate();
    let va = agg.read_stat(h, 1).expect("thread A slot must exist").read();
    let vb = agg.read_stat(h, 2).expect("thread B slot must exist").read();
    assert_eq!(va, 5);
    assert_eq!(vb, 3);
    assert_eq!(va + vb, 8);
}

#[test]
fn writes_after_a_pass_stay_invisible_until_the_next() {
    let mut agg: StatsAggregator<Counter> = StatsAggregator::new();
    let h = create_map(&mut agg);
    let mut c = Counter::fresh();
    c.record(4);
    agg.set_stat(h, 9, c);
    agg.aggregate();
    let mut c = *agg.read_stat(h, 9).expect("slot must exist");
    c.record(6);
    agg.set_stat(h, 9, c);
    assert_eq!(agg.read_stat(h, 9).expect("slot must exist").read(), 4);
    agg.aggregate();
    assert_eq!(agg.read_stat(h, 9).expect("slot must exist").read(), 10);
}
