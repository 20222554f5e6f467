use stats::aggregator::StatsAggregator;
use stats::aggregator::create_map;
use stats::counter::Counter;

#[test]
fn registrations_are_all_kept() {
    let mut agg: StatsAggregator<Counter> = StatsAggregator::new();
    for i in 0..10usize {
        let h = create_map(&mut agg);
        assert_eq!(h, i);
    }
    assert_eq!(agg.container_count(), 10);
}

#[test]
fn handles_stay_valid_as_the_registry_grows() {
    let mut agg: StatsAggregator<Counter> = StatsAggregator::new();
    let first = create_map(&mut agg);
    agg.set_stat(first, 1, Counter { value: 0, pending: 21 });
    let second = create_map(&mut agg);
    agg.set_stat(second, 1, Counter { value: 0, pending: 2 });
    agg.aggregate();
    assert_eq!(agg.read_stat(first, 1).expect("first slot").read(), 21);
    assert_eq!(agg.read_stat(second, 1).expect("second slot").read(), 2);
}
