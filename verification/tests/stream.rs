use futures::StreamExt;
use futures::executor::block_on;
use futures::stream;
use stats::aggregator::StatsAggregator;
use stats::aggregator::create_map;
use stats::aggregator::schedule_stats_on_stream_preview;
use stats::probe::CallCounter;

#[test]
fn stream_drives_three_aggregations() {
    let mut agg: StatsAggregator<CallCounter> = StatsAggregator::new();
    let h = create_map(&mut agg);
    agg.set_stat(h, 42, CallCounter { calls: 0 });

    let ticks = block_on(stream::iter(vec![(), (), ()]).count());
    schedule_stats_on_stream_preview(&mut agg, ticks);

    let probe = agg.read_stat(h, 42).expect("probe slot must exist");
    assert_eq!(probe.calls, 3);
}

#[test]
fn empty_stream_drives_no_aggregation() {
    let mut agg: StatsAggregator<CallCounter> = StatsAggregator::new();
    let h = create_map(&mut agg);
    agg.set_stat(h, 7, CallCounter { calls: 0 });

    let empty: Vec<()> = Vec::new();
    let ticks = block_on(stream::iter(empty).count());
    schedule_stats_on_stream_preview(&mut agg, ticks);

    assert_eq!(agg.read_stat(h, 7).expect("probe slot must exist").calls, 0);
}

#[test]
fn every_probe_in_every_container_sees_each_tick() {
    let mut agg: StatsAggregator<CallCounter> = StatsAggregator::new();
    let first = create_map(&mut agg);
    let second = create_map(&mut agg);
    agg.set_stat(first, 1, CallCounter { calls: 0 });
    agg.set_stat(first, 2, CallCounter { calls: 0 });
    agg.set_stat(second, 1, CallCounter { calls: 0 });

    schedule_stats_on_stream_preview(&mut agg, 5);

    assert_eq!(agg.read_stat(first, 1).expect("slot").calls, 5);
    assert_eq!(agg.read_stat(first, 2).expect("slot").calls, 5);
    assert_eq!(agg.read_stat(second, 1).expect("slot").calls, 5);
}
