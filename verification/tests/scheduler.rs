use stats::scheduler::SchedulerFlag;
use stats::scheduler::StatsScheduledErrorPreview;
use stats::scheduler::schedule_stats_aggregation_preview;

#[test]
fn test_schedule_stats_aggregation_preview() {
    let mut flag = SchedulerFlag::new();

    match schedule_stats_aggregation_preview(&mut flag) {
        Ok(_) => {}
        Err(err) => panic!("Scheduler is not Ok. Reason: {:?}", err),
    }

    match schedule_stats_aggregation_preview(&mut flag) {
        Ok(_) => panic!("Scheduler should already be initialized"),
        Err(StatsScheduledErrorPreview(_)) => {}
    }
}

#[test]
fn first_request_is_granted_with_unit_timer() {
    let mut flag = SchedulerFlag::new();
    let task = schedule_stats_aggregation_preview(&mut flag).expect("first request must succeed");
    assert_eq!(task.initial_delay, 1);
    assert_eq!(task.period, 1);
}

#[test]
fn every_later_request_still_carries_a_task() {
    let mut flag = SchedulerFlag::new();
    let _ = schedule_stats_aggregation_preview(&mut flag);
    for _ in 0..3 {
        match schedule_stats_aggregation_preview(&mut flag) {
            Ok(_) => panic!("only the first request may be granted"),
            Err(StatsScheduledErrorPreview(task)) => {
                assert_eq!(task.initial_delay, 1);
                assert_eq!(task.period, 1);
            }
        }
    }
}
