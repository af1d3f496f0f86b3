use gdom::domain::{JobId, JobStatus};
use gdom::job_service::JobServiceError;
use gdom::queue_service::{plan_queue_change, plan_queue_removal, restored_status, QueueEntry};

fn entry(id: u128, status: JobStatus, position: Option<i64>) -> QueueEntry {
    QueueEntry { job_id: JobId::new(id), status, queue_position: position }
}

#[test]
fn queue_job_reorders_without_starting_mutations() {
    let a = JobId::new(1);
    let b = JobId::new(2);
    let mut jobs = vec![entry(1, JobStatus::ReadyForReview, None), entry(2, JobStatus::ReadyForReview, None)];

    let first = plan_queue_change(&jobs, a, None, false).unwrap();
    assert_eq!(first.target_position, 1);
    assert_eq!(first.order, vec![a]);
    jobs[0] = entry(1, JobStatus::Queued, Some(1));

    let second = plan_queue_change(&jobs, b, None, false).unwrap();
    assert_eq!(second.target_position, 2);
    assert_eq!(second.order, vec![a, b]);
    jobs[1] = entry(2, JobStatus::Queued, Some(2));

    let reordered = plan_queue_change(&jobs, b, Some(1), false).unwrap();
    assert_eq!(reordered.target_position, 1);
    assert_eq!(reordered.order, vec![b, a]);
}

#[test]
fn waiting_order_is_by_position_then_identifier() {
    let jobs = vec![
        entry(9, JobStatus::Queued, None),
        entry(5, JobStatus::Queued, Some(2)),
        entry(3, JobStatus::Queued, Some(2)),
        entry(4, JobStatus::Running, Some(1)),
        entry(7, JobStatus::Queued, Some(1)),
        entry(8, JobStatus::Draft, None),
    ];
    let plan = plan_queue_change(&jobs, JobId::new(8), Some(2), false).unwrap();
    let ids: Vec<u128> = plan.order.iter().map(|j| j.value()).collect();
    assert_eq!(ids, vec![7, 8, 3, 5, 9]);
    assert_eq!(plan.target_position, 2);
}

#[test]
fn queue_positions_outside_the_queue_are_refused() {
    let jobs = vec![entry(1, JobStatus::Queued, Some(1)), entry(2, JobStatus::ReadyForReview, None)];
    let id = JobId::new(2);
    assert_eq!(plan_queue_change(&jobs, id, Some(0), false), Err(JobServiceError::IllegalTransition));
    assert_eq!(plan_queue_change(&jobs, id, Some(-3), false), Err(JobServiceError::IllegalTransition));
    assert_eq!(plan_queue_change(&jobs, id, Some(3), false), Err(JobServiceError::IllegalTransition));
    assert!(plan_queue_change(&jobs, id, Some(2), false).is_ok());
    assert_eq!(plan_queue_change(&jobs, JobId::new(3), None, false), Err(JobServiceError::JobNotFound(JobId::new(3))));
    assert_eq!(plan_queue_change(&jobs, id, Some(1), true), Err(JobServiceError::IllegalTransition));
}

#[test]
fn removing_a_job_keeps_the_others_in_order() {
    let jobs = vec![
        entry(1, JobStatus::Queued, Some(1)),
        entry(2, JobStatus::Queued, Some(2)),
        entry(3, JobStatus::Queued, Some(3)),
    ];
    assert_eq!(plan_queue_removal(&jobs, JobId::new(2)), Ok(vec![JobId::new(1), JobId::new(3)]));
    let not_queued = vec![entry(1, JobStatus::Paused, None)];
    assert_eq!(plan_queue_removal(&not_queued, JobId::new(1)), Err(JobServiceError::IllegalTransition));
    assert_eq!(plan_queue_removal(&jobs, JobId::new(4)), Err(JobServiceError::JobNotFound(JobId::new(4))));
}

#[test]
fn a_removed_job_returns_where_it_came_from() {
    assert_eq!(restored_status(Some(JobStatus::ReadyForReview), &None, true, false, true), JobStatus::ReadyForReview);
    assert_eq!(restored_status(Some(JobStatus::Paused), &None, false, true, false), JobStatus::Paused);
    assert_eq!(restored_status(None, &Some("CANARY_REVIEW".into()), false, true, false), JobStatus::CanaryReview);
    assert_eq!(restored_status(None, &None, true, true, false), JobStatus::Paused);
    assert_eq!(restored_status(None, &None, false, true, false), JobStatus::ReadyForReview);
    assert_eq!(restored_status(None, &None, false, false, false), JobStatus::Paused);
    assert_eq!(restored_status(None, &None, false, true, true), JobStatus::Paused);
}
