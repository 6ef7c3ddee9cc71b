use room_relay::pipeline::{
    delivery_step, settle, DeliveryEvent, DeliveryStep, Pipeline, PipelineFull, SendStatus,
    PIPELINE_CAPACITY,
};
use room_relay::protocol::WsResponse;

fn error(text: &str) -> WsResponse {
    WsResponse::Error { message: text.to_string() }
}

#[test]
fn capacity_is_one_hundred() {
    assert_eq!(PIPELINE_CAPACITY, 100);
}

#[test]
fn a_new_pipeline_holds_one_hundred_payloads() {
    let (pipeline, _outlet) = Pipeline::open();
    assert_eq!(pipeline.capacity(), 100);
    assert_eq!(pipeline.enqueue(error("one")), Ok(()));
    assert_eq!(pipeline.capacity(), 100);
}

#[test]
fn settle_accepts_a_queued_payload() {
    assert_eq!(settle(SendStatus::Queued), Ok(()));
}

#[test]
fn settle_reports_a_full_pipeline() {
    assert_eq!(settle(SendStatus::Full), Err(PipelineFull));
}

#[test]
fn settle_swallows_a_closed_pipeline() {
    assert_eq!(settle(SendStatus::Closed), Ok(()));
}

#[test]
fn enqueued_payloads_come_out_in_order() {
    let (pipeline, mut outlet) = Pipeline::open();
    assert_eq!(pipeline.enqueue(error("one")), Ok(()));
    assert_eq!(pipeline.enqueue(error("two")), Ok(()));
    assert_eq!(pipeline.enqueue(error("three")), Ok(()));
    assert_eq!(outlet.try_recv().ok(), Some(error("one")));
    assert_eq!(outlet.try_recv().ok(), Some(error("two")));
    assert_eq!(outlet.try_recv().ok(), Some(error("three")));
    assert!(outlet.try_recv().is_err());
}

#[test]
fn a_full_pipeline_refuses_without_blocking() {
    let (pipeline, mut outlet) = Pipeline::open();
    for i in 0..100 {
        assert_eq!(pipeline.enqueue(error(&format!("{}", i))), Ok(()));
    }
    assert_eq!(pipeline.enqueue(error("too many")), Err(PipelineFull));
    assert_eq!(pipeline.enqueue(error("still too many")), Err(PipelineFull));
    // Taking one payload out makes room for one more.
    assert_eq!(outlet.try_recv().ok(), Some(error("0")));
    assert_eq!(pipeline.enqueue(error("fits")), Ok(()));
    assert_eq!(pipeline.enqueue(error("does not")), Err(PipelineFull));
    for i in 1..100 {
        assert_eq!(outlet.try_recv().ok(), Some(error(&format!("{}", i))));
    }
    assert_eq!(outlet.try_recv().ok(), Some(error("fits")));
    assert!(outlet.try_recv().is_err());
}

#[test]
fn a_dead_pipeline_swallows_payloads() {
    let (pipeline, outlet) = Pipeline::open();
    drop(outlet);
    assert_eq!(pipeline.enqueue(error("lost")), Ok(()));
    assert_eq!(pipeline.enqueue(error("lost too")), Ok(()));
}

#[test]
fn a_closed_pipeline_still_hands_out_what_it_held() {
    let (pipeline, mut outlet) = Pipeline::open();
    assert_eq!(pipeline.enqueue(error("before")), Ok(()));
    outlet.close();
    assert_eq!(pipeline.enqueue(error("after")), Ok(()));
    assert_eq!(outlet.try_recv().ok(), Some(error("before")));
    assert!(outlet.try_recv().is_err());
}

#[test]
fn dropping_the_pipeline_ends_the_queue() {
    let (pipeline, mut outlet) = Pipeline::open();
    assert_eq!(pipeline.enqueue(error("last")), Ok(()));
    drop(pipeline);
    assert_eq!(outlet.blocking_recv(), Some(error("last")));
    assert_eq!(outlet.blocking_recv(), None);
}

#[test]
fn the_delivery_task_starts_by_waiting_for_a_payload() {
    assert_eq!(delivery_step(DeliveryEvent::Started), DeliveryStep::Dequeue);
}

#[test]
fn the_delivery_task_writes_what_it_dequeued() {
    assert_eq!(
        delivery_step(DeliveryEvent::Dequeued { payload: error("one") }),
        DeliveryStep::Write { payload: error("one") }
    );
}

#[test]
fn the_delivery_task_goes_on_after_a_write() {
    assert_eq!(delivery_step(DeliveryEvent::Written), DeliveryStep::Dequeue);
}

#[test]
fn the_delivery_task_stops_when_a_write_fails() {
    assert_eq!(delivery_step(DeliveryEvent::WriteFailed), DeliveryStep::Stop);
}

#[test]
fn the_delivery_task_stops_when_the_queue_is_closed() {
    assert_eq!(delivery_step(DeliveryEvent::QueueClosed), DeliveryStep::Stop);
}

#[test]
fn the_delivery_task_drains_the_queue_in_order() {
    let (pipeline, mut outlet) = Pipeline::open();
    assert_eq!(pipeline.enqueue(error("one")), Ok(()));
    assert_eq!(pipeline.enqueue(error("two")), Ok(()));
    drop(pipeline);
    let mut written = Vec::new();
    let mut step = delivery_step(DeliveryEvent::Started);
    loop {
        let event = match step {
            DeliveryStep::Dequeue => match outlet.blocking_recv() {
                Some(payload) => DeliveryEvent::Dequeued { payload },
                None => DeliveryEvent::QueueClosed,
            },
            DeliveryStep::Write { payload } => {
                written.push(payload);
                DeliveryEvent::Written
            }
            DeliveryStep::Stop => break,
        };
        step = delivery_step(event);
    }
    assert_eq!(written, vec![error("one"), error("two")]);
}
