use trebek::bridge::{
    after_ack, broker_url, on_new_delivery, BridgeStep, DeliveryEvent, HandOff, HandoffSlot,
    CONSUMER_NAME, HANDOFF_CAPACITY, QUEUE_NAME,
};

#[test]
fn the_queue_and_the_consumer_have_fixed_names() {
    assert_eq!(QUEUE_NAME, "audio");
    assert_eq!(CONSUMER_NAME, "interpret");
    assert_eq!(HANDOFF_CAPACITY, 1);
}

#[test]
fn the_broker_address_is_built_from_host_and_port() {
    assert_eq!(broker_url("localhost", "5672"), "amqp://localhost:5672/%2f");
    assert_eq!(broker_url("mq.example.org", "5671"), "amqp://mq.example.org:5671/%2f");
    assert_eq!(broker_url("", ""), "amqp://:/%2f");
}

#[test]
fn a_message_is_acknowledged_first() {
    let step = on_new_delivery(DeliveryEvent::Delivered { tag: 9, payload: vec![1, 2, 3] });
    assert_eq!(step, BridgeStep::Acknowledge { tag: 9, payload: vec![1, 2, 3] });
}

#[test]
fn an_error_is_passed_over_and_a_cancellation_ends_the_bridge() {
    assert_eq!(on_new_delivery(DeliveryEvent::Failed), BridgeStep::Skip);
    assert_eq!(on_new_delivery(DeliveryEvent::Cancelled), BridgeStep::Terminated);
}

#[test]
fn a_new_slot_is_free() {
    let mut slot = HandoffSlot::new();
    assert_eq!(slot.len(), 0);
    assert_eq!(slot.take(), None);
}

#[test]
fn a_free_slot_takes_a_payload() {
    let mut slot = HandoffSlot::new();
    assert!(slot.offer(vec![1, 2]));
    assert_eq!(slot.len(), 1);
    assert_eq!(slot.take(), Some(vec![1, 2]));
    assert_eq!(slot.len(), 0);
    assert_eq!(slot.take(), None);
}

#[test]
fn a_second_payload_is_dropped_while_the_first_waits() {
    let mut slot = HandoffSlot::new();
    assert!(slot.offer(vec![1]));
    assert!(!slot.offer(vec![2]));
    assert_eq!(slot.len(), 1);
    assert_eq!(slot.take(), Some(vec![1]));
    assert_eq!(slot.take(), None);
}

#[test]
fn a_burst_leaves_one_payload_however_long_it_is() {
    let mut slot = HandoffSlot::new();
    let mut stored = 0;
    for i in 0..1000u32 {
        if slot.offer(i.to_be_bytes().to_vec()) {
            stored += 1;
        }
        assert!(slot.len() <= HANDOFF_CAPACITY);
    }
    assert_eq!(stored, 1);
    assert_eq!(slot.take(), Some(0u32.to_be_bytes().to_vec()));
    assert_eq!(slot.len(), 0);
}

#[test]
fn the_slot_is_free_again_after_a_take() {
    let mut slot = HandoffSlot::new();
    assert!(slot.offer(vec![1]));
    assert_eq!(slot.take(), Some(vec![1]));
    assert!(slot.offer(vec![2]));
    assert_eq!(slot.take(), Some(vec![2]));
}

#[test]
fn an_empty_payload_still_takes_the_slot() {
    let mut slot = HandoffSlot::new();
    assert!(slot.offer(Vec::new()));
    assert_eq!(slot.len(), 1);
    assert!(!slot.offer(vec![1]));
    assert_eq!(slot.take(), Some(Vec::new()));
}

#[test]
fn an_acknowledged_payload_is_stored_or_dropped() {
    let mut slot = HandoffSlot::new();
    assert_eq!(after_ack(&mut slot, true, vec![1]), HandOff::Stored);
    assert_eq!(after_ack(&mut slot, true, vec![2]), HandOff::Dropped);
    assert_eq!(slot.take(), Some(vec![1]));
}

#[test]
fn a_payload_that_was_not_acknowledged_never_reaches_the_slot() {
    let mut slot = HandoffSlot::new();
    assert_eq!(after_ack(&mut slot, false, vec![1]), HandOff::AckFailed);
    assert_eq!(slot.len(), 0);
    assert_eq!(after_ack(&mut slot, true, vec![2]), HandOff::Stored);
    assert_eq!(after_ack(&mut slot, false, vec![3]), HandOff::AckFailed);
    assert_eq!(slot.take(), Some(vec![2]));
}

#[test]
fn two_deliveries_faster_than_the_reader_keep_one_payload() {
    let mut slot = HandoffSlot::new();
    let mut ends = Vec::new();
    for (tag, payload) in [(1u64, vec![10u8]), (2u64, vec![20u8])] {
        match on_new_delivery(DeliveryEvent::Delivered { tag, payload }) {
            BridgeStep::Acknowledge { tag: _, payload } => ends.push(after_ack(&mut slot, true, payload)),
            other => panic!("a message must be acknowledged, got {:?}", other),
        }
    }
    assert_eq!(ends, vec![HandOff::Stored, HandOff::Dropped]);
    assert_eq!(slot.len(), 1);
    assert_eq!(slot.take(), Some(vec![10]));
}
