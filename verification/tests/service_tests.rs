use ipc_runtime::event_builder::{EventCreateError, EventOpenError, EventOpenOrCreateError};
use ipc_runtime::event_id::EventId;
use ipc_runtime::event_port::NotifierNotifyError;
use ipc_runtime::node::NodeBuilder;
use ipc_runtime::pubsub_builder::PublishSubscribeOpenError;
use ipc_runtime::pubsub_port::{LoanError, SendError};
use ipc_runtime::service_name::{ServiceName, ServiceNameError};
use ipc_runtime::static_config::MessagingPattern;
use ipc_runtime::system::System;

#[test]
fn create_is_exclusive_and_open_succeeds_afterwards() {
    let mut sys = System::new();
    let node = NodeBuilder::new().create(&mut sys);
    let name = ServiceName::new("svc/exclusive").unwrap();

    assert!(node.service_builder(&name).event().create(&mut sys).is_ok());
    assert_eq!(
        node.service_builder(&name).event().create(&mut sys).unwrap_err(),
        EventCreateError::AlreadyExists
    );
    assert!(node.service_builder(&name).event().open(&mut sys).is_ok());
}

#[test]
fn open_or_create_race_creates_exactly_once() {
    let mut sys = System::new();
    let node = NodeBuilder::new().create(&mut sys);
    let name = ServiceName::new("svc/race").unwrap();

    let mut factories = Vec::new();
    for _ in 0..64 {
        factories.push(
            node.service_builder(&name).event().max_nodes(64).open_or_create(&mut sys).unwrap(),
        );
    }
    // exactly one creation happened: a single descriptor entry carries it all
    assert_eq!(sys.services.len(), 1);
    for f in factories {
        f.release(&mut sys);
    }
}

#[test]
fn open_of_missing_service_fails() {
    let mut sys = System::new();
    let node = NodeBuilder::new().create(&mut sys);
    let name = ServiceName::new("svc/none").unwrap();
    assert_eq!(
        node.service_builder(&name).event().open(&mut sys).unwrap_err(),
        EventOpenError::DoesNotExist
    );
}

#[test]
fn compatibility_gate_rejects_larger_requests() {
    let mut sys = System::new();
    let node = NodeBuilder::new().create(&mut sys);
    let name = ServiceName::new("svc/gate").unwrap();
    node.service_builder(&name)
        .event()
        .max_notifiers(4)
        .max_listeners(4)
        .max_nodes(4)
        .event_id_max_value(16)
        .create(&mut sys)
        .unwrap();

    assert_eq!(
        node.service_builder(&name).event().max_notifiers(8).open(&mut sys).unwrap_err(),
        EventOpenError::DoesNotSupportRequestedAmountOfNotifiers
    );
    assert_eq!(
        node.service_builder(&name).event().max_listeners(8).open(&mut sys).unwrap_err(),
        EventOpenError::DoesNotSupportRequestedAmountOfListeners
    );
    assert_eq!(
        node.service_builder(&name).event().event_id_max_value(32).open(&mut sys).unwrap_err(),
        EventOpenError::DoesNotSupportRequestedMaxEventId
    );
    assert_eq!(
        node.service_builder(&name).event().max_nodes(8).open(&mut sys).unwrap_err(),
        EventOpenError::DoesNotSupportRequestedAmountOfNodes
    );
    // requesting no more than declared is admitted
    assert!(node.service_builder(&name).event().max_notifiers(4).open(&mut sys).is_ok());
}

#[test]
fn incompatible_messaging_pattern_is_reported() {
    let mut sys = System::new();
    let node = NodeBuilder::new().create(&mut sys);
    let name = ServiceName::new("svc/pattern").unwrap();
    node.service_builder(&name).publish_subscribe().create(&mut sys).unwrap();
    assert_eq!(
        node.service_builder(&name).event().open(&mut sys).unwrap_err(),
        EventOpenError::IncompatibleMessagingPattern
    );
}

#[test]
fn hung_creation_is_reported_after_the_timeout() {
    let mut sys = System::new();
    let node = NodeBuilder::new().create(&mut sys);
    let name = ServiceName::new("svc/hung").unwrap();
    // a creator claims the descriptor and dies before publishing
    let builder = node.service_builder(&name).event();
    let config = ipc_runtime::static_config::StaticConfig {
        service_name: name.duplicate(),
        messaging_pattern: MessagingPattern::Event(ipc_runtime::static_config::EventConfig::new()),
        attributes: ipc_runtime::attributes::AttributeSet::new(),
    };
    sys.claim_static_descriptor(config, 0).unwrap();

    // within the timeout the race is benign
    assert_eq!(
        node.service_builder(&name).event().create(&mut sys).unwrap_err(),
        EventCreateError::IsBeingCreatedByAnotherInstance
    );
    assert_eq!(
        node.service_builder(&name).event().open(&mut sys).unwrap_err(),
        EventOpenError::DoesNotExist
    );

    // past the timeout the creator is presumed dead
    sys.advance_clock(1000000000);
    assert_eq!(builder.open(&mut sys).unwrap_err(), EventOpenError::HangsInCreation);
    assert_eq!(
        node.service_builder(&name).event().create(&mut sys).unwrap_err(),
        EventCreateError::HangsInCreation
    );
}

#[test]
fn serializer_mismatch_is_corruption() {
    let mut sys = System::new();
    let writer = NodeBuilder::new().serialization_format(1).create(&mut sys);
    let reader = NodeBuilder::new().serialization_format(2).create(&mut sys);
    let name = ServiceName::new("svc/serializer").unwrap();
    writer.service_builder(&name).event().create(&mut sys).unwrap();
    assert_eq!(
        reader.service_builder(&name).event().open(&mut sys).unwrap_err(),
        EventOpenError::ServiceInCorruptedState
    );
}

#[test]
fn marked_for_destruction_turns_openers_away() {
    let mut sys = System::new();
    let node = NodeBuilder::new().create(&mut sys);
    let name = ServiceName::new("svc/teardown").unwrap();
    node.service_builder(&name).event().create(&mut sys).unwrap();
    sys.mark_service_for_destruction(0);
    assert_eq!(
        node.service_builder(&name).event().open(&mut sys).unwrap_err(),
        EventOpenError::IsMarkedForDestruction
    );
}

#[test]
fn full_node_registry_turns_openers_away() {
    let mut sys = System::new();
    let node = NodeBuilder::new().create(&mut sys);
    let name = ServiceName::new("svc/nodes").unwrap();
    node.service_builder(&name).event().max_nodes(1).create(&mut sys).unwrap();
    assert_eq!(
        node.service_builder(&name).event().open(&mut sys).unwrap_err(),
        EventOpenError::ExceedsMaxNumberOfNodes
    );
}

#[test]
fn open_or_create_surfaces_benign_races() {
    let mut sys = System::new();
    let node = NodeBuilder::new().create(&mut sys);
    let name = ServiceName::new("svc/benign").unwrap();
    let config = ipc_runtime::static_config::StaticConfig {
        service_name: name.duplicate(),
        messaging_pattern: MessagingPattern::Event(ipc_runtime::static_config::EventConfig::new()),
        attributes: ipc_runtime::attributes::AttributeSet::new(),
    };
    sys.claim_static_descriptor(config, 0).unwrap();
    assert_eq!(
        node.service_builder(&name).event().open_or_create(&mut sys).unwrap_err(),
        EventOpenOrCreateError::EventCreateError(EventCreateError::IsBeingCreatedByAnotherInstance)
    );
}

#[test]
fn attributes_gate_openers() {
    let mut sys = System::new();
    let node = NodeBuilder::new().create(&mut sys);
    let name = ServiceName::new("svc/attrs").unwrap();
    let spec = ipc_runtime::attributes::AttributeSpecifier::new().define("fleet", "alpha");
    node.service_builder(&name).event().create_with_attributes(&mut sys, &spec).unwrap();

    let good = ipc_runtime::attributes::AttributeVerifier::new().require("fleet", "alpha");
    assert!(node.service_builder(&name).event().open_with_attributes(&mut sys, &good).is_ok());

    let bad = ipc_runtime::attributes::AttributeVerifier::new().require("fleet", "beta");
    assert_eq!(
        node.service_builder(&name).event().open_with_attributes(&mut sys, &bad).unwrap_err(),
        EventOpenError::IncompatibleAttributes
    );

    let missing_key = ipc_runtime::attributes::AttributeVerifier::new().require_key("zone");
    assert_eq!(
        node.service_builder(&name).event().open_with_attributes(&mut sys, &missing_key).unwrap_err(),
        EventOpenError::IncompatibleAttributes
    );
}

#[test]
fn empty_attributes_are_open_to_all() {
    let mut sys = System::new();
    let node = NodeBuilder::new().create(&mut sys);
    let name = ServiceName::new("svc/noattrs").unwrap();
    node.service_builder(&name).event().create(&mut sys).unwrap();
    assert!(node.service_builder(&name).event().open(&mut sys).is_ok());
    assert!(node.service_builder(&name).event().open(&mut sys).is_ok());
}

#[test]
fn zero_capacities_become_one() {
    let mut sys = System::new();
    let node = NodeBuilder::new().create(&mut sys);
    let name = ServiceName::new("svc/zero").unwrap();
    let factory = node
        .service_builder(&name)
        .event()
        .max_notifiers(0)
        .max_listeners(0)
        .max_nodes(0)
        .create(&mut sys)
        .unwrap();
    // the capacities were promoted to 1: one notifier binds, a second fails
    let n1 = factory.notifier_builder().create(&mut sys);
    assert!(n1.is_ok());
    assert!(factory.notifier_builder().create(&mut sys).is_err());
    let l1 = factory.listener_builder().create(&mut sys);
    assert!(l1.is_ok());
    assert!(factory.listener_builder().create(&mut sys).is_err());
    // a pub/sub service behaves alike
    let psname = ServiceName::new("svc/zero-pubsub").unwrap();
    let ps = node
        .service_builder(&psname)
        .publish_subscribe()
        .max_publishers(0)
        .max_subscribers(0)
        .create(&mut sys)
        .unwrap();
    assert!(ps.publisher_builder().create(&mut sys).is_ok());
    assert!(ps.publisher_builder().create(&mut sys).is_err());
    assert!(ps.subscriber_builder().create(&mut sys).is_ok());
    assert!(ps.subscriber_builder().create(&mut sys).is_err());
}

#[test]
fn event_round_trip_within_the_timeout() {
    let mut sys = System::new();
    let node = NodeBuilder::new().create(&mut sys);
    let name = ServiceName::new("svc/event").unwrap();
    let factory = node.service_builder(&name).event().open_or_create(&mut sys).unwrap();
    let listener = factory.listener_builder().create(&mut sys).unwrap();
    let notifier = factory.notifier_builder().create(&mut sys).unwrap();

    assert_eq!(notifier.notify_with_custom_event_id(&mut sys, EventId::new(2)), Ok(1));
    let got = listener.timed_wait_one(&mut sys, 2000000000).unwrap();
    assert_eq!(got, Some(EventId::new(2)));
    // nothing further is pending: the wait runs into its timeout
    assert_eq!(listener.timed_wait_one(&mut sys, 2000000000).unwrap(), None);
}

#[test]
fn event_ids_out_of_range_are_rejected() {
    let mut sys = System::new();
    let node = NodeBuilder::new().create(&mut sys);
    let name = ServiceName::new("svc/event-range").unwrap();
    let factory = node
        .service_builder(&name)
        .event()
        .event_id_max_value(16)
        .create(&mut sys)
        .unwrap();
    let listener = factory.listener_builder().create(&mut sys).unwrap();
    let notifier = factory.notifier_builder().create(&mut sys).unwrap();

    assert_eq!(
        notifier.notify_with_custom_event_id(&mut sys, EventId::new(17)),
        Err(NotifierNotifyError::EventIdOutOfBounds)
    );
    assert_eq!(notifier.notify_with_custom_event_id(&mut sys, EventId::new(16)), Ok(1));
    assert_eq!(notifier.notify(&mut sys), Ok(1));
    // delivery reaches every live listener, coalesced per id
    assert_eq!(notifier.notify(&mut sys), Ok(1));
    let first = listener.try_wait_one(&mut sys).unwrap().unwrap();
    let second = listener.try_wait_one(&mut sys).unwrap().unwrap();
    assert!(first == EventId::new(16) || first == EventId::new(0));
    assert!(second == EventId::new(16) || second == EventId::new(0));
    assert_ne!(first, second);
    assert_eq!(listener.try_wait_one(&mut sys).unwrap(), None);
}

#[test]
fn wait_all_drains_every_pending_id_at_once() {
    let mut sys = System::new();
    let node = NodeBuilder::new().create(&mut sys);
    let name = ServiceName::new("svc/event-drain").unwrap();
    let factory = node.service_builder(&name).event().create(&mut sys).unwrap();
    let listener = factory.listener_builder().create(&mut sys).unwrap();
    let notifier = factory.notifier_builder().create(&mut sys).unwrap();

    assert_eq!(notifier.notify_with_custom_event_id(&mut sys, EventId::new(3)), Ok(1));
    assert_eq!(notifier.notify_with_custom_event_id(&mut sys, EventId::new(9)), Ok(1));
    assert_eq!(notifier.notify_with_custom_event_id(&mut sys, EventId::new(3)), Ok(1));
    let drained = listener.try_wait_all(&mut sys).unwrap();
    assert_eq!(drained, vec![EventId::new(3), EventId::new(9)]);
    assert_eq!(listener.try_wait_one(&mut sys).unwrap(), None);
}

#[test]
fn every_live_listener_observes_a_notification() {
    let mut sys = System::new();
    let node = NodeBuilder::new().create(&mut sys);
    let name = ServiceName::new("svc/event-fanout").unwrap();
    let factory = node.service_builder(&name).event().create(&mut sys).unwrap();
    let listener_1 = factory.listener_builder().create(&mut sys).unwrap();
    let listener_2 = factory.listener_builder().create(&mut sys).unwrap();
    let notifier = factory.notifier_builder().create(&mut sys).unwrap();

    assert_eq!(notifier.notify_with_custom_event_id(&mut sys, EventId::new(5)), Ok(2));
    assert_eq!(listener_1.try_wait_one(&mut sys).unwrap(), Some(EventId::new(5)));
    assert_eq!(listener_2.try_wait_one(&mut sys).unwrap(), Some(EventId::new(5)));
    assert_eq!(listener_1.try_wait_one(&mut sys).unwrap(), None);
}

#[test]
fn overflow_policy_decides_the_extra_send() {
    // safe overflow disabled: the third send without a receive fails
    let mut sys = System::new();
    let node = NodeBuilder::new().create(&mut sys);
    let name = ServiceName::new("svc/overflow-off").unwrap();
    let service = node
        .service_builder(&name)
        .publish_subscribe()
        .max_publishers(1)
        .max_subscribers(1)
        .history_size(0)
        .subscriber_max_buffer_size(2)
        .enable_safe_overflow(false)
        .create(&mut sys)
        .unwrap();
    let publisher = service.publisher_builder().create(&mut sys).unwrap();
    let subscriber = service.subscriber_builder().create(&mut sys).unwrap();
    assert_eq!(publisher.send_copy(&mut sys, 1), Ok(1));
    assert_eq!(publisher.send_copy(&mut sys, 2), Ok(1));
    assert_eq!(
        publisher.send_copy(&mut sys, 3),
        Err(SendError::ReceiverBufferFullAndOverflowDisabled)
    );
    assert_eq!(subscriber.receive(&mut sys).unwrap().unwrap().payload(&sys), 1);

    // safe overflow enabled: the oldest queued sample makes room
    let name = ServiceName::new("svc/overflow-on").unwrap();
    let service = node
        .service_builder(&name)
        .publish_subscribe()
        .max_publishers(1)
        .max_subscribers(1)
        .history_size(0)
        .subscriber_max_buffer_size(2)
        .enable_safe_overflow(true)
        .create(&mut sys)
        .unwrap();
    let publisher = service.publisher_builder().create(&mut sys).unwrap();
    let subscriber = service.subscriber_builder().create(&mut sys).unwrap();
    assert_eq!(publisher.send_copy(&mut sys, 1), Ok(1));
    assert_eq!(publisher.send_copy(&mut sys, 2), Ok(1));
    assert_eq!(publisher.send_copy(&mut sys, 3), Ok(1));
    assert_eq!(subscriber.receive(&mut sys).unwrap().unwrap().payload(&sys), 2);
    assert_eq!(subscriber.receive(&mut sys).unwrap().unwrap().payload(&sys), 3);
    assert!(subscriber.receive(&mut sys).unwrap().is_none());
}

#[test]
fn per_pair_fifo_is_kept() {
    let mut sys = System::new();
    let node = NodeBuilder::new().create(&mut sys);
    let name = ServiceName::new("svc/fifo").unwrap();
    let service = node
        .service_builder(&name)
        .publish_subscribe()
        .max_publishers(1)
        .max_subscribers(1)
        .history_size(0)
        .subscriber_max_buffer_size(4)
        .create(&mut sys)
        .unwrap();
    let publisher = service.publisher_builder().create(&mut sys).unwrap();
    let subscriber = service.subscriber_builder().create(&mut sys).unwrap();
    for v in [10u64, 11, 12, 13] {
        assert_eq!(publisher.send_copy(&mut sys, v), Ok(1));
    }
    for v in [10u64, 11, 12, 13] {
        let sample = subscriber.receive(&mut sys).unwrap().unwrap();
        assert_eq!(sample.payload(&sys), v);
        sample.release(&mut sys);
    }
}

#[test]
fn exhausted_loan_pool_rejects_further_loans() {
    let mut sys = System::new();
    let node = NodeBuilder::new().create(&mut sys);
    let name = ServiceName::new("svc/pool").unwrap();
    let service = node
        .service_builder(&name)
        .publish_subscribe()
        .max_publishers(1)
        .max_subscribers(1)
        .history_size(1)
        .subscriber_max_buffer_size(2)
        .create(&mut sys)
        .unwrap();
    let publisher = service.publisher_builder().create(&mut sys).unwrap();
    // pool: history 1 + buffer 2 * one subscriber + slack 2
    let mut loaned = Vec::new();
    for _ in 0..5 {
        loaned.push(publisher.loan(&mut sys).unwrap());
    }
    assert_eq!(publisher.loan(&mut sys).unwrap_err(), LoanError::ExceedsMaxLoanedSamples);
    // sending one of them frees nothing yet; the pool stays exhausted
    let sample = loaned.pop().unwrap();
    publisher.write_payload(&mut sys, &sample, 7);
    assert_eq!(publisher.send(&mut sys, sample), Ok(0));
    assert!(publisher.loan(&mut sys).is_err());
}

#[test]
fn full_port_tables_reject_further_ports() {
    let mut sys = System::new();
    let node = NodeBuilder::new().create(&mut sys);
    let name = ServiceName::new("svc/tables").unwrap();
    let service = node
        .service_builder(&name)
        .publish_subscribe()
        .max_publishers(1)
        .max_subscribers(1)
        .create(&mut sys)
        .unwrap();
    assert!(service.publisher_builder().create(&mut sys).is_ok());
    assert!(service.publisher_builder().create(&mut sys).is_err());
    assert!(service.subscriber_builder().create(&mut sys).is_ok());
    assert!(service.subscriber_builder().create(&mut sys).is_err());
}

#[test]
fn pubsub_compatibility_gate() {
    let mut sys = System::new();
    let node = NodeBuilder::new().create(&mut sys);
    let name = ServiceName::new("svc/ps-gate").unwrap();
    node.service_builder(&name)
        .publish_subscribe()
        .max_publishers(1)
        .max_subscribers(1)
        .history_size(1)
        .subscriber_max_buffer_size(2)
        .enable_safe_overflow(true)
        .create(&mut sys)
        .unwrap();
    assert_eq!(
        node.service_builder(&name).publish_subscribe().max_publishers(2).open(&mut sys).unwrap_err(),
        PublishSubscribeOpenError::DoesNotSupportRequestedAmountOfPublishers
    );
    assert_eq!(
        node.service_builder(&name).publish_subscribe().max_subscribers(2).open(&mut sys).unwrap_err(),
        PublishSubscribeOpenError::DoesNotSupportRequestedAmountOfSubscribers
    );
    assert_eq!(
        node.service_builder(&name).publish_subscribe().subscriber_max_buffer_size(3).open(&mut sys).unwrap_err(),
        PublishSubscribeOpenError::DoesNotSupportRequestedMinBufferSize
    );
    assert_eq!(
        node.service_builder(&name).publish_subscribe().history_size(2).open(&mut sys).unwrap_err(),
        PublishSubscribeOpenError::DoesNotSupportRequestedMinHistorySize
    );
    assert_eq!(
        node.service_builder(&name).publish_subscribe().enable_safe_overflow(false).open(&mut sys).unwrap_err(),
        PublishSubscribeOpenError::IncompatibleOverflowBehavior
    );
    assert!(node.service_builder(&name).publish_subscribe().open(&mut sys).is_ok());
}

#[test]
fn service_names_are_validated() {
    assert_eq!(ServiceName::new("").unwrap_err(), ServiceNameError::Empty);
    let long = "x".repeat(256);
    assert_eq!(ServiceName::new(&long).unwrap_err(), ServiceNameError::ExceedsMaximumLength);
    let ok = ServiceName::new("svc/a").unwrap();
    assert_eq!(ok.as_str(), "svc/a");
}
