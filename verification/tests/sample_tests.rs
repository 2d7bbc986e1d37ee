use ipc_runtime::node::{Node, NodeBuilder};
use ipc_runtime::pubsub_port::{PublishSubscribeFactory, Publisher, Subscriber};
use ipc_runtime::service_name::ServiceName;
use ipc_runtime::system::System;

struct TestContext {
    service: PublishSubscribeFactory,
    publisher_1: Publisher,
    publisher_2: Publisher,
    subscriber: Subscriber,
}

fn make_context(sys: &mut System, node: &Node, name: &ServiceName) -> TestContext {
    let service = node
        .service_builder(name)
        .publish_subscribe()
        .max_publishers(2)
        .max_subscribers(1)
        .create(sys)
        .unwrap();

    let publisher_1 = service.publisher_builder().create(sys).unwrap();
    let publisher_2 = service.publisher_builder().create(sys).unwrap();
    let subscriber = service.subscriber_builder().create(sys).unwrap();

    TestContext { service, publisher_1, publisher_2, subscriber }
}

#[test]
fn origin_is_tracked_correctly() {
    let mut sys = System::new();
    let node = NodeBuilder::new().create(&mut sys);
    let name = ServiceName::new("service_tests_origin").unwrap();
    let ctx = make_context(&mut sys, &node, &name);

    assert_eq!(ctx.publisher_1.send_copy(&mut sys, 123), Ok(1));
    let sample = ctx.subscriber.receive(&mut sys).unwrap().unwrap();
    assert_eq!(sample.origin(), ctx.publisher_1.id());

    assert_eq!(ctx.publisher_2.send_copy(&mut sys, 123), Ok(1));
    let sample = ctx.subscriber.receive(&mut sys).unwrap().unwrap();
    assert_eq!(sample.origin(), ctx.publisher_2.id());
}

#[test]
fn sample_of_dropped_service_does_not_block_new_service_creation() {
    let mut sys = System::new();
    let node = NodeBuilder::new().create(&mut sys);
    let name = ServiceName::new("service_tests_recreate").unwrap();
    let ctx = make_context(&mut sys, &node, &name);

    assert_eq!(ctx.publisher_1.send_copy(&mut sys, 5), Ok(1));
    let sample = ctx.subscriber.receive(&mut sys).unwrap();
    assert!(sample.is_some());

    ctx.service.release(&mut sys);
    ctx.publisher_1.release(&mut sys);
    ctx.publisher_2.release(&mut sys);
    ctx.subscriber.release(&mut sys);

    assert!(node.service_builder(&name).publish_subscribe().create(&mut sys).is_ok());
}

#[test]
fn when_everything_is_dropped_the_sample_can_still_be_consumed() {
    let mut sys = System::new();
    let node = NodeBuilder::new().create(&mut sys);
    let name = ServiceName::new("service_tests_consume").unwrap();
    let ctx = make_context(&mut sys, &node, &name);

    ctx.service.release(&mut sys);

    const PAYLOAD: u64 = 8761238679123;

    assert_eq!(ctx.publisher_1.send_copy(&mut sys, PAYLOAD), Ok(1));
    let sample = ctx.subscriber.receive(&mut sys).unwrap().unwrap();

    ctx.subscriber.release(&mut sys);
    ctx.publisher_1.release(&mut sys);
    ctx.publisher_2.release(&mut sys);

    assert_eq!(sample.payload(&sys), PAYLOAD);
}

#[test]
fn sample_received_from_dropped_publisher_does_not_block_new_publishers() {
    let mut sys = System::new();
    let node = NodeBuilder::new().create(&mut sys);
    let name = ServiceName::new("service_tests_new_publisher").unwrap();
    let ctx = make_context(&mut sys, &node, &name);
    const PAYLOAD_1: u64 = 123554;

    let publisher = ctx.publisher_1;

    assert_eq!(publisher.send_copy(&mut sys, PAYLOAD_1), Ok(1));
    let sample = ctx.subscriber.receive(&mut sys).unwrap().unwrap();

    publisher.release(&mut sys);

    const PAYLOAD_2: u64 = 123981235645;

    let publisher = ctx.service.publisher_builder().create(&mut sys).unwrap();
    assert_eq!(publisher.send_copy(&mut sys, PAYLOAD_2), Ok(1));
    assert_eq!(sample.payload(&sys), PAYLOAD_1);
    let sample_2 = ctx.subscriber.receive(&mut sys).unwrap().unwrap();
    assert_eq!(sample_2.payload(&sys), PAYLOAD_2);
}

#[test]
fn sample_from_dropped_subscriber_does_not_block_new_subscribers() {
    let mut sys = System::new();
    let node = NodeBuilder::new().create(&mut sys);
    let name = ServiceName::new("service_tests_new_subscriber").unwrap();
    let ctx = make_context(&mut sys, &node, &name);
    const PAYLOAD_1: u64 = 7781123554;

    let subscriber = ctx.subscriber;

    assert_eq!(ctx.publisher_1.send_copy(&mut sys, PAYLOAD_1), Ok(1));
    let _sample = subscriber.receive(&mut sys).unwrap().unwrap();

    subscriber.release(&mut sys);

    const PAYLOAD_2: u64 = 123666645;

    let subscriber = ctx.service.subscriber_builder().create(&mut sys).unwrap();
    assert_eq!(ctx.publisher_1.send_copy(&mut sys, PAYLOAD_2), Ok(1));
    let sample_1 = subscriber.receive(&mut sys).unwrap().unwrap();
    let sample_2 = subscriber.receive(&mut sys).unwrap().unwrap();
    assert_eq!(sample_1.payload(&sys), PAYLOAD_1);
    assert_eq!(sample_2.payload(&sys), PAYLOAD_2);
}
