use command_registry::command::{Command, CommandArgs, CommandId};
use command_registry::queue::CommandQueue;
use command_registry::receiver::{
    ComplexReceiver, HandleError, Receiver, Record, SimpleReceiver,
};
use command_registry::registry::{DispatchError, Registry};

fn simple(serial_number: u32, object_type: u8) -> Command {
    Command::new(
        CommandId::SimpleDataRequest,
        CommandArgs::SimpleDataRequestArgs { serial_number, object_type },
    )
}

fn complex(payload: Vec<u8>) -> Command {
    Command::new(
        CommandId::ComplexDataRequest,
        CommandArgs::ComplexDataRequestArgs { payload },
    )
}

/// Receiver A (simple, handle 0) for SimpleDataRequest and MoreSimpleRequest,
/// receiver B (complex, handle 1) for ComplexDataRequest.
fn two_receivers() -> Registry {
    let mut reg = Registry::new();
    let a = reg.add_receiver(Receiver::Simple(SimpleReceiver::new("UART0".to_string())));
    let b = reg.add_receiver(Receiver::Complex(ComplexReceiver::new("/sys/log".to_string())));
    assert!(reg.register(CommandId::SimpleDataRequest, a));
    assert!(reg.register(CommandId::ComplexDataRequest, b));
    assert!(reg.register(CommandId::MoreSimpleRequest, a));
    reg
}

fn log_of(reg: &Registry, h: usize) -> &Vec<Record> {
    reg.receiver(h).unwrap().records()
}

#[test]
fn example_scenario() {
    let mut reg = Registry::new();
    let a = reg.add_receiver(Receiver::Simple(SimpleReceiver::new("UART0".to_string())));
    let b = reg.add_receiver(Receiver::Complex(ComplexReceiver::new("/sys/log".to_string())));
    assert!(reg.register(CommandId::SimpleDataRequest, a));
    assert!(reg.register(CommandId::ComplexDataRequest, b));
    let mut q = CommandQueue::new();
    q.enqueue(simple(0xdeadbeef, 0x50));
    q.enqueue(complex(vec![0xff, 0xaa, 0xdd, 0xee]));
    q.enqueue(simple(0x12345678, 0x10));
    q.enqueue(Command::new(CommandId::UnimplementedRequest, CommandArgs::UnimplementedRequestArgs));
    let out = reg.dispatch_all(&mut q);
    assert_eq!(out, vec![Ok(a), Ok(b), Ok(a), Err(DispatchError::UnknownIdentifier)]);
    assert_eq!(
        log_of(&reg, a),
        &vec![
            Record::ObjectRegistered { serial_number: 0xdeadbeef, object_type: 0x50 },
            Record::ObjectRegistered { serial_number: 0x12345678, object_type: 0x10 },
        ]
    );
    assert_eq!(
        log_of(&reg, b),
        &vec![Record::PayloadLogged { payload: vec![0xff, 0xaa, 0xdd, 0xee] }]
    );
    assert!(q.is_empty());
    assert_eq!(q.len(), 0);
}

#[test]
fn fifo_order_is_kept_per_receiver() {
    let mut reg = two_receivers();
    let mut q = CommandQueue::new();
    for i in 0..5u32 {
        q.enqueue(simple(i, i as u8));
        q.enqueue(complex(vec![i as u8]));
    }
    let out = reg.dispatch_all(&mut q);
    assert_eq!(out.len(), 10);
    let expected_a: Vec<Record> = (0..5u32)
        .map(|i| Record::ObjectRegistered { serial_number: i, object_type: i as u8 })
        .collect();
    let expected_b: Vec<Record> = (0..5u32)
        .map(|i| Record::PayloadLogged { payload: vec![i as u8] })
        .collect();
    assert_eq!(log_of(&reg, 0), &expected_a);
    assert_eq!(log_of(&reg, 1), &expected_b);
}

#[test]
fn queue_is_first_in_first_out() {
    let mut q = CommandQueue::new();
    assert!(q.dequeue().is_none());
    q.enqueue(simple(1, 1));
    q.enqueue(simple(2, 2));
    assert_eq!(q.len(), 2);
    assert_eq!(q.dequeue(), Some(simple(1, 1)));
    assert_eq!(q.dequeue(), Some(simple(2, 2)));
    assert_eq!(q.dequeue(), None);
    assert!(q.is_empty());
}

#[test]
fn routing_reaches_only_the_registered_receiver() {
    let mut reg = two_receivers();
    assert_eq!(reg.dispatch(complex(vec![1, 2, 3])), Ok(1));
    assert!(log_of(&reg, 0).is_empty());
    assert_eq!(log_of(&reg, 1), &vec![Record::PayloadLogged { payload: vec![1, 2, 3] }]);
}

#[test]
fn shared_receiver_serves_two_identifiers() {
    let mut reg = two_receivers();
    assert_eq!(reg.resolve(CommandId::SimpleDataRequest), Some(0));
    assert_eq!(reg.resolve(CommandId::MoreSimpleRequest), Some(0));
    assert_eq!(reg.dispatch(simple(7, 8)), Ok(0));
    assert_eq!(
        reg.dispatch(Command::new(CommandId::MoreSimpleRequest, CommandArgs::MoreSimpleRequestArgs)),
        Ok(0)
    );
    assert_eq!(
        log_of(&reg, 0),
        &vec![Record::ObjectRegistered { serial_number: 7, object_type: 8 }, Record::Acknowledged]
    );
    assert_eq!(reg.num_receivers(), 2);
}

#[test]
fn unknown_identifier_is_dropped_and_later_commands_still_run() {
    let mut reg = two_receivers();
    let mut q = CommandQueue::new();
    q.enqueue(Command::new(CommandId::UnimplementedRequest, CommandArgs::UnimplementedRequestArgs));
    q.enqueue(simple(3, 4));
    let out = reg.dispatch_all(&mut q);
    assert_eq!(out, vec![Err(DispatchError::UnknownIdentifier), Ok(0)]);
    assert_eq!(log_of(&reg, 0), &vec![Record::ObjectRegistered { serial_number: 3, object_type: 4 }]);
    assert!(log_of(&reg, 1).is_empty());
}

#[test]
fn mismatched_payload_is_dropped_by_the_receiver() {
    let mut reg = two_receivers();
    let c = Command::new(CommandId::SimpleDataRequest, CommandArgs::ComplexDataRequestArgs { payload: vec![9] });
    assert_eq!(reg.dispatch(c), Err(DispatchError::PayloadMismatch { receiver: 0 }));
    assert!(log_of(&reg, 0).is_empty());
    assert!(log_of(&reg, 1).is_empty());
}

#[test]
fn held_guard_makes_receiver_unavailable() {
    let mut reg = two_receivers();
    assert!(reg.try_acquire(0));
    assert!(!reg.try_acquire(0));
    assert_eq!(reg.dispatch(simple(1, 2)), Err(DispatchError::AccessUnavailable { receiver: 0 }));
    assert!(log_of(&reg, 0).is_empty());
    assert_eq!(reg.dispatch(complex(vec![])), Ok(1));
    reg.release(0);
    assert_eq!(reg.dispatch(simple(1, 2)), Ok(0));
    assert!(reg.try_acquire(0));
    assert!(!reg.try_acquire(5));
}

#[test]
fn guard_is_released_after_each_dispatch() {
    let mut reg = two_receivers();
    assert_eq!(reg.dispatch(simple(1, 2)), Ok(0));
    let c = Command::new(CommandId::SimpleDataRequest, CommandArgs::UnimplementedRequestArgs);
    assert_eq!(reg.dispatch(c), Err(DispatchError::PayloadMismatch { receiver: 0 }));
    assert!(reg.try_acquire(0));
    assert!(reg.try_acquire(1));
}

#[test]
fn register_refuses_an_unknown_handle() {
    let mut reg = Registry::new();
    assert_eq!(reg.resolve(CommandId::SimpleDataRequest), None);
    assert!(!reg.register(CommandId::SimpleDataRequest, 0));
    assert_eq!(reg.resolve(CommandId::SimpleDataRequest), None);
    assert!(reg.receiver(0).is_none());
    let h = reg.add_receiver(Receiver::Simple(SimpleReceiver::new("L".to_string())));
    assert!(reg.register(CommandId::ComplexDataRequest, h));
    assert_eq!(reg.resolve(CommandId::ComplexDataRequest), Some(h));
}

#[test]
fn register_replaces_an_earlier_route() {
    let mut reg = two_receivers();
    assert!(reg.register(CommandId::SimpleDataRequest, 1));
    assert_eq!(reg.resolve(CommandId::SimpleDataRequest), Some(1));
    assert_eq!(reg.dispatch(simple(1, 1)), Err(DispatchError::PayloadMismatch { receiver: 1 }));
}

#[test]
fn simple_receiver_handles_its_family_only() {
    let mut r = SimpleReceiver::new("UART0".to_string());
    assert_eq!(r.data_link(), "UART0");
    assert_eq!(r.handle_command(CommandArgs::SimpleDataRequestArgs { serial_number: 5, object_type: 6 }), Ok(()));
    assert_eq!(r.handle_command(CommandArgs::MoreSimpleRequestArgs), Ok(()));
    assert_eq!(r.handle_command(CommandArgs::UnimplementedRequestArgs), Err(HandleError::UnknownEvent));
    assert_eq!(
        r.handle_command(CommandArgs::ComplexDataRequestArgs { payload: vec![1] }),
        Err(HandleError::UnknownEvent)
    );
    assert_eq!(
        r.records(),
        &vec![Record::ObjectRegistered { serial_number: 5, object_type: 6 }, Record::Acknowledged]
    );
}

#[test]
fn complex_receiver_handles_its_family_only() {
    let mut r = ComplexReceiver::new("/sys/log".to_string());
    assert_eq!(r.logger_name, "/sys/log");
    assert_eq!(r.handle_command(CommandArgs::ComplexDataRequestArgs { payload: vec![] }), Ok(()));
    assert_eq!(r.handle_command(CommandArgs::MoreSimpleRequestArgs), Err(HandleError::UnknownEvent));
    assert_eq!(
        r.handle_command(CommandArgs::SimpleDataRequestArgs { serial_number: 1, object_type: 1 }),
        Err(HandleError::UnknownEvent)
    );
    assert_eq!(r.records(), &vec![Record::PayloadLogged { payload: vec![] }]);
}

#[test]
fn empty_queue_dispatches_nothing() {
    let mut reg = two_receivers();
    let mut q = CommandQueue::new();
    assert!(reg.dispatch_all(&mut q).is_empty());
    assert!(log_of(&reg, 0).is_empty());
}

#[test]
fn command_ids_have_distinct_indices() {
    assert_eq!(CommandId::SimpleDataRequest.index(), 0);
    assert_eq!(CommandId::ComplexDataRequest.index(), 1);
    assert_eq!(CommandId::UnimplementedRequest.index(), 2);
    assert_eq!(CommandId::MoreSimpleRequest.index(), 3);
}
