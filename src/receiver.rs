//! Receivers: the handlers that commands are delivered to, each with a private
//! destination and a log of the records it has emitted.
use vstd::prelude::*;
use crate::command::CommandArgs;

verus! {

/// A record that a receiver emits when it handles a payload it recognizes.
#[derive(Debug, PartialEq, Eq)]
pub enum Record {
    /// A new object registered and forwarded on the receiver's data link.
    ObjectRegistered { serial_number: u32, object_type: u8 },
    /// A payload-free request acknowledged.
    Acknowledged,
    /// A variable-length payload logged to the receiver's log destination.
    PayloadLogged { payload: Vec<u8> },
}

/// The non-fatal condition of a receiver given a payload it does not recognize.
#[derive(Clone, Copy, Debug, PartialEq, Eq, Structural)]
pub enum HandleError {
    UnknownEvent,
}

/// The family of payloads a receiver understands.
#[derive(Clone, Copy, Debug, PartialEq, Eq, Structural)]
pub enum ReceiverKind {
    Simple,
    Complex,
}

impl ReceiverKind {
    /// The record a receiver of this kind emits for `args`, or `None` where it
    /// does not recognize the payload.
    pub open spec fn entry(self, args: CommandArgs) -> Option<Record> {
        match self {
            ReceiverKind::Simple => match args {
                CommandArgs::SimpleDataRequestArgs { serial_number, object_type } => Some(
                    Record::ObjectRegistered { serial_number, object_type },
                ),
                CommandArgs::MoreSimpleRequestArgs => Some(Record::Acknowledged),
                _ => None,
            },
            ReceiverKind::Complex => match args {
                CommandArgs::ComplexDataRequestArgs { payload } => Some(
                    Record::PayloadLogged { payload },
                ),
                _ => None,
            },
        }
    }

    pub open spec fn accepts(self, args: CommandArgs) -> bool {
        self.entry(args) is Some
    }
}

/// What a receiver is: its kind, its destination (fixed at construction) and
/// the records it has emitted, oldest first.
pub struct ReceiverModel {
    pub kind: ReceiverKind,
    pub destination: Seq<char>,
    pub log: Seq<Record>,
}

impl ReceiverModel {
    /// The receiver after it was handed `args`: one record more where it
    /// recognizes the payload, unchanged where it drops it.
    pub open spec fn after(self, args: CommandArgs) -> ReceiverModel {
        match self.kind.entry(args) {
            Some(e) => ReceiverModel { log: self.log.push(e), ..self },
            None => self,
        }
    }
}

/// Handles small fixed-size records, forwarding them over a data link.
pub struct SimpleReceiver {
    data_link: String,
    records: Vec<Record>,
}

impl View for SimpleReceiver {
    type V = ReceiverModel;

    closed spec fn view(&self) -> ReceiverModel {
        ReceiverModel {
            kind: ReceiverKind::Simple,
            destination: self.data_link@,
            log: self.records@,
        }
    }
}

impl SimpleReceiver {
    pub fn new(data_link: String) -> (r: SimpleReceiver)
        ensures
            r@ == (ReceiverModel {
                kind: ReceiverKind::Simple,
                destination: data_link@,
                log: Seq::empty(),
            }),
    {
        SimpleReceiver { data_link, records: Vec::new() }
    }

    pub fn data_link(&self) -> (r: &String)
        ensures
            r@ == self@.destination,
    {
        &self.data_link
    }

    pub fn records(&self) -> (r: &Vec<Record>)
        ensures
            r@ == self@.log,
    {
        &self.records
    }

    fn handle_simple_data(&mut self, serial_number: u32, object_type: u8)
        ensures
            final(self)@ == (ReceiverModel {
                log: old(self)@.log.push(Record::ObjectRegistered { serial_number, object_type }),
                ..old(self)@
            }),
    {
        self.records.push(Record::ObjectRegistered { serial_number, object_type });
    }

    fn handle_more_simple(&mut self)
        ensures
            final(self)@ == (ReceiverModel {
                log: old(self)@.log.push(Record::Acknowledged),
                ..old(self)@
            }),
    {
        self.records.push(Record::Acknowledged);
    }

    /// Handles `event`: records it where it is a simple data request or a
    /// payload-free simple request, and drops it with `UnknownEvent` otherwise.
    pub fn handle_command(&mut self, event: CommandArgs) -> (r: Result<(), HandleError>)
        ensures
            r is Ok <==> ReceiverKind::Simple.accepts(event),
            r is Err ==> r == Err::<(), HandleError>(HandleError::UnknownEvent),
            final(self)@ == old(self)@.after(event),
    {
        match event {
            CommandArgs::SimpleDataRequestArgs { serial_number, object_type } => {
                self.handle_simple_data(serial_number, object_type);
                Ok(())
            },
            CommandArgs::MoreSimpleRequestArgs => {
                self.handle_more_simple();
                Ok(())
            },
            _ => Err(HandleError::UnknownEvent),
        }
    }
}

/// Handles variable-length opaque payloads, logging them to a named log.
pub struct ComplexReceiver {
    pub logger_name: String,
    records: Vec<Record>,
}

impl View for ComplexReceiver {
    type V = ReceiverModel;

    closed spec fn view(&self) -> ReceiverModel {
        ReceiverModel {
            kind: ReceiverKind::Complex,
            destination: self.logger_name@,
            log: self.records@,
        }
    }
}

impl ComplexReceiver {
    pub fn new(logger_name: String) -> (r: ComplexReceiver)
        ensures
            r@ == (ReceiverModel {
                kind: ReceiverKind::Complex,
                destination: logger_name@,
                log: Seq::empty(),
            }),
    {
        ComplexReceiver { logger_name, records: Vec::new() }
    }

    pub fn records(&self) -> (r: &Vec<Record>)
        ensures
            r@ == self@.log,
    {
        &self.records
    }

    fn handle_complex_data(&mut self, payload: Vec<u8>)
        ensures
            final(self)@ == (ReceiverModel {
                log: old(self)@.log.push(Record::PayloadLogged { payload }),
                ..old(self)@
            }),
    {
        self.records.push(Record::PayloadLogged { payload });
    }

    /// Handles `event`: logs it where it is a complex data request, and drops
    /// it with `UnknownEvent` otherwise.
    pub fn handle_command(&mut self, event: CommandArgs) -> (r: Result<(), HandleError>)
        ensures
            r is Ok <==> ReceiverKind::Complex.accepts(event),
            r is Err ==> r == Err::<(), HandleError>(HandleError::UnknownEvent),
            final(self)@ == old(self)@.after(event),
    {
        match event {
            CommandArgs::ComplexDataRequestArgs { payload } => {
                self.handle_complex_data(payload);
                Ok(())
            },
            _ => Err(HandleError::UnknownEvent),
        }
    }
}

/// A receiver of either family, behind the one `handle_command` capability.
pub enum Receiver {
    Simple(SimpleReceiver),
    Complex(ComplexReceiver),
}

impl View for Receiver {
    type V = ReceiverModel;

    open spec fn view(&self) -> ReceiverModel {
        match self {
            Receiver::Simple(r) => r@,
            Receiver::Complex(r) => r@,
        }
    }
}

impl Receiver {
    pub fn records(&self) -> (r: &Vec<Record>)
        ensures
            r@ == self@.log,
    {
        match self {
            Receiver::Simple(s) => s.records(),
            Receiver::Complex(c) => c.records(),
        }
    }

    /// Hands `event` to the receiver: recorded where its family recognizes the
    /// payload, dropped with `UnknownEvent` otherwise.
    pub fn handle_command(&mut self, event: CommandArgs) -> (r: Result<(), HandleError>)
        ensures
            r is Ok <==> old(self)@.kind.accepts(event),
            r is Err ==> r == Err::<(), HandleError>(HandleError::UnknownEvent),
            final(self)@ == old(self)@.after(event),
    {
        match self {
            Receiver::Simple(s) => s.handle_command(event),
            Receiver::Complex(c) => c.handle_command(event),
        }
    }
}

} // verus!
