//! The receiver registry and the dispatcher that drains a queue through it.
use vstd::prelude::*;
use crate::command::{Command, CommandArgs, CommandId, NUM_COMMAND_IDS};
use crate::queue::CommandQueue;
use crate::receiver::{Receiver, ReceiverModel};

verus! {

/// Why a command was dropped rather than handled.
#[derive(Clone, Copy, Debug, PartialEq, Eq, Structural)]
pub enum DispatchError {
    /// No receiver is registered for the command's identifier.
    UnknownIdentifier,
    /// The resolved receiver does not recognize the command's payload.
    PayloadMismatch { receiver: usize },
    /// The resolved receiver's guard is held elsewhere.
    AccessUnavailable { receiver: usize },
}

/// What a registry is: its receivers, whether each one's guard is held, and
/// the receiver each identifier routes to, by `CommandId::spec_index`.
pub struct RegistryModel {
    pub receivers: Seq<ReceiverModel>,
    pub locked: Seq<bool>,
    pub routes: Seq<Option<usize>>,
}

impl RegistryModel {
    pub open spec fn wf(self) -> bool {
        &&& self.locked.len() == self.receivers.len()
        &&& self.routes.len() == NUM_COMMAND_IDS
        &&& forall|i: int|
            0 <= i < self.routes.len() && #[trigger] self.routes[i] is Some ==> self.routes[i].unwrap()
                < self.receivers.len()
    }

    /// The receiver `id` resolves to, if any.
    pub open spec fn route(self, id: CommandId) -> Option<usize> {
        self.routes[id.spec_index() as int]
    }

    /// One dispatch: the registry after `c` was delivered or dropped, and the
    /// outcome (the receiver that handled it, or why it was dropped).
    pub open spec fn step(self, c: Command) -> (RegistryModel, Result<usize, DispatchError>) {
        match self.route(c.cmd) {
            None => (self, Err(DispatchError::UnknownIdentifier)),
            Some(h) => if self.locked[h as int] {
                (self, Err(DispatchError::AccessUnavailable { receiver: h }))
            } else if self.receivers[h as int].kind.accepts(c.args) {
                (
                    RegistryModel {
                        receivers: self.receivers.update(h as int, self.receivers[h as int].after(c.args)),
                        ..self
                    },
                    Ok(h),
                )
            } else {
                (self, Err(DispatchError::PayloadMismatch { receiver: h }))
            },
        }
    }

    /// Dispatch of `cmds` in order: the final registry and one outcome per command.
    pub open spec fn run(self, cmds: Seq<Command>) -> (RegistryModel, Seq<Result<usize, DispatchError>>)
        decreases cmds.len(),
    {
        if cmds.len() == 0 {
            (self, Seq::empty())
        } else {
            let (m, rs) = self.run(cmds.drop_last());
            let (m2, r) = m.step(cmds.last());
            (m2, rs.push(r))
        }
    }
}

/// The routing table from identifiers to receivers, owning the receivers.
/// Several identifiers may route to one receiver; it is never copied.
pub struct Registry {
    receivers: Vec<Receiver>,
    locked: Vec<bool>,
    routes: Vec<Option<usize>>,
}

impl View for Registry {
    type V = RegistryModel;

    closed spec fn view(&self) -> RegistryModel {
        RegistryModel {
            receivers: self.receivers@.map_values(|r: Receiver| r@),
            locked: self.locked@,
            routes: self.routes@,
        }
    }
}

impl Registry {
    pub open spec fn wf(&self) -> bool {
        self@.wf()
    }

    pub fn new() -> (r: Registry)
        ensures
            r.wf(),
            r@.receivers == Seq::<ReceiverModel>::empty(),
            r@.locked == Seq::<bool>::empty(),
            forall|id: CommandId| #[trigger] r@.route(id) is None,
    {
        let routes: Vec<Option<usize>> = vec![None, None, None, None];
        let r = Registry { receivers: Vec::new(), locked: Vec::new(), routes };
        assert(r@.receivers =~= Seq::<ReceiverModel>::empty());
        r
    }

    /// Adds a receiver, with its guard free, and returns its handle.
    pub fn add_receiver(&mut self, receiver: Receiver) -> (h: usize)
        requires
            old(self).wf(),
        ensures
            final(self).wf(),
            h == old(self)@.receivers.len(),
            final(self)@.receivers == old(self)@.receivers.push(receiver@),
            final(self)@.locked == old(self)@.locked.push(false),
            final(self)@.routes == old(self)@.routes,
    {
        let h = self.receivers.len();
        self.receivers.push(receiver);
        self.locked.push(false);
        assert(self@.receivers =~= old(self)@.receivers.push(receiver@));
        h
    }

    /// Routes `id` to the receiver with handle `h`, replacing any earlier
    /// route; refused, with nothing changed, where no receiver has that handle.
    pub fn register(&mut self, id: CommandId, h: usize) -> (ok: bool)
        requires
            old(self).wf(),
        ensures
            final(self).wf(),
            ok == (h < old(self)@.receivers.len()),
            final(self)@.receivers == old(self)@.receivers,
            final(self)@.locked == old(self)@.locked,
            ok ==> final(self)@.routes == old(self)@.routes.update(id.spec_index() as int, Some(h)),
            !ok ==> final(self)@.routes == old(self)@.routes,
    {
        if h < self.receivers.len() {
            let i = id.index();
            self.routes.set(i, Some(h));
            true
        } else {
            false
        }
    }

    /// The handle of the receiver `id` routes to, if any.
    pub fn resolve(&self, id: CommandId) -> (r: Option<usize>)
        requires
            self.wf(),
        ensures
            r == self@.route(id),
    {
        self.routes[id.index()]
    }

    pub fn num_receivers(&self) -> (n: usize)
        ensures
            n == self@.receivers.len(),
    {
        self.receivers.len()
    }

    /// The receiver with handle `h`, if there is one.
    pub fn receiver(&self, h: usize) -> (r: Option<&Receiver>)
        ensures
            h < self@.receivers.len() ==> r is Some && r.unwrap()@ == self@.receivers[h as int],
            h >= self@.receivers.len() ==> r is None,
    {
        if h < self.receivers.len() {
            Some(&self.receivers[h])
        } else {
            None
        }
    }

    /// Takes the guard of receiver `h` without waiting: true where it was
    /// free, false where it is held or there is no such receiver.
    pub fn try_acquire(&mut self, h: usize) -> (acquired: bool)
        requires
            old(self).wf(),
        ensures
            final(self).wf(),
            acquired == (h < old(self)@.receivers.len() && !old(self)@.locked[h as int]),
            final(self)@.receivers == old(self)@.receivers,
            final(self)@.routes == old(self)@.routes,
            acquired ==> final(self)@.locked == old(self)@.locked.update(h as int, true),
            !acquired ==> final(self)@.locked == old(self)@.locked,
    {
        if h < self.locked.len() && !self.locked[h] {
            self.locked.set(h, true);
            true
        } else {
            false
        }
    }

    /// Frees the guard of receiver `h`; nothing changes where there is no such receiver.
    pub fn release(&mut self, h: usize)
        requires
            old(self).wf(),
        ensures
            final(self).wf(),
            final(self)@.receivers == old(self)@.receivers,
            final(self)@.routes == old(self)@.routes,
            h < old(self)@.receivers.len() ==> final(self)@.locked == old(self)@.locked.update(
                h as int,
                false,
            ),
            h >= old(self)@.receivers.len() ==> final(self)@.locked == old(self)@.locked,
    {
        if h < self.locked.len() {
            self.locked.set(h, false);
        }
    }

    /// Hands `args` to receiver `h`.
    fn deliver(&mut self, h: usize, args: CommandArgs) -> (r: bool)
        requires
            old(self).wf(),
            h < old(self)@.receivers.len(),
        ensures
            final(self).wf(),
            r == old(self)@.receivers[h as int].kind.accepts(args),
            final(self)@.receivers == old(self)@.receivers.update(
                h as int,
                old(self)@.receivers[h as int].after(args),
            ),
            final(self)@.locked == old(self)@.locked,
            final(self)@.routes == old(self)@.routes,
    {
        let r = self.receivers[h].handle_command(args);
        assert(self@.receivers =~= old(self)@.receivers.update(
            h as int,
            old(self)@.receivers[h as int].after(args),
        ));
        r.is_ok()
    }
    /// Delivers `command` to the receiver its identifier resolves to, under
    /// that receiver's guard, which is free again afterwards on every path.
    /// Drops it, with the reason, where no receiver is registered, where the
    /// guard is held elsewhere, or where the receiver does not recognize the payload.
    pub fn dispatch(&mut self, command: Command) -> (r: Result<usize, DispatchError>)
        requires
            old(self).wf(),
        ensures
            final(self).wf(),
            (final(self)@, r) == old(self)@.step(command),
    {
        let Command { cmd, args } = command;
        match self.resolve(cmd) {
            None => Err(DispatchError::UnknownIdentifier),
            Some(h) => {
                if !self.try_acquire(h) {
                    return Err(DispatchError::AccessUnavailable { receiver: h });
                }
                let handled = self.deliver(h, args);
                self.release(h);
                proof {
                    assert(self@.locked =~= old(self)@.locked);
                }
                if handled {
                    Ok(h)
                } else {
                    proof {
                        assert(self@.receivers =~= old(self)@.receivers);
                    }
                    Err(DispatchError::PayloadMismatch { receiver: h })
                }
            },
        }
    }

    /// Drains `queue` head first, dispatching each command; returns one
    /// outcome per command, in the order the commands were enqueued.
    pub fn dispatch_all(&mut self, queue: &mut CommandQueue) -> (r: Vec<Result<usize, DispatchError>>)
        requires
            old(self).wf(),
        ensures
            final(self).wf(),
            final(queue)@ == Seq::<Command>::empty(),
            (final(self)@, r@) == old(self)@.run(old(queue)@),
    {
        let ghost m0 = self@;
        let ghost cmds = queue@;
        let mut outcomes: Vec<Result<usize, DispatchError>> = Vec::new();
        let ghost mut i: int = 0;
        assert(cmds.subrange(0, 0) =~= Seq::<Command>::empty());
        assert(queue@ =~= cmds.subrange(0, cmds.len() as int));
        loop
            invariant
                self.wf(),
                m0 == old(self)@,
                cmds == old(queue)@,
                0 <= i <= cmds.len(),
                queue@ == cmds.subrange(i, cmds.len() as int),
                (self@, outcomes@) == m0.run(cmds.subrange(0, i)),
            decreases cmds.len() - i,
        {
            match queue.dequeue() {
                None => {
                    assert(i == cmds.len());
                    assert(cmds.subrange(0, i) =~= cmds);
                    return outcomes;
                },
                Some(c) => {
                    let ghost before = self@;
                    let out = self.dispatch(c);
                    outcomes.push(out);
                    proof {
                        let pre = cmds.subrange(0, i + 1);
                        assert(pre.drop_last() =~= cmds.subrange(0, i));
                        assert(pre.last() == c);
                        i = i + 1;
                        assert(queue@ =~= cmds.subrange(i, cmds.len() as int));
                    }
                },
            }
        }
    }
}

} // verus!
