//! Properties of dispatch, stated over the registry model and proved.
use vstd::prelude::*;
use crate::command::Command;
use crate::receiver::Record;
use crate::registry::{DispatchError, RegistryModel};

verus! {

/// The records that receiver `h` of `m` emits, in order, when `cmds` are
/// dispatched one after another starting from `m`.
pub open spec fn records_for(m: RegistryModel, h: usize, cmds: Seq<Command>) -> Seq<Record>
    decreases cmds.len(),
{
    if cmds.len() == 0 {
        Seq::empty()
    } else {
        let prev = records_for(m, h, cmds.drop_last());
        let c = cmds.last();
        if m.route(c.cmd) == Some(h) && !m.locked[h as int] {
            match m.receivers[h as int].kind.entry(c.args) {
                Some(e) => prev.push(e),
                None => prev,
            }
        } else {
            prev
        }
    }
}

/// A dispatch changes no route and no guard, and no receiver's kind or
/// destination; it touches at most the log of the receiver it delivered to.
pub proof fn lemma_step_frame(m: RegistryModel, c: Command)
    requires
        m.wf(),
    ensures
        m.step(c).0.wf(),
        m.step(c).0.routes == m.routes,
        m.step(c).0.locked == m.locked,
        m.step(c).0.receivers.len() == m.receivers.len(),
        forall|k: int|
            0 <= k < m.receivers.len() ==> {
                &&& (#[trigger] m.step(c).0.receivers[k]).kind == m.receivers[k].kind
                &&& m.step(c).0.receivers[k].destination == m.receivers[k].destination
            },
{
}

/// Dispatching a sequence keeps the routes, the guards, the receivers' kinds
/// and destinations, and gives one outcome per command.
pub proof fn lemma_run_frame(m: RegistryModel, cmds: Seq<Command>)
    requires
        m.wf(),
    ensures
        m.run(cmds).0.wf(),
        m.run(cmds).0.routes == m.routes,
        m.run(cmds).0.locked == m.locked,
        m.run(cmds).0.receivers.len() == m.receivers.len(),
        m.run(cmds).1.len() == cmds.len(),
        forall|k: int|
            0 <= k < m.receivers.len() ==> {
                &&& (#[trigger] m.run(cmds).0.receivers[k]).kind == m.receivers[k].kind
                &&& m.run(cmds).0.receivers[k].destination == m.receivers[k].destination
            },
    decreases cmds.len(),
{
    if cmds.len() > 0 {
        lemma_run_frame(m, cmds.drop_last());
        lemma_step_frame(m.run(cmds.drop_last()).0, cmds.last());
    }
}

/// First in, first out: after a queue is drained, each receiver's log is its
/// old log followed by the records of the commands delivered to it, in the
/// order those commands were enqueued.
pub proof fn lemma_fifo(m: RegistryModel, cmds: Seq<Command>, h: usize)
    requires
        m.wf(),
        h < m.receivers.len(),
    ensures
        m.run(cmds).0.receivers[h as int].log == m.receivers[h as int].log + records_for(m, h, cmds),
    decreases cmds.len(),
{
    if cmds.len() == 0 {
        assert(m.receivers[h as int].log + Seq::<Record>::empty() =~= m.receivers[h as int].log);
    } else {
        let pre = cmds.drop_last();
        lemma_fifo(m, pre, h);
        lemma_run_frame(m, pre);
        let mid = m.run(pre).0;
        let c = cmds.last();
        lemma_step_frame(mid, c);
        let prev = records_for(m, h, pre);
        match mid.route(c.cmd) {
            Some(g) => {
                if !mid.locked[g as int] && mid.receivers[g as int].kind.accepts(c.args) && g == h {
                    let e = m.receivers[h as int].kind.entry(c.args).unwrap();
                    assert(m.receivers[h as int].log + prev.push(e) =~= (m.receivers[h as int].log
                        + prev).push(e));
                }
            },
            None => {},
        }
    }
}

/// Dispatching `c` and then `rest` is the same as dispatching `c` followed by `rest` as one sequence.
pub proof fn lemma_run_prepend(m: RegistryModel, c: Command, rest: Seq<Command>)
    ensures
        m.run(seq![c] + rest) == ({
            let (m1, r) = m.step(c);
            let (m2, rs) = m1.run(rest);
            (m2, seq![r] + rs)
        }),
    decreases rest.len(),
{
    let all = seq![c] + rest;
    if rest.len() == 0 {
        assert(all.drop_last() =~= Seq::<Command>::empty());
        assert(all.last() == c);
        let r = m.step(c).1;
        assert(m.run(all.drop_last()) == (m, Seq::<Result<usize, DispatchError>>::empty()));
        assert(m.step(c).0.run(rest) == (m.step(c).0, Seq::<Result<usize, DispatchError>>::empty()));
        assert(Seq::<Result<usize, DispatchError>>::empty().push(r) =~= seq![r]
            + Seq::<Result<usize, DispatchError>>::empty());
        assert(m.run(all) == (m.step(c).0, seq![r]));
    } else {
        assert(all.drop_last() =~= seq![c] + rest.drop_last());
        assert(all.last() == rest.last());
        lemma_run_prepend(m, c, rest.drop_last());
        let (m1, r) = m.step(c);
        let (ma, rsa) = m1.run(rest.drop_last());
        let (mb, rb) = ma.step(rest.last());
        assert((seq![r] + rsa).push(rb) =~= seq![r] + rsa.push(rb));
        assert(m.run(all.drop_last()) == (ma, seq![r] + rsa));
        assert(m1.run(rest) == (mb, rsa.push(rb)));
        assert(m.run(all) == (mb, (seq![r] + rsa).push(rb)));
    }
}

/// A command whose identifier routes to a receiver that is free and
/// recognizes its payload is handled by exactly that receiver: one record
/// more in its log, and no other receiver changed.
pub proof fn lemma_routing(m: RegistryModel, c: Command, h: usize)
    requires
        m.wf(),
        m.route(c.cmd) == Some(h),
        !m.locked[h as int],
        m.receivers[h as int].kind.accepts(c.args),
    ensures
        m.step(c).1 == Ok::<usize, DispatchError>(h),
        m.step(c).0.receivers[h as int].log == m.receivers[h as int].log.push(
            m.receivers[h as int].kind.entry(c.args).unwrap(),
        ),
        forall|k: int|
            0 <= k < m.receivers.len() && k != h ==> #[trigger] m.step(c).0.receivers[k]
                == m.receivers[k],
        m.step(c).0.receivers.len() == m.receivers.len(),
{
}

/// A command whose identifier has no route is dropped as unknown, changes
/// nothing, and leaves the dispatch of the commands queued after it as it
/// would have been without it.
pub proof fn lemma_unknown_identifier(m: RegistryModel, c: Command, rest: Seq<Command>)
    requires
        m.wf(),
        m.route(c.cmd) is None,
    ensures
        m.step(c) == (m, Err::<usize, DispatchError>(DispatchError::UnknownIdentifier)),
        m.run(seq![c] + rest) == (
            m.run(rest).0,
            seq![Err::<usize, DispatchError>(DispatchError::UnknownIdentifier)] + m.run(rest).1,
        ),
{
    lemma_run_prepend(m, c, rest);
}

/// A command routed to a free receiver that does not recognize its payload
/// is dropped by that receiver, and nothing changes.
pub proof fn lemma_payload_mismatch(m: RegistryModel, c: Command, h: usize)
    requires
        m.wf(),
        m.route(c.cmd) == Some(h),
        !m.locked[h as int],
        !m.receivers[h as int].kind.accepts(c.args),
    ensures
        m.step(c) == (m, Err::<usize, DispatchError>(DispatchError::PayloadMismatch { receiver: h })),
{
}

/// Exclusive access: no command is delivered to a receiver whose guard is
/// held, and every dispatch leaves each guard as it found it, so the guard
/// taken for a delivery is released before the next one starts.
pub proof fn lemma_exclusive_access(m: RegistryModel, c: Command, h: usize)
    requires
        m.wf(),
        m.route(c.cmd) == Some(h),
    ensures
        m.step(c).0.locked == m.locked,
        m.locked[h as int] ==> m.step(c) == (m, Err::<usize, DispatchError>(
            DispatchError::AccessUnavailable { receiver: h },
        )),
{
}

} // verus!
