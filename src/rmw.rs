use vstd::prelude::*;

use crate::command::spec_rmw_value;
use crate::command::rmw_value;

verus! {

/// Seconds within which the read of a read-modify-write must be answered.
pub const RMW_TIMEOUT_SECS: u64 = 5;

/// A read-modify-write waiting for the value of its register.
#[derive(Clone, Copy, Debug, PartialEq, Eq, Structural)]
pub struct PendingRmw {
    pub register: u16,
    pub mask: u16,
    pub set: bool,
    pub deadline: u64,
}

/// What a reply to a holding-register read means for the pending read-modify-writes.
#[derive(Clone, Copy, Debug, PartialEq, Eq, Structural)]
pub enum RmwOutcome {
    /// Write this value back to the register.
    Write { register: u16, value: u16 },
    /// The reply came after the deadline; the write is abandoned.
    Expired { register: u16 },
    /// No read-modify-write waits for this register.
    NotPending,
}

/// Why a read-modify-write could not start.
#[derive(Clone, Copy, Debug, PartialEq, Eq, Structural)]
pub enum RmwError {
    /// Another read-modify-write of the register is in flight.
    Busy,
}

/// The position of the pending read-modify-write of `register`, or -1.
pub open spec fn pending_index(ps: Seq<PendingRmw>, register: u16) -> int
    decreases ps.len(),
{
    if ps.len() == 0 {
        -1
    } else if ps.last().register == register {
        ps.len() - 1
    } else {
        pending_index(ps.drop_last(), register)
    }
}

proof fn lemma_pending_index_range(ps: Seq<PendingRmw>, register: u16)
    ensures
        -1 <= pending_index(ps, register) < ps.len(),
        pending_index(ps, register) >= 0 ==> ps[pending_index(ps, register)].register == register,
        pending_index(ps, register) == -1 ==> forall|j: int|
            0 <= j < ps.len() ==> ps[j].register != register,
    decreases ps.len(),
{
    if ps.len() > 0 {
        lemma_pending_index_range(ps.drop_last(), register);
        if pending_index(ps, register) == -1 {
            assert forall|j: int| 0 <= j < ps.len() implies ps[j].register != register by {
                if j < ps.len() - 1 {
                    assert(ps[j] == ps.drop_last()[j]);
                }
            }
        }
    }
}

/// The read-modify-writes still waiting at `now`.
pub open spec fn kept(ps: Seq<PendingRmw>, now: u64) -> Seq<PendingRmw>
    decreases ps.len(),
{
    if ps.len() == 0 {
        Seq::empty()
    } else if ps.last().deadline >= now {
        kept(ps.drop_last(), now).push(ps.last())
    } else {
        kept(ps.drop_last(), now)
    }
}

/// The registers of the read-modify-writes whose deadline passed before `now`.
pub open spec fn expired(ps: Seq<PendingRmw>, now: u64) -> Seq<u16>
    decreases ps.len(),
{
    if ps.len() == 0 {
        Seq::empty()
    } else if ps.last().deadline >= now {
        expired(ps.drop_last(), now)
    } else {
        expired(ps.drop_last(), now).push(ps.last().register)
    }
}

/// The read-modify-writes in flight towards one inverter, at most one per register.
#[derive(Clone, Debug)]
pub struct RmwTracker {
    pub pending: Vec<PendingRmw>,
}

impl RmwTracker {
    /// At most one read-modify-write per register.
    pub open spec fn wf(&self) -> bool {
        forall|i: int, j: int|
            0 <= i < j < self.pending@.len() ==> #[trigger] self.pending@[i].register
                != #[trigger] self.pending@[j].register
    }

    pub fn new() -> (r: RmwTracker)
        ensures
            r.wf(),
            r.pending@.len() == 0,
    {
        RmwTracker { pending: Vec::new() }
    }

    fn find(&self, register: u16) -> (r: Option<usize>)
        ensures
            match r {
                Some(i) => i as int == pending_index(self.pending@, register),
                None => pending_index(self.pending@, register) == -1,
            },
    {
        proof {
            lemma_pending_index_range(self.pending@, register);
        }
        let mut i: usize = self.pending.len();
        assert(self.pending@.subrange(0, i as int) =~= self.pending@);
        while i > 0
            invariant
                0 <= i <= self.pending@.len(),
                pending_index(self.pending@, register) == pending_index(
                    self.pending@.subrange(0, i as int),
                    register,
                ),
            decreases i,
        {
            let ghost sub = self.pending@.subrange(0, i as int);
            assert(sub.drop_last() =~= self.pending@.subrange(0, i - 1));
            if self.pending[i - 1].register == register {
                return Some(i - 1);
            }
            i = i - 1;
        }
        None
    }

    /// Starts a read-modify-write of `register` at `now`, unless one is in flight; its
    /// read must be answered by `now + RMW_TIMEOUT_SECS`.
    pub fn start(&mut self, register: u16, mask: u16, set: bool, now: u64) -> (r: Result<
        (),
        RmwError,
    >)
        requires
            old(self).wf(),
            now <= u64::MAX - RMW_TIMEOUT_SECS,
        ensures
            final(self).wf(),
            pending_index(old(self).pending@, register) >= 0 ==> r == Err::<(), RmwError>(
                RmwError::Busy,
            ) && final(self).pending@ == old(self).pending@,
            pending_index(old(self).pending@, register) == -1 ==> r == Ok::<(), RmwError>(())
                && final(self).pending@ == old(self).pending@.push(
                PendingRmw { register, mask, set, deadline: (now + RMW_TIMEOUT_SECS) as u64 },
            ),
    {
        proof {
            lemma_pending_index_range(self.pending@, register);
        }
        match self.find(register) {
            Some(_) => Err(RmwError::Busy),
            None => {
                self.pending.push(
                    PendingRmw { register, mask, set, deadline: now + RMW_TIMEOUT_SECS },
                );
                Ok(())
            },
        }
    }

    /// Takes the reply `value` of `register` at `now`: the waiting read-modify-write is
    /// done, and its masked value is to be written back unless its deadline passed.
    pub fn on_reply(&mut self, register: u16, value: u16, now: u64) -> (r: RmwOutcome)
        requires
            old(self).wf(),
        ensures
            final(self).wf(),
            ({
                let i = pending_index(old(self).pending@, register);
                if i == -1 {
                    r == RmwOutcome::NotPending && final(self).pending@ == old(self).pending@
                } else {
                    let p = old(self).pending@[i];
                    &&& final(self).pending@ == old(self).pending@.remove(i)
                    &&& r == (if now <= p.deadline {
                        RmwOutcome::Write {
                            register,
                            value: spec_rmw_value(value, p.mask, p.set),
                        }
                    } else {
                        RmwOutcome::Expired { register }
                    })
                }
            }),
    {
        proof {
            lemma_pending_index_range(self.pending@, register);
        }
        match self.find(register) {
            None => RmwOutcome::NotPending,
            Some(i) => {
                let p = self.pending.remove(i);
                if now <= p.deadline {
                    RmwOutcome::Write { register, value: rmw_value(value, p.mask, p.set) }
                } else {
                    RmwOutcome::Expired { register }
                }
            },
        }
    }

    /// Abandons every read-modify-write whose deadline passed before `now`, and returns
    /// their registers, in order.
    pub fn expire(&mut self, now: u64) -> (r: Vec<u16>)
        requires
            old(self).wf(),
        ensures
            final(self).wf(),
            final(self).pending@ == kept(old(self).pending@, now),
            r@ == expired(old(self).pending@, now),
    {
        let ghost ps = self.pending@;
        let mut keep: Vec<PendingRmw> = Vec::new();
        let mut gone: Vec<u16> = Vec::new();
        let mut i: usize = 0;
        while i < self.pending.len()
            invariant
                self.pending@ == ps,
                0 <= i <= ps.len(),
                keep@ == kept(ps.subrange(0, i as int), now),
                gone@ == expired(ps.subrange(0, i as int), now),
                forall|k: int|
                    0 <= k < keep@.len() ==> exists|j: int|
                        0 <= j < i && #[trigger] keep@[k] == ps[j],
                forall|a: int, b: int|
                    0 <= a < b < keep@.len() ==> #[trigger] keep@[a].register
                        != #[trigger] keep@[b].register,
                forall|a: int, b: int|
                    0 <= a < b < ps.len() ==> #[trigger] ps[a].register != #[trigger] ps[b].register,
                forall|k: int|
                    0 <= k < keep@.len() ==> exists|j: int|
                        0 <= j < i && #[trigger] keep@[k].register == ps[j].register,
            decreases ps.len() - i,
        {
            let p = self.pending[i];
            assert(ps.subrange(0, i + 1).drop_last() =~= ps.subrange(0, i as int));
            if p.deadline >= now {
                proof {
                    assert forall|a: int| 0 <= a < keep@.len() implies keep@[a].register
                        != p.register by {
                        let j = choose|j: int| 0 <= j < i && keep@[a].register == ps[j].register;
                        assert(ps[j].register != ps[i as int].register);
                    }
                }
                keep.push(p);
            } else {
                gone.push(p.register);
            }
            i = i + 1;
        }
        assert(ps.subrange(0, ps.len() as int) =~= ps);
        self.pending = keep;
        gone
    }
}

} // verus!
