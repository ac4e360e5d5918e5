//! The shared-ownership counting discipline, stated abstractly.
//!
//! [`crate::shared_counter::SharedCounter`] and
//! [`crate::atomic_counter::AtomicSharedCounter`] keep separate
//! implementations of one discipline: cloning a live handle raises the count
//! by 1, dropping one lowers it by 1, and the block is destroyed exactly when
//! the count falls from 1 to 0. This module is that discipline as a machine
//! over whole operation sequences, and [`lemma_destroyed_exactly_once`]
//! proves its point: however clones and drops interleave, the payload is
//! alive exactly while some handle is, and is destroyed at most once — once
//! the count has reached 0, nothing revives it.

use vstd::prelude::*;

verus! {

/// One operation on a block's handles.
pub enum HandleOp {
    Clone,
    Drop,
}

/// The abstract block: how many handles are live, whether the payload still
/// is, and how many times it has been destroyed.
pub struct CountMachine {
    pub handles: nat,
    pub payload_live: bool,
    pub destructions: nat,
}

/// A fresh block: one handle, the payload alive, nothing destroyed.
pub open spec fn count_machine_init() -> CountMachine {
    CountMachine { handles: 1, payload_live: true, destructions: 0 }
}

/// How one operation moves the block. Cloning and dropping both go through a
/// live handle, so with none left neither applies; the drop that takes the
/// count to 0 destroys the payload.
pub open spec fn count_machine_step(m: CountMachine, op: HandleOp) -> CountMachine {
    match op {
        HandleOp::Clone => if m.handles > 0 {
            CountMachine { handles: m.handles + 1, ..m }
        } else {
            m
        },
        HandleOp::Drop => if m.handles > 0 {
            CountMachine {
                handles: (m.handles - 1) as nat,
                payload_live: m.handles > 1,
                destructions: if m.handles == 1 {
                    m.destructions + 1
                } else {
                    m.destructions
                },
            }
        } else {
            m
        },
    }
}

/// The block after a whole sequence of operations, oldest first.
pub open spec fn count_machine_run(ops: Seq<HandleOp>) -> CountMachine
    decreases ops.len(),
{
    if ops.len() == 0 {
        count_machine_init()
    } else {
        count_machine_step(count_machine_run(ops.drop_last()), ops.last())
    }
}

/// The discipline's invariant: the payload lives exactly while some handle
/// does, and destruction has happened exactly once when no handle is left.
pub open spec fn count_machine_inv(m: CountMachine) -> bool {
    &&& m.payload_live <==> m.handles > 0
    &&& m.destructions <= 1
    &&& m.destructions == 1 <==> m.handles == 0
}

/// Over every sequence of clones and drops, the payload is destroyed if and
/// only if the handle count reaches 0, and exactly once: the 1-to-0 drop
/// frees the block, and no later operation can free it again or bring it
/// back.
pub proof fn lemma_destroyed_exactly_once(ops: Seq<HandleOp>)
    ensures
        count_machine_inv(count_machine_run(ops)),
    decreases ops.len(),
{
    if ops.len() > 0 {
        lemma_destroyed_exactly_once(ops.drop_last());
    }
}

} // verus!
