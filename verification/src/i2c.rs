//! The I2C transaction planner.
//!
//! An I2C transaction addresses one slave and then runs its operations
//! strictly in order, short-circuiting on the first failure. The planner is
//! the pure part: it widens the seven-bit address and lays out the ordered
//! action list the caller drives against the bus.

use vstd::prelude::*;

verus! {

/// A caller-supplied abstract I2C operation.
#[derive(Clone, Debug, PartialEq, Eq)]
pub enum I2cOperation {
    /// Read bytes into the buffer; its length gives the number of bytes.
    Read(Vec<u8>),
    /// Write the buffer's bytes.
    Write(Vec<u8>),
}

/// One step of an I2C transaction as driven against the bus.
#[derive(Clone, Debug, PartialEq, Eq)]
pub enum I2cAction {
    /// Select the slave the whole transaction addresses.
    SetSlaveAddress(u16),
    /// Read the given number of bytes.
    Read(usize),
    /// Write the given bytes.
    Write(Vec<u8>),
}

/// What the planner produces for one operation: a read becomes a read of the
/// buffer's length, a write transmits the buffer's bytes.
pub open spec fn action_matches_op(action: I2cAction, op: I2cOperation) -> bool {
    match op {
        I2cOperation::Read(buf) => action matches I2cAction::Read(n) && n == buf@.len(),
        I2cOperation::Write(buf) => action matches I2cAction::Write(w) && w@ == buf@,
    }
}

/// Lays out one I2C transaction: first the slave address — the seven-bit
/// address widened to the bus's sixteen-bit address space — then one action
/// per operation, in the operations' order. The caller runs the actions in
/// list order and stops at the first failure; its classified error is the
/// only error the transaction surfaces.
pub fn plan_transaction(address: u8, operations: &Vec<I2cOperation>) -> (plan: Vec<I2cAction>)
    ensures
        plan@.len() == operations@.len() + 1,
        plan@[0] == I2cAction::SetSlaveAddress(address as u16),
        forall|i: int| 0 <= i < operations@.len() ==>
            action_matches_op(#[trigger] plan@[i + 1], operations@[i]),
{
    let mut plan: Vec<I2cAction> = Vec::new();
    plan.push(I2cAction::SetSlaveAddress(address as u16));
    let mut i: usize = 0;
    while i < operations.len()
        invariant
            i <= operations@.len(),
            plan@.len() == i + 1,
            plan@[0] == I2cAction::SetSlaveAddress(address as u16),
            forall|j: int| 0 <= j < i ==>
                action_matches_op(#[trigger] plan@[j + 1], operations@[j]),
        decreases operations@.len() - i,
    {
        let action = match &operations[i] {
            I2cOperation::Read(buf) => I2cAction::Read(buf.len()),
            I2cOperation::Write(buf) => I2cAction::Write(crate::segment::snapshot_bytes(buf)),
        };
        plan.push(action);
        i = i + 1;
    }
    plan
}

} // verus!
