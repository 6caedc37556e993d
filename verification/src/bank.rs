//! Module dispatcher and the bundled token module. The dispatcher routes a
//! verified transaction's sender and runtime message to the module that owns
//! the message; the kernel treats the call as opaque and relies only on its
//! contract. Runtimes are composed statically: one enum variant per concrete
//! runtime, selected when the node is assembled.
//!
//! Token-module message format: one kind byte (1 mint, 2 transfer), the
//! target account as eight little-endian bytes, and the amount as eight
//! little-endian bytes.

use vstd::prelude::*;
use crate::auth::le_bytes_u64;
use crate::state::{map_get, StateHandle, StateKey};

verus! {

/// How a module refused a transaction.
#[derive(Clone, Copy, PartialEq, Eq, Structural, Debug)]
pub enum DispatchError {
    /// Business-logic rejection: this transaction is dropped, the batch
    /// continues.
    ModuleFailure,
    /// Explicit abort signal: the module found its state unaccountable (a
    /// balance counter would overflow) and the whole batch must revert.
    Abort,
}

/// The concrete runtimes a node can be composed with.
#[derive(Clone, Copy, PartialEq, Eq, Structural, Debug)]
pub enum Runtime {
    /// The bundled token module: mint and transfer over account balances.
    Bank,
}

/// The token balance of account `account` in snapshot `st` (zero when absent).
pub open spec fn bal_of(st: Map<StateKey, u64>, account: u64) -> u64 {
    match map_get(st, StateKey::AccountBalance(account)) {
        Some(v) => v,
        None => 0u64,
    }
}

/// Whether the token module can decode `m`: exactly one kind byte, a target
/// account and an amount, with a known kind.
pub open spec fn msg_wf(m: Seq<u8>) -> bool {
    m.len() == 17 && (m[0] == 1u8 || m[0] == 2u8)
}

/// The target account named by a well-formed token message.
pub open spec fn msg_target(m: Seq<u8>) -> u64 {
    le_bytes_u64(m.subrange(1, 9))
}

/// The amount named by a well-formed token message.
pub open spec fn msg_amount(m: Seq<u8>) -> u64 {
    le_bytes_u64(m.subrange(9, 17))
}

/// What the token module does with message `m` from `sender` on snapshot
/// `st`: the updated snapshot, or the failure. A mint credits the target; a
/// transfer moves the amount from the sender to the target. An undecodable
/// message or an underfunded transfer is a module failure; a balance counter
/// that would overflow raises the abort signal.
pub open spec fn bank_result(st: Map<StateKey, u64>, sender: u64, m: Seq<u8>) -> Result<
    Map<StateKey, u64>,
    DispatchError,
> {
    if !msg_wf(m) {
        Err(DispatchError::ModuleFailure)
    } else {
        let target = msg_target(m);
        let amount = msg_amount(m);
        if m[0] == 1u8 {
            if bal_of(st, target) + amount > u64::MAX {
                Err(DispatchError::Abort)
            } else {
                Ok(st.insert(StateKey::AccountBalance(target), (bal_of(st, target) + amount) as u64))
            }
        } else {
            if bal_of(st, sender) < amount {
                Err(DispatchError::ModuleFailure)
            } else if sender == target {
                Ok(st)
            } else if bal_of(st, target) + amount > u64::MAX {
                Err(DispatchError::Abort)
            } else {
                Ok(
                    st.insert(StateKey::AccountBalance(sender), (bal_of(st, sender) - amount) as u64)
                        .insert(StateKey::AccountBalance(target), (bal_of(st, target) + amount) as u64),
                )
            }
        }
    }
}

/// What dispatching through runtime `rt` does: routes to the owning module.
pub open spec fn dispatch_result(
    rt: Runtime,
    st: Map<StateKey, u64>,
    sender: u64,
    m: Seq<u8>,
) -> Result<Map<StateKey, u64>, DispatchError> {
    match rt {
        Runtime::Bank => bank_result(st, sender, m),
    }
}

/// The token balance of `account` (zero when no record exists).
pub fn balance_of(ws: &StateHandle, account: u64) -> (r: u64)
    requires
        ws.wf(),
    ensures
        r == bal_of(ws.view(), account),
{
    match ws.read(StateKey::AccountBalance(account)) {
        Some(v) => v,
        None => 0,
    }
}

/// The u64 held in eight little-endian bytes of `m` starting at `off`.
fn le_u64_at(m: &[u8], off: usize) -> (r: u64)
    requires
        off + 8 <= m@.len(),
    ensures
        r == le_bytes_u64(m@.subrange(off as int, off as int + 8)),
{
    let r: u64 = m[off] as u64 + (m[off + 1] as u64) * 0x100 + (m[off + 2] as u64) * 0x1_0000 + (
    m[off + 3] as u64) * 0x100_0000 + (m[off + 4] as u64) * 0x1_0000_0000 + (m[off + 5] as u64)
        * 0x100_0000_0000 + (m[off + 6] as u64) * 0x1_0000_0000_0000 + (m[off + 7] as u64)
        * 0x100_0000_0000_0000;
    proof {
        let sub = m@.subrange(off as int, off as int + 8);
        assert(sub[0] == m@[off as int]);
        assert(sub[1] == m@[off as int + 1]);
        assert(sub[2] == m@[off as int + 2]);
        assert(sub[3] == m@[off as int + 3]);
        assert(sub[4] == m@[off as int + 4]);
        assert(sub[5] == m@[off as int + 5]);
        assert(sub[6] == m@[off as int + 6]);
        assert(sub[7] == m@[off as int + 7]);
    }
    r
}

/// Dispatches `(sender, msg)` to the module that owns the message. Writes go
/// to the innermost open scope only: every enclosing checkpoint's snapshot is
/// preserved, so the caller can always discard this call's effects. On any
/// failure the state is untouched.
pub fn dispatch(rt: &Runtime, sender: u64, msg: &[u8], ws: &mut StateHandle) -> (r: Result<
    (),
    DispatchError,
>)
    requires
        old(ws).wf(),
    ensures
        final(ws).wf(),
        final(ws).depth() == old(ws).depth(),
        forall|d: int| 0 <= d < old(ws).depth() ==> final(ws).view_at(d) == old(ws).view_at(d),
        r is Ok <==> dispatch_result(*rt, old(ws).view(), sender, msg@) is Ok,
        r is Ok ==> final(ws).view() == dispatch_result(*rt, old(ws).view(), sender, msg@).unwrap(),
        r is Err ==> *final(ws) == *old(ws) && dispatch_result(*rt, old(ws).view(), sender, msg@)
            == Err::<Map<StateKey, u64>, DispatchError>(r.unwrap_err()),
{
    match rt {
        Runtime::Bank => {
            if msg.len() != 17 {
                return Err(DispatchError::ModuleFailure);
            }
            let kind = msg[0];
            if kind != 1u8 && kind != 2u8 {
                return Err(DispatchError::ModuleFailure);
            }
            let target = le_u64_at(msg, 1);
            let amount = le_u64_at(msg, 9);
            let bal_target = match ws.read(StateKey::AccountBalance(target)) {
                Some(v) => v,
                None => 0,
            };
            if kind == 1u8 {
                if amount > u64::MAX - bal_target {
                    return Err(DispatchError::Abort);
                }
                ws.write(StateKey::AccountBalance(target), bal_target + amount);
                Ok(())
            } else {
                let bal_sender = match ws.read(StateKey::AccountBalance(sender)) {
                    Some(v) => v,
                    None => 0,
                };
                if bal_sender < amount {
                    return Err(DispatchError::ModuleFailure);
                }
                if sender == target {
                    return Ok(());
                }
                if amount > u64::MAX - bal_target {
                    return Err(DispatchError::Abort);
                }
                ws.write(StateKey::AccountBalance(sender), bal_sender - amount);
                ws.write(StateKey::AccountBalance(target), bal_target + amount);
                Ok(())
            }
        },
    }
}

} // verus!
