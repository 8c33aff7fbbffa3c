//! Coalesced active transient attention and its notification.
use crate::domain::{AttentionReason, is_transient};
use vstd::prelude::*;

verus! {

/// A reason gets a new attention row unless it is transient and an active,
/// unresolved row of the same scope and reason already exists.
pub fn inserts_attention(reason: AttentionReason, active_exists: bool) -> (r: bool)
    ensures
        r == !(is_transient(reason) && active_exists),
{
    let transient = match reason {
        AttentionReason::Input | AttentionReason::NativeApproval
        | AttentionReason::ConnectionUncertainty => true,
        _ => false,
    };
    !(transient && active_exists)
}

/// A notification is queued for a write that asks for one and inserted at
/// least one attention row.
pub fn queues_notification(notify: bool, inserted: bool) -> (r: bool)
    ensures
        r == (notify && inserted),
{
    notify && inserted
}

/// Rows inserted for `reason` over `n` writes in one scope with no
/// resolution between them, starting with an active row or not.
pub open spec fn inserted_over(reason: AttentionReason, active: bool, n: nat) -> nat
    decreases n,
{
    if n == 0 {
        0
    } else {
        let inserts = !(is_transient(reason) && active);
        (if inserts {
            1nat
        } else {
            0nat
        }) + inserted_over(reason, active || inserts, (n - 1) as nat)
    }
}

/// Law: repeated transient attention in one scope yields at most one
/// active row (none when one is already active), while every write of a
/// final reason records its row.
pub proof fn lemma_transient_coalesces(reason: AttentionReason, active: bool, n: nat)
    ensures
        is_transient(reason) ==> inserted_over(reason, active, n) <= (if active {
            0nat
        } else {
            1nat
        }),
        !is_transient(reason) ==> inserted_over(reason, active, n) == n,
    decreases n,
{
    if n > 0 {
        let inserts = !(is_transient(reason) && active);
        lemma_transient_coalesces(reason, active || inserts, (n - 1) as nat);
        if is_transient(reason) && !active {
            lemma_transient_coalesces(reason, true, (n - 1) as nat);
        }
    }
}

} // verus!
