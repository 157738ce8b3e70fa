use vstd::prelude::*;

use crate::escrow::{fund_step, release_step, EscrowError, EscrowState, Status};

verus! {

/// Only the client can fund: for any other caller `fund` is refused with
/// `Unauthorized` and the record stays as it was, whatever the amount, the
/// proof of identity or the transfer.
pub proof fn fund_only_by_client(
    s: EscrowState,
    from: Seq<u8>,
    amount: int,
    authorized: bool,
    transferred: bool,
)
    requires
        from != s.client,
    ensures
        fund_step(Some(s), from, amount, authorized, transferred) == (
            Some(s),
            Err::<(), EscrowError>(EscrowError::Unauthorized),
        ),
{
}

/// Only the client or the arbiter can release: for any other caller
/// `release` is refused with `Unauthorized` and the record stays as it was.
pub proof fn release_only_by_client_or_arbiter(
    s: EscrowState,
    caller: Seq<u8>,
    authorized: bool,
    transferred: bool,
)
    requires
        caller != s.client,
        caller != s.arbiter,
    ensures
        release_step(Some(s), caller, authorized, transferred) == (
            Some(s),
            Err::<(), EscrowError>(EscrowError::Unauthorized),
        ),
{
}

/// A payment is released at most once: after a successful `release`, a
/// later `release` by the client or the arbiter, with proof of identity, is
/// refused with `AlreadyReleased` and changes nothing.
pub proof fn release_happens_once(
    s: Option<EscrowState>,
    first: Seq<u8>,
    first_authorized: bool,
    first_transferred: bool,
    second: Seq<u8>,
    second_transferred: bool,
)
    requires
        release_step(s, first, first_authorized, first_transferred).1 is Ok,
        second == s->0.client || second == s->0.arbiter,
    ensures
        ({
            let after = release_step(s, first, first_authorized, first_transferred).0;
            release_step(after, second, true, second_transferred) == (
                after,
                Err::<(), EscrowError>(EscrowError::AlreadyReleased),
            )
        }),
{
}

/// After a successful `release` the escrow is `Completed` and holds nothing,
/// both at once.
pub proof fn released_escrow_is_empty(
    s: Option<EscrowState>,
    caller: Seq<u8>,
    authorized: bool,
    transferred: bool,
)
    requires
        release_step(s, caller, authorized, transferred).1 is Ok,
    ensures
        release_step(s, caller, authorized, transferred).0 matches Some(r) && r.status
            == Status::Completed && r.amount == 0,
{
}

/// A transfer that fails leaves the record exactly as it was, in `fund` and
/// in `release` alike.
pub proof fn failed_transfer_changes_nothing(
    s: Option<EscrowState>,
    from: Seq<u8>,
    amount: int,
    caller: Seq<u8>,
    authorized: bool,
)
    ensures
        fund_step(s, from, amount, authorized, false).0 == s,
        fund_step(s, from, amount, authorized, false).1 is Err,
        release_step(s, caller, authorized, false).0 == s,
        release_step(s, caller, authorized, false).1 is Err,
{
}

/// Every operation keeps the custody invariant of the record.
pub proof fn steps_keep_custody_invariant(
    s: Option<EscrowState>,
    from: Seq<u8>,
    amount: int,
    caller: Seq<u8>,
    authorized: bool,
    transferred: bool,
)
    requires
        s matches Some(r) ==> r.wf(),
    ensures
        fund_step(s, from, amount, authorized, transferred).0 matches Some(r) ==> r.wf(),
        release_step(s, caller, authorized, transferred).0 matches Some(r) ==> r.wf(),
{
}

} // verus!
