use vstd::prelude::*;

use crate::identity::Identity;

verus! {

/// Where an escrow stands in its lifecycle. It only moves forward:
/// `Pending`, then `Funded`, then `Completed`.
#[derive(Clone, Copy, Debug, PartialEq, Eq, Structural)]
pub enum Status {
    Pending,
    Funded,
    Completed,
}

/// The fixed keys under which a host store keeps the fields of the record.
#[derive(Clone, Copy, Debug, PartialEq, Eq, Structural)]
pub enum DataKey {
    Client,
    Freelancer,
    Arbiter,
    Amount,
    Status,
    TokenAddress,
}

/// Why an escrow operation was rejected. A rejected operation changes nothing.
#[derive(Clone, Copy, Debug, PartialEq, Eq, Structural)]
pub enum EscrowError {
    /// The caller did not prove its identity, or holds no role that allows the operation.
    Unauthorized,
    /// `fund` on an escrow that already holds its payment.
    AlreadyFunded,
    /// The payment was already released.
    AlreadyReleased,
    /// `fund` with an amount that is not positive.
    InvalidAmount,
    /// The token collaborator reported that the transfer did not happen.
    TransferFailed,
    /// `init` on an escrow that already has a record.
    AlreadyInitialized,
    /// A state-changing operation before `init`.
    NotInitialized,
}

/// A token movement that the escrow asks its token collaborator to perform.
#[derive(Clone, Debug, PartialEq, Eq)]
pub enum Transfer {
    /// From the payer into the escrow's custody.
    Deposit { token: Identity, from: Identity, amount: i128 },
    /// From the escrow's custody to the payee.
    Payout { token: Identity, to: Identity, amount: i128 },
}

/// The escrow record as a mathematical value.
pub ghost struct EscrowState {
    pub client: Seq<u8>,
    pub freelancer: Seq<u8>,
    pub arbiter: Seq<u8>,
    pub token: Seq<u8>,
    pub amount: int,
    pub status: Status,
}

impl EscrowState {
    /// The custody invariant: the held amount is never negative, nothing is
    /// held once the payment is released, and a positive amount means the
    /// escrow was funded.
    pub open spec fn wf(self) -> bool {
        &&& 0 <= self.amount
        &&& self.status == Status::Completed ==> self.amount == 0
        &&& self.amount > 0 ==> self.status != Status::Pending
    }
}

/// The record that `init` creates.
pub open spec fn initial_state(
    client: Seq<u8>,
    freelancer: Seq<u8>,
    arbiter: Seq<u8>,
    token: Seq<u8>,
) -> EscrowState {
    EscrowState { client, freelancer, arbiter, token, amount: 0, status: Status::Pending }
}

/// Status as a query reports it; a missing record reads as `Pending`.
pub open spec fn status_of(s: Option<EscrowState>) -> Status {
    match s {
        Some(r) => r.status,
        None => Status::Pending,
    }
}

/// Amount as a query reports it; a missing record reads as zero.
pub open spec fn amount_of(s: Option<EscrowState>) -> int {
    match s {
        Some(r) => r.amount,
        None => 0,
    }
}

/// Why `fund` is refused before any transfer is attempted, if it is.
pub open spec fn fund_refusal(
    s: Option<EscrowState>,
    from: Seq<u8>,
    amount: int,
    authorized: bool,
) -> Option<EscrowError> {
    match s {
        None => Some(EscrowError::NotInitialized),
        Some(r) => {
            if !authorized || from != r.client {
                Some(EscrowError::Unauthorized)
            } else if amount <= 0 {
                Some(EscrowError::InvalidAmount)
            } else if r.status == Status::Funded {
                Some(EscrowError::AlreadyFunded)
            } else if r.status == Status::Completed {
                Some(EscrowError::AlreadyReleased)
            } else {
                None
            }
        },
    }
}

/// Why `release` is refused before any transfer is attempted, if it is.
pub open spec fn release_refusal(
    s: Option<EscrowState>,
    caller: Seq<u8>,
    authorized: bool,
) -> Option<EscrowError> {
    match s {
        None => Some(EscrowError::NotInitialized),
        Some(r) => {
            if !authorized || (caller != r.client && caller != r.arbiter) {
                Some(EscrowError::Unauthorized)
            } else if r.status == Status::Completed {
                Some(EscrowError::AlreadyReleased)
            } else {
                None
            }
        },
    }
}

/// The record and the result after `fund`, given whether the caller proved
/// its identity and whether the token transfer went through.
pub open spec fn fund_step(
    s: Option<EscrowState>,
    from: Seq<u8>,
    amount: int,
    authorized: bool,
    transferred: bool,
) -> (Option<EscrowState>, Result<(), EscrowError>) {
    match fund_refusal(s, from, amount, authorized) {
        Some(e) => (s, Err(e)),
        None => if transferred {
            (Some(EscrowState { amount, status: Status::Funded, ..s->0 }), Ok(()))
        } else {
            (s, Err(EscrowError::TransferFailed))
        },
    }
}

/// The record and the result after `release`, given whether the caller
/// proved its identity and whether the token transfer went through.
pub open spec fn release_step(
    s: Option<EscrowState>,
    caller: Seq<u8>,
    authorized: bool,
    transferred: bool,
) -> (Option<EscrowState>, Result<(), EscrowError>) {
    match release_refusal(s, caller, authorized) {
        Some(e) => (s, Err(e)),
        None => if transferred {
            (Some(EscrowState { amount: 0, status: Status::Completed, ..s->0 }), Ok(()))
        } else {
            (s, Err(EscrowError::TransferFailed))
        },
    }
}

struct EscrowRecord {
    client: Identity,
    freelancer: Identity,
    arbiter: Identity,
    token: Identity,
    amount: i128,
    status: Status,
}

impl View for EscrowRecord {
    type V = EscrowState;

    closed spec fn view(&self) -> EscrowState {
        EscrowState {
            client: self.client@,
            freelancer: self.freelancer@,
            arbiter: self.arbiter@,
            token: self.token@,
            amount: self.amount as int,
            status: self.status,
        }
    }
}

/// One escrow instance: the store of its single record, empty until `init`.
pub struct MilestoneEscrow {
    record: Option<EscrowRecord>,
}

impl View for MilestoneEscrow {
    type V = Option<EscrowState>;

    closed spec fn view(&self) -> Option<EscrowState> {
        match self.record {
            Some(r) => Some(r@),
            None => None,
        }
    }
}

impl MilestoneEscrow {
    /// The custody invariant holds of the record, if there is one.
    pub open spec fn wf(&self) -> bool {
        self@ matches Some(r) ==> r.wf()
    }

    /// An escrow instance with no record yet.
    pub fn new() -> (r: MilestoneEscrow)
        ensures
            r@ is None,
            r.wf(),
    {
        MilestoneEscrow { record: None }
    }

    /// Rebuilds an escrow from the fields of a stored record; `None` when
    /// they break the custody invariant.
    pub fn restore(
        client: Identity,
        freelancer: Identity,
        arbiter: Identity,
        token: Identity,
        amount: i128,
        status: Status,
    ) -> (r: Option<MilestoneEscrow>)
        ensures
            ({
                let st = EscrowState {
                    client: client@,
                    freelancer: freelancer@,
                    arbiter: arbiter@,
                    token: token@,
                    amount: amount as int,
                    status,
                };
                &&& r is Some <==> st.wf()
                &&& r matches Some(e) ==> e.wf() && e@ == Some(st)
            }),
    {
        if amount < 0 || (status == Status::Completed && amount != 0) || (amount > 0 && status
            == Status::Pending) {
            return None;
        }
        Some(
            MilestoneEscrow {
                record: Some(EscrowRecord { client, freelancer, arbiter, token, amount, status }),
            },
        )
    }

    /// Creates the record: the three parties and the token are fixed from
    /// here on, nothing is held, and the status is `Pending`. Any caller may
    /// do this, once.
    pub fn init(
        &mut self,
        client: Identity,
        freelancer: Identity,
        arbiter: Identity,
        token: Identity,
    ) -> (r: Result<(), EscrowError>)
        requires
            old(self).wf(),
        ensures
            final(self).wf(),
            old(self)@ is Some ==> r == Err::<(), EscrowError>(EscrowError::AlreadyInitialized)
                && final(self)@ == old(self)@,
            old(self)@ is None ==> r is Ok && final(self)@ == Some(
                initial_state(client@, freelancer@, arbiter@, token@),
            ),
    {
        if self.record.is_some() {
            return Err(EscrowError::AlreadyInitialized);
        }
        self.record = Some(
            EscrowRecord { client, freelancer, arbiter, token, amount: 0, status: Status::Pending },
        );
        Ok(())
    }

    /// The transfer that `fund` needs before it can commit: `amount` from the
    /// payer into custody, in the escrow's token. Refused, and nothing is to
    /// be moved, on exactly the inputs on which `fund_milestone` refuses.
    pub fn fund_transfer(&self, from: &Identity, amount: i128, authorized: bool) -> (r: Result<
        Transfer,
        EscrowError,
    >)
        ensures
            match fund_refusal(self@, from@, amount as int, authorized) {
                Some(e) => r == Err::<Transfer, EscrowError>(e),
                None => r matches Ok(Transfer::Deposit { token, from: payer, amount: n }) && token@
                    == self@->0.token && payer@ == from@ && n == amount,
            },
    {
        match &self.record {
            None => Err(EscrowError::NotInitialized),
            Some(rec) => {
                if !authorized || !from.same_as(&rec.client) {
                    Err(EscrowError::Unauthorized)
                } else if amount <= 0 {
                    Err(EscrowError::InvalidAmount)
                } else if rec.status == Status::Funded {
                    Err(EscrowError::AlreadyFunded)
                } else if rec.status == Status::Completed {
                    Err(EscrowError::AlreadyReleased)
                } else {
                    Ok(Transfer::Deposit { token: rec.token.duplicate(), from: from.duplicate(), amount })
                }
            },
        }
    }

    /// Funds the escrow with `amount` from the client. `authorized` says
    /// whether the caller proved control of `from`; `transferred` whether the
    /// deposit that `fund_transfer` named went through. Only then does the
    /// record take the amount and become `Funded`.
    pub fn fund_milestone(
        &mut self,
        from: &Identity,
        amount: i128,
        authorized: bool,
        transferred: bool,
    ) -> (r: Result<(), EscrowError>)
        requires
            old(self).wf(),
        ensures
            final(self).wf(),
            (final(self)@, r) == fund_step(old(self)@, from@, amount as int, authorized, transferred),
    {
        let refusal = match self.fund_transfer(from, amount, authorized) {
            Ok(_) => None,
            Err(e) => Some(e),
        };
        match refusal {
            Some(e) => Err(e),
            None => {
                if !transferred {
                    return Err(EscrowError::TransferFailed);
                }
                match &mut self.record {
                    Some(rec) => {
                        rec.amount = amount;
                        rec.status = Status::Funded;
                    },
                    None => {},
                }
                Ok(())
            },
        }
    }

    /// The transfer that `release` needs before it can commit: everything
    /// held, from custody to the freelancer, in the escrow's token. Refused
    /// on exactly the inputs on which `release_funds` refuses.
    pub fn release_transfer(&self, caller: &Identity, authorized: bool) -> (r: Result<
        Transfer,
        EscrowError,
    >)
        ensures
            match release_refusal(self@, caller@, authorized) {
                Some(e) => r == Err::<Transfer, EscrowError>(e),
                None => r matches Ok(Transfer::Payout { token, to, amount }) && token@
                    == self@->0.token && to@ == self@->0.freelancer && amount == self@->0.amount,
            },
    {
        match &self.record {
            None => Err(EscrowError::NotInitialized),
            Some(rec) => {
                if !authorized || (!caller.same_as(&rec.client) && !caller.same_as(&rec.arbiter)) {
                    Err(EscrowError::Unauthorized)
                } else if rec.status == Status::Completed {
                    Err(EscrowError::AlreadyReleased)
                } else {
                    Ok(
                        Transfer::Payout {
                            token: rec.token.duplicate(),
                            to: rec.freelancer.duplicate(),
                            amount: rec.amount,
                        },
                    )
                }
            },
        }
    }

    /// Releases the held amount to the freelancer, on behalf of the client or
    /// the arbiter. `authorized` says whether the caller proved control of
    /// `caller`; `transferred` whether the payout that `release_transfer`
    /// named went through. Only then is the escrow `Completed` and empty.
    /// Releasing an escrow that was never funded pays out zero.
    pub fn release_funds(&mut self, caller: &Identity, authorized: bool, transferred: bool) -> (r:
        Result<(), EscrowError>)
        requires
            old(self).wf(),
        ensures
            final(self).wf(),
            (final(self)@, r) == release_step(old(self)@, caller@, authorized, transferred),
    {
        let refusal = match self.release_transfer(caller, authorized) {
            Ok(_) => None,
            Err(e) => Some(e),
        };
        match refusal {
            Some(e) => Err(e),
            None => {
                if !transferred {
                    return Err(EscrowError::TransferFailed);
                }
                match &mut self.record {
                    Some(rec) => {
                        rec.status = Status::Completed;
                        rec.amount = 0;
                    },
                    None => {},
                }
                Ok(())
            },
        }
    }

    /// The current status; `Pending` before `init`. Reads only.
    pub fn status(&self) -> (r: Status)
        ensures
            r == status_of(self@),
    {
        match &self.record {
            Some(rec) => rec.status,
            None => Status::Pending,
        }
    }

    /// The amount held in custody; zero before `init`. Reads only.
    pub fn get_amount(&self) -> (r: i128)
        ensures
            r as int == amount_of(self@),
    {
        match &self.record {
            Some(rec) => rec.amount,
            None => 0,
        }
    }
}

} // verus!
