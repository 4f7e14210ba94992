use vstd::prelude::*;
use crate::address::{donation_pda, fund_pda, derive_donation_address, derive_fund_address};
use crate::bytes::bytes_eq;
use crate::errors::LedgerError;

verus! {

/// The singleton fund record.
pub struct Fund {
    /// Identity of the founder; set once at creation, immutable thereafter.
    pub authority_key: Vec<u8>,
    /// The salt under which the fund record's address was derived.
    pub address_salt: u8,
    /// Number of donations opened and not yet closed.
    pub outstanding_donation_count: u64,
}

/// One accepted donation, ordinally addressed by its sequence index.
pub struct Donation {
    /// The fund's outstanding count at the moment this donation was created.
    pub sequence_index: u64,
    /// Identity of the contributing party; immutable.
    pub donor_key: Vec<u8>,
    /// The total value the donor authorized for transfer; immutable.
    pub amount: u64,
    /// The salt under which this record's address was derived.
    pub address_salt: u8,
    /// The storage deposit locked in this record's own balance, returned to
    /// the fund's authority when the record is closed.
    pub deposit: u64,
}

/// The whole state an operation may read or write: the owning program's
/// identity, the fund record if one exists, the stack of open donation
/// records, and the balance held by the fund record.
pub struct Ledger {
    /// The 32-byte identity of the owning program, part of every derived
    /// record address.
    pub program_id: Vec<u8>,
    /// The fund record, present between `create` and `withdraw`.
    pub fund: Option<Fund>,
    /// The open donation records, in creation order; the record at position
    /// `i` has sequence index `i`.
    pub donations: Vec<Donation>,
    /// The balance held by the fund record: its storage deposit plus every
    /// transferred donation remainder.
    pub fund_balance: u64,
}

impl Ledger {
    /// Well-formedness: the program identity is 32 bytes; while a fund
    /// exists its outstanding count equals the number of open donation
    /// records and those records carry their positions as sequence indices;
    /// without a fund there are no donations and no balance.
    pub open spec fn wf(self) -> bool {
        &&& self.program_id@.len() == 32
        &&& match self.fund {
            Some(f) => {
                &&& f.outstanding_donation_count as int == self.donations@.len()
                &&& forall|i: int|
                    0 <= i < self.donations@.len() ==> (#[trigger] self.donations@[i]).sequence_index as int == i
            },
            None => self.donations@.len() == 0 && self.fund_balance == 0,
        }
    }

    /// The outstanding donation count, `0` when no fund exists.
    pub open spec fn count(self) -> u64 {
        match self.fund {
            Some(f) => f.outstanding_donation_count,
            None => 0,
        }
    }

    /// An empty ledger for a program identity: no fund, no donations.
    pub fn new(program_id: Vec<u8>) -> (r: Ledger)
        requires
            program_id@.len() == 32,
        ensures
            r.wf(),
            r.fund is None,
            r.donations@.len() == 0,
            r.fund_balance == 0,
            r.program_id@ == program_id@,
    {
        Ledger { program_id, fund: None, donations: Vec::new(), fund_balance: 0 }
    }
}

/// The failure `create` reports on a given prior state, or `None` when it
/// must succeed: a fund may not already exist, and the fund address must be
/// derivable.
pub open spec fn create_error(pre: Ledger) -> Option<LedgerError> {
    if pre.fund is Some {
        Some(LedgerError::AllocationConflict)
    } else if fund_pda(pre.program_id@) is None {
        Some(LedgerError::AddressMismatch)
    } else {
        None
    }
}

/// The failure `donate` reports on a given prior state and arguments, or
/// `None` when it must succeed. Checked in order: the fund must exist and be
/// correctly addressed, the new donation's address must be derivable, the
/// amount must cover the reserve, and the transfer of `amount - reserve`
/// from the donor to the fund must be fundable on both sides.
pub open spec fn donate_error(pre: Ledger, amount: u64, reserve: u64, donor_balance: u64) -> Option<
    LedgerError,
> {
    if pre.fund is None {
        Some(LedgerError::InvalidState)
    } else if !(fund_pda(pre.program_id@) matches Some(p) && p.1 == pre.fund->Some_0.address_salt) {
        Some(LedgerError::AddressMismatch)
    } else if donation_pda(pre.program_id@, pre.fund->Some_0.outstanding_donation_count) is None {
        Some(LedgerError::AddressMismatch)
    } else if amount < reserve {
        Some(LedgerError::InvalidArgument)
    } else if donor_balance < amount {
        Some(LedgerError::TransferFailed)
    } else if pre.fund_balance + amount - reserve > u64::MAX {
        Some(LedgerError::TransferFailed)
    } else {
        None
    }
}

/// The failure `close` reports on a given prior state, caller and target
/// index, or `None` when it must succeed. Checked in order: the fund must
/// exist, the caller must be the stored authority, a donation must be
/// outstanding, and the target must be the most recently created donation,
/// correctly addressed under its stored salt.
pub open spec fn close_error(pre: Ledger, caller: Seq<u8>, target_index: u64) -> Option<
    LedgerError,
> {
    if pre.fund is None {
        Some(LedgerError::InvalidState)
    } else if pre.fund->Some_0.authority_key@ != caller {
        Some(LedgerError::AuthorizationError)
    } else if pre.fund->Some_0.outstanding_donation_count == 0 {
        Some(LedgerError::InvalidState)
    } else if target_index as int != pre.fund->Some_0.outstanding_donation_count - 1 {
        Some(LedgerError::AddressMismatch)
    } else if !(donation_pda(pre.program_id@, target_index) matches Some(p) && p.1
        == pre.donations@.last().address_salt) {
        Some(LedgerError::AddressMismatch)
    } else {
        None
    }
}

/// The failure `withdraw` reports on a given prior state and caller, or
/// `None` when it must succeed. Checked in order: the fund must exist and be
/// correctly addressed, the caller must be the stored authority, and no
/// donation may be outstanding.
pub open spec fn withdraw_error(pre: Ledger, caller: Seq<u8>) -> Option<LedgerError> {
    if pre.fund is None {
        Some(LedgerError::InvalidState)
    } else if !(fund_pda(pre.program_id@) matches Some(p) && p.1 == pre.fund->Some_0.address_salt) {
        Some(LedgerError::AddressMismatch)
    } else if pre.fund->Some_0.authority_key@ != caller {
        Some(LedgerError::AuthorizationError)
    } else if pre.fund->Some_0.outstanding_donation_count != 0 {
        Some(LedgerError::InvalidState)
    } else {
        None
    }
}

impl Ledger {
    /// Allocate the fund record: the founder becomes its immutable
    /// authority, the counter starts at zero, and the founder's storage
    /// deposit becomes the fund record's opening balance.
    pub fn create(&mut self, founder: Vec<u8>, deposit: u64) -> (r: Result<(), LedgerError>)
        requires
            old(self).wf(),
        ensures
            final(self).wf(),
            (match create_error(*old(self)) {
                Some(e) => r == Err::<(), LedgerError>(e) && *final(self) == *old(self),
                None => {
                    &&& r == Ok::<(), LedgerError>(())
                    &&& final(self).fund is Some
                    &&& final(self).fund->Some_0.authority_key@ == founder@
                    &&& fund_pda(old(self).program_id@) matches Some(p)
                        && p.1 == final(self).fund->Some_0.address_salt
                    &&& final(self).fund->Some_0.outstanding_donation_count == 0
                    &&& final(self).fund_balance == deposit
                    &&& final(self).donations@.len() == 0
                    &&& final(self).program_id@ == old(self).program_id@
                },
            }),
    {
        if self.fund.is_some() {
            return Err(LedgerError::AllocationConflict);
        }
        let salt: u8 = match derive_fund_address(&self.program_id) {
            None => {
                return Err(LedgerError::AddressMismatch);
            },
            Some(p) => p.1,
        };
        self.fund = Some(
            Fund { authority_key: founder, address_salt: salt, outstanding_donation_count: 0 },
        );
        self.fund_balance = deposit;
        Ok(())
    }

    /// Accept a donation: open the donation record at sequence index equal
    /// to the current outstanding count, increment the count, and move
    /// `amount - reserve` from the donor's balance into the fund, where
    /// `reserve` is the storage deposit charged against the new record. The
    /// donor's new balance is returned. On any failure the whole operation
    /// rolls back and the ledger is unchanged; in particular an `amount`
    /// below `reserve` is rejected as an invalid argument.
    pub fn donate(
        &mut self,
        donor: Vec<u8>,
        amount: u64,
        reserve: u64,
        donor_balance: u64,
    ) -> (r: Result<u64, LedgerError>)
        requires
            old(self).wf(),
            old(self).count() < u64::MAX,
        ensures
            final(self).wf(),
            (match donate_error(*old(self), amount, reserve, donor_balance) {
                Some(e) => r == Err::<u64, LedgerError>(e) && *final(self) == *old(self),
                None => {
                    &&& r == Ok::<u64, LedgerError>((donor_balance - amount) as u64)
                    &&& final(self).fund is Some
                    &&& final(self).fund->Some_0.authority_key == old(self).fund->Some_0.authority_key
                    &&& final(self).fund->Some_0.address_salt == old(self).fund->Some_0.address_salt
                    &&& final(self).fund->Some_0.outstanding_donation_count == old(
                        self,
                    ).fund->Some_0.outstanding_donation_count + 1
                    &&& final(self).fund_balance == old(self).fund_balance + amount - reserve
                    &&& final(self).donations@.len() == old(self).donations@.len() + 1
                    &&& final(self).donations@.drop_last() == old(self).donations@
                    &&& final(self).donations@.last().sequence_index == old(
                        self,
                    ).fund->Some_0.outstanding_donation_count
                    &&& final(self).donations@.last().donor_key@ == donor@
                    &&& final(self).donations@.last().amount == amount
                    &&& final(self).donations@.last().deposit == reserve
                    &&& donation_pda(old(self).program_id@, old(self).count()) matches Some(p)
                        && p.1 == final(self).donations@.last().address_salt
                    &&& final(self).program_id@ == old(self).program_id@
                },
            }),
    {
        let (idx, stored_salt): (u64, u8) = match &self.fund {
            None => {
                return Err(LedgerError::InvalidState);
            },
            Some(f) => (f.outstanding_donation_count, f.address_salt),
        };
        match derive_fund_address(&self.program_id) {
            None => {
                return Err(LedgerError::AddressMismatch);
            },
            Some(p) => {
                if p.1 != stored_salt {
                    return Err(LedgerError::AddressMismatch);
                }
            },
        }
        let donation_salt: u8 = match derive_donation_address(&self.program_id, idx) {
            None => {
                return Err(LedgerError::AddressMismatch);
            },
            Some(p) => p.1,
        };
        if amount < reserve {
            return Err(LedgerError::InvalidArgument);
        }
        if donor_balance < amount {
            return Err(LedgerError::TransferFailed);
        }
        let transferred: u64 = amount - reserve;
        if self.fund_balance > u64::MAX - transferred {
            return Err(LedgerError::TransferFailed);
        }
        let mut f = self.fund.take().unwrap();
        f.outstanding_donation_count = f.outstanding_donation_count + 1;
        self.fund = Some(f);
        self.donations.push(
            Donation {
                sequence_index: idx,
                donor_key: donor,
                amount,
                address_salt: donation_salt,
                deposit: reserve,
            },
        );
        self.fund_balance = self.fund_balance + transferred;
        Ok(donor_balance - amount)
    }

    /// Close the most recently created donation: the caller must be the
    /// stored authority, and the target index must be exactly
    /// `outstanding count - 1` — donations close strictly in reverse order
    /// of creation. The record is destroyed, the count decremented, and its
    /// storage deposit, the returned value, goes back to the authority. On
    /// any failure the ledger is unchanged; in particular closing with no
    /// outstanding donation always fails.
    pub fn close(&mut self, caller: &Vec<u8>, target_index: u64) -> (r: Result<u64, LedgerError>)
        requires
            old(self).wf(),
        ensures
            final(self).wf(),
            (match close_error(*old(self), caller@, target_index) {
                Some(e) => r == Err::<u64, LedgerError>(e) && *final(self) == *old(self),
                None => {
                    &&& r == Ok::<u64, LedgerError>(old(self).donations@.last().deposit)
                    &&& final(self).fund is Some
                    &&& final(self).fund->Some_0.authority_key == old(self).fund->Some_0.authority_key
                    &&& final(self).fund->Some_0.address_salt == old(self).fund->Some_0.address_salt
                    &&& final(self).fund->Some_0.outstanding_donation_count == old(
                        self,
                    ).fund->Some_0.outstanding_donation_count - 1
                    &&& final(self).donations@ == old(self).donations@.drop_last()
                    &&& final(self).fund_balance == old(self).fund_balance
                    &&& final(self).program_id@ == old(self).program_id@
                },
            }),
            old(self).fund matches Some(f) && f.outstanding_donation_count == 0 ==> r is Err,
            old(self).fund matches Some(f) && target_index as int + 1
                < f.outstanding_donation_count ==> r is Err,
            old(self).fund matches Some(f) && f.authority_key@ != caller@ ==> r == Err::<
                u64,
                LedgerError,
            >(LedgerError::AuthorizationError) && *final(self) == *old(self),
    {
        let count: u64 = match &self.fund {
            None => {
                return Err(LedgerError::InvalidState);
            },
            Some(f) => {
                if !bytes_eq(&f.authority_key, caller) {
                    return Err(LedgerError::AuthorizationError);
                }
                if f.outstanding_donation_count == 0 {
                    return Err(LedgerError::InvalidState);
                }
                f.outstanding_donation_count
            },
        };
        if target_index != count - 1 {
            return Err(LedgerError::AddressMismatch);
        }
        let derived_salt: u8 = match derive_donation_address(&self.program_id, target_index) {
            None => {
                return Err(LedgerError::AddressMismatch);
            },
            Some(p) => p.1,
        };
        let last: usize = self.donations.len() - 1;
        if self.donations[last].address_salt != derived_salt {
            return Err(LedgerError::AddressMismatch);
        }
        let closed = self.donations.pop().unwrap();
        let mut f = self.fund.take().unwrap();
        f.outstanding_donation_count = f.outstanding_donation_count - 1;
        self.fund = Some(f);
        Ok(closed.deposit)
    }

    /// Destroy the fund record: the caller must be the stored authority and
    /// every donation must have been closed first. The fund's entire
    /// balance, the returned value, goes back to the authority and the
    /// ledger becomes empty. On any failure the ledger is unchanged; in
    /// particular withdrawing while donations are outstanding always fails.
    pub fn withdraw(&mut self, caller: &Vec<u8>) -> (r: Result<u64, LedgerError>)
        requires
            old(self).wf(),
        ensures
            final(self).wf(),
            (match withdraw_error(*old(self), caller@) {
                Some(e) => r == Err::<u64, LedgerError>(e) && *final(self) == *old(self),
                None => {
                    &&& r == Ok::<u64, LedgerError>(old(self).fund_balance)
                    &&& final(self).fund is None
                    &&& final(self).donations@.len() == 0
                    &&& final(self).fund_balance == 0
                    &&& final(self).program_id@ == old(self).program_id@
                },
            }),
            old(self).fund matches Some(f) && f.outstanding_donation_count > 0 ==> r is Err,
    {
        match &self.fund {
            None => {
                return Err(LedgerError::InvalidState);
            },
            Some(f) => {
                match derive_fund_address(&self.program_id) {
                    None => {
                        return Err(LedgerError::AddressMismatch);
                    },
                    Some(p) => {
                        if p.1 != f.address_salt {
                            return Err(LedgerError::AddressMismatch);
                        }
                    },
                }
                if !bytes_eq(&f.authority_key, caller) {
                    return Err(LedgerError::AuthorizationError);
                }
                if f.outstanding_donation_count != 0 {
                    return Err(LedgerError::InvalidState);
                }
            },
        }
        self.fund = None;
        let payout: u64 = self.fund_balance;
        self.fund_balance = 0;
        Ok(payout)
    }
}

/// Law: no open donation record has a sequence index at or above the fund's
/// outstanding count, so every open record is addressable from the counter
/// alone.
pub proof fn lemma_no_donation_beyond_counter(l: Ledger, i: int)
    requires
        l.wf(),
        0 <= i < l.donations@.len(),
    ensures
        l.donations@[i].sequence_index < l.count(),
{
}

/// Law: in a well-formed ledger the outstanding donation count is never
/// negative, and it equals — so never exceeds — the number of donation
/// records created and not yet closed, which the ledger holds as its stack
/// of open records.
pub proof fn lemma_outstanding_count_bounded(l: Ledger)
    requires
        l.wf(),
    ensures
        l.count() >= 0,
        l.count() as int == l.donations@.len(),
{
}

} // verus!
