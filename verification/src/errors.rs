use vstd::prelude::*;

verus! {

/// The failure conditions an operation can report. Every operation is
/// all-or-nothing: when it returns an error the ledger is unchanged.
#[derive(Clone, Copy, Debug, PartialEq, Eq, Structural)]
pub enum LedgerError {
    /// The caller's identity does not match the fund's stored authority.
    AuthorizationError,
    /// The donated amount is too small to cover the record's storage deposit.
    InvalidArgument,
    /// The fund's state forbids the operation: closing with no outstanding
    /// donations, withdrawing while donations are outstanding, or operating
    /// on a fund that does not exist.
    InvalidState,
    /// A record would be created at an address that already holds one.
    AllocationConflict,
    /// A record's stored salt does not match its re-derived salt, or no
    /// valid address could be derived for the requested record.
    AddressMismatch,
    /// The value-transfer collaborator reported failure: the source balance
    /// cannot fund the transfer, or the destination balance cannot hold it.
    TransferFailed,
}

} // verus!
