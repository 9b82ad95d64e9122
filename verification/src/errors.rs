use vstd::prelude::*;

verus! {

/// Every way a settlement, a configuration access or a remote invocation can
/// fail. Each error is fatal to the call that raised it: there is no partial
/// success value, and transfers committed before the failing step are not
/// rolled back.
#[derive(Clone, Copy, Debug, PartialEq, Eq)]
pub enum Error {
    /// The per-instance store was read before `initialize` set the item.
    Uninitialized,
    /// `initialize` was called on an instance that already holds configuration.
    AlreadyInitialized,
    /// A beneficiary entry carries an address tag the dispatch resolver does
    /// not recognize.
    UnsupportedAddressKind,
    /// The ledger collaborator refused a transfer, for instance because the
    /// paying balance is too small.
    LedgerTransferFailed,
    /// A remote invocation could not reach its target instance, or the nested
    /// invocation budget ran out.
    RemoteInvocationFailed,
}

/// The error part of a settlement result, for relating executable results to
/// the specification of a settlement step.
pub open spec fn errs(r: Result<(), Error>) -> Option<Error> {
    match r {
        Ok(_) => None,
        Err(e) => Some(e),
    }
}

} // verus!
