use vstd::prelude::*;
use vstd::arithmetic::div_mod::lemma_fundamental_div_mod_converse;
use std::collections::HashMap;
use crate::errors::{errs, Error};

verus! {

broadcast use vstd::std_specs::hash::group_hash_axioms;

/// The mathematical content of the ledger collaborator: every ledger service
/// (identified by a `u64` handle) holds a balance for every payable identity,
/// zero unless something was transferred in.
pub type LedgerView = Map<(u64, u64), u128>;

/// The one key under which the ledger keeps the balance of identity `who`
/// with the ledger service `token`.
pub open spec fn key_of(token: u64, who: u64) -> u128 {
    (token * 0x1_0000_0000_0000_0000 + who) as u128
}

proof fn lemma_key_of_injective(t1: u64, w1: u64, t2: u64, w2: u64)
    requires
        key_of(t1, w1) == key_of(t2, w2),
    ensures
        t1 == t2 && w1 == w2,
{
    let d = 0x1_0000_0000_0000_0000int;
    assert(t1 * 0x1_0000_0000_0000_0000 + w1 < 0x1_0000_0000_0000_0000_0000_0000_0000_0000int)
        by (nonlinear_arith)
        requires t1 <= 0xffff_ffff_ffff_ffffu64 && w1 <= 0xffff_ffff_ffff_ffffu64,
    ;
    assert(t2 * 0x1_0000_0000_0000_0000 + w2 < 0x1_0000_0000_0000_0000_0000_0000_0000_0000int)
        by (nonlinear_arith)
        requires t2 <= 0xffff_ffff_ffff_ffffu64 && w2 <= 0xffff_ffff_ffff_ffffu64,
    ;
    let x = t1 * d + w1;
    lemma_fundamental_div_mod_converse(x, d, t1 as int, w1 as int);
    lemma_fundamental_div_mod_converse(x, d, t2 as int, w2 as int);
}

fn pack(token: u64, who: u64) -> (k: u128)
    ensures
        k == key_of(token, who),
{
    let t = token as u128;
    let w = who as u128;
    assert(t * 0x1_0000_0000_0000_0000 <= 0xffff_ffff_ffff_ffffu128 * 0x1_0000_0000_0000_0000)
        by (nonlinear_arith)
        requires t <= 0xffff_ffff_ffff_ffffu128,
    ;
    t * 0x1_0000_0000_0000_0000 + w
}

/// The ledger collaborator, modelled as plain data: one balance book over all
/// ledger services and all payable identities. The engine orchestrates
/// transfers against it and never inspects it beyond the operations below.
pub struct Ledger {
    book: HashMap<u128, u128>,
}

impl View for Ledger {
    type V = LedgerView;

    closed spec fn view(&self) -> LedgerView {
        Map::new(
            |p: (u64, u64)| true,
            |p: (u64, u64)|
                if self.book@.contains_key(key_of(p.0, p.1)) {
                    self.book@[key_of(p.0, p.1)]
                } else {
                    0
                },
        )
    }
}

/// What one ledger transfer does: `amount` moves from `from`'s balance to
/// `to`'s balance with the ledger service `token`, provided the paying balance
/// covers it and the receiving balance does not overflow; otherwise the
/// ledger is unchanged and the transfer fails.
pub open spec fn xfer_spec(l: LedgerView, token: u64, from: u64, to: u64, amount: u128) -> (
    LedgerView,
    Option<Error>,
) {
    let bf = l[(token, from)];
    if bf < amount {
        (l, Some(Error::LedgerTransferFailed))
    } else {
        let debited = l.insert((token, from), (bf - amount) as u128);
        let bt = debited[(token, to)];
        if bt + amount > u128::MAX {
            (l, Some(Error::LedgerTransferFailed))
        } else {
            (debited.insert((token, to), (bt + amount) as u128), None)
        }
    }
}

impl Ledger {
    /// A ledger on which every balance is zero.
    pub fn new() -> (l: Ledger)
        ensures
            forall|p: (u64, u64)| #[trigger] l@[p] == 0,
    {
        Ledger { book: HashMap::new() }
    }

    /// What the ledger shows as `who`'s balance with the service `token`.
    pub fn balance_of(&self, token: u64, who: u64) -> (r: u128)
        ensures
            r == self@[(token, who)],
    {
        let k = pack(token, who);
        match self.book.get(&k) {
            Some(v) => *v,
            None => 0,
        }
    }

    /// Overwrites `who`'s balance with the service `token`. This models
    /// custody administration (minting, funding accounts), which belongs to
    /// the ledger collaborator, not to the engine: the engine itself only
    /// ever moves balances through [`Ledger::transfer`].
    pub fn set_balance(&mut self, token: u64, who: u64, amount: u128)
        ensures
            final(self)@ == old(self)@.insert((token, who), amount),
    {
        let k = pack(token, who);
        self.book.insert(k, amount);
        proof {
            assert forall|p: (u64, u64)|
                #[trigger] self@[p] == old(self)@.insert((token, who), amount)[p] by {
                if p != (token, who) {
                    if key_of(p.0, p.1) == key_of(token, who) {
                        lemma_key_of_injective(p.0, p.1, token, who);
                    }
                }
            }
            assert(self@ =~= old(self)@.insert((token, who), amount));
        }
    }

    /// One ledger transfer: moves `amount` from `from` to `to` with the
    /// service `token`, exactly as [`xfer_spec`] says, and reports
    /// [`Error::LedgerTransferFailed`] if and only if the paying balance is
    /// smaller than `amount` or the receiving balance would overflow.
    pub fn transfer(&mut self, token: u64, from: u64, to: u64, amount: u128) -> (r: Result<
        (),
        Error,
    >)
        ensures
            (final(self)@, errs(r)) == xfer_spec(old(self)@, token, from, to, amount),
    {
        let bf = self.balance_of(token, from);
        if bf < amount {
            return Err(Error::LedgerTransferFailed);
        }
        let debited = bf - amount;
        let bt = if from == to {
            debited
        } else {
            self.balance_of(token, to)
        };
        if bt > u128::MAX - amount {
            return Err(Error::LedgerTransferFailed);
        }
        self.set_balance(token, from, debited);
        self.set_balance(token, to, bt + amount);
        Ok(())
    }
}

} // verus!
