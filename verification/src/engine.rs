use vstd::prelude::*;
use crate::errors::{errs, Error};
use crate::host::{
    children_result, get_children, get_token_contract_id, set_children, set_token_contract_id,
    token_result, wf_registry, Host,
};
use crate::ledger::{xfer_spec, LedgerView};
use crate::splits::{share, share_amt};
use crate::tree::{valid_children, valid_node, Address, DataKey, Node, NodeStore};

verus! {

/// How many nested remote invocations one settlement may drive. The host
/// environment bounds the depth of cross-instance calls; a cascade that needs
/// more hops fails with [`Error::RemoteInvocationFailed`] at the hop that
/// exhausts the budget.
pub const MAX_INVOCATION_DEPTH: u32 = 32;

/// What settling one child beneficiary by direct transfer does: the share of
/// `base_balance` that `percentage` selects moves from `node`'s custody to
/// `child_address`, against the ledger service `node` is configured with.
pub open spec fn donate_to_child_spec(
    l: LedgerView,
    reg: Map<u64, NodeStore>,
    node: u64,
    child_address: u64,
    percentage: u32,
    base_balance: u128,
) -> (LedgerView, Option<Error>) {
    match token_result(reg, node) {
        Err(e) => (l, Some(e)),
        Ok(t) => xfer_spec(l, t, node, child_address, share_amt(base_balance, percentage)),
    }
}

/// What the cascade entry point of `node` does: read the node's own ledger
/// reference, snapshot the node's custody balance once, and settle every
/// beneficiary entry against that one snapshot.
pub open spec fn donate_ch_spec(
    l: LedgerView,
    reg: Map<u64, NodeStore>,
    node: u64,
    donator: u64,
    depth: u32,
) -> (LedgerView, Option<Error>)
    decreases depth, 5int, 0int,
{
    match token_result(reg, node) {
        Err(e) => (l, Some(e)),
        Ok(t) => {
            let base_balance = l[(t, node)];
            apply_children_donations_spec(l, reg, node, base_balance, donator, depth)
        },
    }
}

/// What iterating a node's beneficiary tree does: read the stored entries and
/// settle them in order, all from the same `base_balance` snapshot.
pub open spec fn apply_children_donations_spec(
    l: LedgerView,
    reg: Map<u64, NodeStore>,
    node: u64,
    base_balance: u128,
    donator: u64,
    depth: u32,
) -> (LedgerView, Option<Error>)
    decreases depth, 4int, 0int,
{
    match children_result(reg, node) {
        Err(e) => (l, Some(e)),
        Ok(cs) => children_loop_spec(l, reg, node, cs, base_balance, donator, depth),
    }
}

/// Settles the entries of `cs` front to back. The first failing entry aborts
/// the iteration: entries settled before it stay committed, entries after it
/// are never attempted.
pub open spec fn children_loop_spec(
    l: LedgerView,
    reg: Map<u64, NodeStore>,
    node: u64,
    cs: Seq<Node>,
    base_balance: u128,
    donator: u64,
    depth: u32,
) -> (LedgerView, Option<Error>)
    decreases depth, 3int, cs.len(),
{
    if cs.len() == 0 {
        (l, None)
    } else {
        let step = apply_donation_type_spec(l, reg, node, cs[0], base_balance, donator, depth);
        if step.1 is Some {
            step
        } else {
            children_loop_spec(step.0, reg, node, cs.drop_first(), base_balance, donator, depth)
        }
    }
}

/// The dispatch resolver: what settling one beneficiary entry does, decided
/// by the entry's address kind alone. A terminal account gets a single direct
/// transfer; a node instance gets a direct transfer followed by a remote
/// invocation; an unrecognized kind fails without touching the ledger.
pub open spec fn apply_donation_type_spec(
    l: LedgerView,
    reg: Map<u64, NodeStore>,
    node: u64,
    child: Node,
    base_balance: u128,
    donator: u64,
    depth: u32,
) -> (LedgerView, Option<Error>)
    decreases depth, 2int, 0int,
{
    match child.address {
        Address::Contract(contract_id) => donate_to_parent_child_spec(
            l,
            reg,
            node,
            contract_id,
            child.percentage,
            base_balance,
            donator,
            depth,
        ),
        Address::Account(account_id) => donate_to_child_spec(
            l,
            reg,
            node,
            account_id,
            child.percentage,
            base_balance,
        ),
        Address::Other(_) => (l, Some(Error::UnsupportedAddressKind)),
    }
}

/// What settling a node-instance beneficiary does: first the direct transfer
/// of the child's share into the child instance's custody, then — only if the
/// transfer went through — one remote invocation of the child's own cascade
/// entry point. The two steps are not atomic: a failing invocation leaves the
/// transferred share sitting in the child's custody.
pub open spec fn donate_to_parent_child_spec(
    l: LedgerView,
    reg: Map<u64, NodeStore>,
    node: u64,
    node_contract_id: u64,
    percentage: u32,
    base_balance: u128,
    donator: u64,
    depth: u32,
) -> (LedgerView, Option<Error>)
    decreases depth, 1int, 0int,
{
    let step = donate_to_child_spec(l, reg, node, node_contract_id, percentage, base_balance);
    if step.1 is Some {
        step
    } else {
        invoke_child_spec(step.0, reg, node_contract_id, donator, depth)
    }
}

/// What one remote invocation does: re-enter the cascade entry point on the
/// target instance with one hop less of invocation budget, or fail once the
/// budget is exhausted. An undeployed target fails inside the re-entered
/// call.
pub open spec fn invoke_child_spec(
    l: LedgerView,
    reg: Map<u64, NodeStore>,
    target: u64,
    donator: u64,
    depth: u32,
) -> (LedgerView, Option<Error>)
    decreases depth, 0int, 0int,
{
    if depth == 0 {
        (l, Some(Error::RemoteInvocationFailed))
    } else {
        donate_ch_spec(l, reg, target, donator, (depth - 1) as u32)
    }
}

/// What a fresh donation does end to end: pull `amount` from the donator into
/// the node's custody, snapshot the node's resulting balance once, and settle
/// every beneficiary entry from that snapshot.
pub open spec fn donate_spec(
    l: LedgerView,
    reg: Map<u64, NodeStore>,
    node: u64,
    amount: u128,
    donator: u64,
    depth: u32,
) -> (LedgerView, Option<Error>) {
    match token_result(reg, node) {
        Err(e) => (l, Some(e)),
        Ok(t) => {
            let pulled = xfer_spec(l, t, donator, node, amount);
            if pulled.1 is Some {
                pulled
            } else {
                let base_balance = pulled.0[(t, node)];
                apply_children_donations_spec(pulled.0, reg, node, base_balance, donator, depth)
            }
        },
    }
}

/// Settles one terminal beneficiary: computes the child's share of
/// `base_balance` and issues a single direct transfer from `node`'s custody.
pub fn donate_to_child(
    env: &mut Host,
    node: u64,
    child_address: u64,
    percentage: u32,
    base_balance: u128,
) -> (r: Result<(), Error>)
    requires
        percentage <= 100,
    ensures
        final(env).registry@ == old(env).registry@,
        (final(env).ledger@, errs(r)) == donate_to_child_spec(
            old(env).ledger@,
            old(env).registry@,
            node,
            child_address,
            percentage,
            base_balance,
        ),
{
    let tc_id = match get_token_contract_id(env, node) {
        Ok(t) => t,
        Err(e) => return Err(e),
    };
    let amount = share(base_balance, percentage);
    env.ledger.transfer(tc_id, node, child_address, amount)
}

/// Settles one node-instance beneficiary: the direct transfer of its share,
/// then exactly one remote invocation of the child instance's cascade entry
/// point, in that order.
pub fn donate_to_parent_child(
    env: &mut Host,
    node: u64,
    node_contract_id: u64,
    percentage: u32,
    base_balance: u128,
    donator: u64,
    depth: u32,
) -> (r: Result<(), Error>)
    requires
        wf_registry(old(env).registry@),
        percentage <= 100,
    ensures
        final(env).registry@ == old(env).registry@,
        (final(env).ledger@, errs(r)) == donate_to_parent_child_spec(
            old(env).ledger@,
            old(env).registry@,
            node,
            node_contract_id,
            percentage,
            base_balance,
            donator,
            depth,
        ),
    decreases depth, 1int,
{
    match donate_to_child(env, node, node_contract_id, percentage, base_balance) {
        Err(e) => return Err(e),
        Ok(_) => {},
    }
    invoke_child_distribution(env, node_contract_id, donator, depth)
}

/// The remote invocation boundary: re-enters the cascade entry point on the
/// target instance, spending one hop of invocation budget.
pub fn invoke_child_distribution(env: &mut Host, target: u64, donator: u64, depth: u32) -> (r:
    Result<(), Error>)
    requires
        wf_registry(old(env).registry@),
    ensures
        final(env).registry@ == old(env).registry@,
        (final(env).ledger@, errs(r)) == invoke_child_spec(
            old(env).ledger@,
            old(env).registry@,
            target,
            donator,
            depth,
        ),
    decreases depth, 0int,
{
    if depth == 0 {
        return Err(Error::RemoteInvocationFailed);
    }
    settle_from_cascade(env, target, donator, depth - 1)
}

/// The dispatch resolver: settles one beneficiary entry, branching on its
/// address kind. Terminal accounts never trigger a remote invocation;
/// node instances always get one transfer and then one invocation.
pub fn apply_donation_type(
    env: &mut Host,
    node: u64,
    child: &Node,
    base_balance: u128,
    donator: u64,
    depth: u32,
) -> (r: Result<(), Error>)
    requires
        wf_registry(old(env).registry@),
        valid_node(*child),
    ensures
        final(env).registry@ == old(env).registry@,
        (final(env).ledger@, errs(r)) == apply_donation_type_spec(
            old(env).ledger@,
            old(env).registry@,
            node,
            *child,
            base_balance,
            donator,
            depth,
        ),
    decreases depth, 2int,
{
    match child.address {
        Address::Contract(contract_id) => donate_to_parent_child(
            env,
            node,
            contract_id,
            child.percentage,
            base_balance,
            donator,
            depth,
        ),
        Address::Account(account_id) => donate_to_child(
            env,
            node,
            account_id,
            child.percentage,
            base_balance,
        ),
        Address::Other(_) => Err(Error::UnsupportedAddressKind),
    }
}

/// Iterates the node's beneficiary tree, settling every entry from the same
/// `base_balance` snapshot: later entries are not affected by earlier
/// entries' transfers. The first failing entry aborts the iteration; what was
/// settled before it stays committed.
pub fn apply_children_donations(
    env: &mut Host,
    node: u64,
    base_balance: u128,
    donator: u64,
    depth: u32,
) -> (r: Result<(), Error>)
    requires
        wf_registry(old(env).registry@),
    ensures
        final(env).registry@ == old(env).registry@,
        (final(env).ledger@, errs(r)) == apply_children_donations_spec(
            old(env).ledger@,
            old(env).registry@,
            node,
            base_balance,
            donator,
            depth,
        ),
    decreases depth, 4int,
{
    let children = match get_children(env, node) {
        Ok(v) => v,
        Err(e) => return Err(e),
    };
    let ghost reg0 = env.registry@;
    let ghost l0 = env.ledger@;
    let ghost cs0 = children@;
    proof {
        assert(children_result(reg0, node) == Ok::<Seq<Node>, Error>(cs0));
        assert(valid_children(cs0));
        assert(cs0.skip(0) =~= cs0);
    }
    let mut i: usize = 0;
    while i < children.len()
        invariant
            i <= children.len(),
            children@ == cs0,
            env.registry@ == reg0,
            reg0 == old(env).registry@,
            l0 == old(env).ledger@,
            children_result(reg0, node) == Ok::<Seq<Node>, Error>(cs0),
            wf_registry(reg0),
            valid_children(cs0),
            children_loop_spec(l0, reg0, node, cs0, base_balance, donator, depth)
                == children_loop_spec(
                env.ledger@,
                reg0,
                node,
                cs0.skip(i as int),
                base_balance,
                donator,
                depth,
            ),
        decreases children.len() - i,
    {
        let child = &children[i];
        proof {
            assert(cs0.skip(i as int)[0] == cs0[i as int]);
            assert(cs0.skip(i as int).drop_first() =~= cs0.skip(i as int + 1));
        }
        match apply_donation_type(env, node, child, base_balance, donator, depth) {
            Err(e) => return Err(e),
            Ok(_) => {},
        }
        i = i + 1;
    }
    proof {
        assert(cs0.skip(cs0.len() as int) =~= Seq::<Node>::empty());
    }
    Ok(())
}

/// One fresh donation end to end: pulls `amount` from the donator's account
/// into the node's custody, reads the node's resulting balance back once, and
/// settles every beneficiary entry from that snapshot.
pub fn apply_main_donation(
    env: &mut Host,
    node: u64,
    donator: u64,
    amount: u128,
    depth: u32,
) -> (r: Result<(), Error>)
    requires
        wf_registry(old(env).registry@),
    ensures
        final(env).registry@ == old(env).registry@,
        (final(env).ledger@, errs(r)) == donate_spec(
            old(env).ledger@,
            old(env).registry@,
            node,
            amount,
            donator,
            depth,
        ),
{
    let tc_id = match get_token_contract_id(env, node) {
        Ok(t) => t,
        Err(e) => return Err(e),
    };
    match env.ledger.transfer(tc_id, donator, node, amount) {
        Err(e) => return Err(e),
        Ok(_) => {},
    }
    let contract_balance = env.ledger.balance_of(tc_id, node);
    apply_children_donations(env, node, contract_balance, donator, depth)
}

/// The cascade entry point a parent's remote invocation targets: no pull from
/// a donor account — the balance already arrived through the parent's direct
/// transfer — just the snapshot and the settlement of the node's own entries.
pub fn settle_from_cascade(env: &mut Host, node: u64, donator: u64, depth: u32) -> (r: Result<
    (),
    Error,
>)
    requires
        wf_registry(old(env).registry@),
    ensures
        final(env).registry@ == old(env).registry@,
        (final(env).ledger@, errs(r)) == donate_ch_spec(
            old(env).ledger@,
            old(env).registry@,
            node,
            donator,
            depth,
        ),
    decreases depth, 5int,
{
    let tc_id = match get_token_contract_id(env, node) {
        Ok(t) => t,
        Err(e) => return Err(e),
    };
    let base_balance = env.ledger.balance_of(tc_id, node);
    apply_children_donations(env, node, base_balance, donator, depth)
}

/// One deployed distribution-node instance's public surface. Every operation
/// names the instance it targets by its `u64` identity within the [`Host`].
pub struct CascadeDonationContract;

/// The operations a distribution-node instance exposes.
pub trait CascadeDonationContractTrait {
    /// One-time configuration of a deployed instance: the ledger reference
    /// and the beneficiary entries, set together. Fails with
    /// [`Error::AlreadyInitialized`] when either slot was already written.
    fn initialize(env: &mut Host, node: u64, tc_id: u64, children: Vec<Node>) -> (r: Result<
        (),
        Error,
    >)
        requires
            valid_children(children@),
        ensures
            final(env).ledger == old(env).ledger,
            match r {
                Ok(_) => {
                    &&& old(env).registry@.contains_key(node)
                    &&& !old(env).registry@[node].spec_has(DataKey::TkContract)
                    &&& !old(env).registry@[node].spec_has(DataKey::ChildNodes)
                    &&& final(env).registry@ == old(env).registry@.insert(
                        node,
                        NodeStore {
                            token_contract_id: Some(tc_id),
                            children: Some(children),
                            ..old(env).registry@[node]
                        },
                    )
                },
                Err(e) => {
                    &&& final(env).registry@ == old(env).registry@
                    &&& (e == Error::RemoteInvocationFailed || e == Error::AlreadyInitialized)
                    &&& (e == Error::RemoteInvocationFailed <==> !old(
                        env,
                    ).registry@.contains_key(node))
                    &&& (e == Error::AlreadyInitialized <==> old(env).registry@.contains_key(node)
                        && (old(env).registry@[node].spec_has(DataKey::TkContract) || old(
                        env,
                    ).registry@[node].spec_has(DataKey::ChildNodes)))
                },
            },
            wf_registry(old(env).registry@) ==> wf_registry(final(env).registry@),
    ;

    /// The donor-facing entry point: settle one fresh donation of `amount`
    /// pulled from `donator`.
    fn donate(env: &mut Host, node: u64, amount: u128, donator: u64) -> (r: Result<(), Error>)
        requires
            wf_registry(old(env).registry@),
        ensures
            final(env).registry@ == old(env).registry@,
            (final(env).ledger@, errs(r)) == donate_spec(
                old(env).ledger@,
                old(env).registry@,
                node,
                amount,
                donator,
                MAX_INVOCATION_DEPTH,
            ),
    ;

    /// The entry point a parent's remote invocation targets: settle the
    /// balance that already arrived in this node's custody.
    fn donate_ch(env: &mut Host, node: u64, donator: u64) -> (r: Result<(), Error>)
        requires
            wf_registry(old(env).registry@),
        ensures
            final(env).registry@ == old(env).registry@,
            (final(env).ledger@, errs(r)) == donate_ch_spec(
                old(env).ledger@,
                old(env).registry@,
                node,
                donator,
                MAX_INVOCATION_DEPTH,
            ),
    ;

    /// Replaces the beneficiary entries wholesale.
    fn s_children(env: &mut Host, node: u64, new_children: Vec<Node>) -> (r: Result<(), Error>)
        requires
            valid_children(new_children@),
        ensures
            final(env).ledger == old(env).ledger,
            match r {
                Ok(_) => old(env).registry@.contains_key(node) && final(env).registry@ == old(
                    env,
                ).registry@.insert(
                    node,
                    NodeStore {
                        children: Some(new_children),
                        ..old(env).registry@[node]
                    },
                ),
                Err(e) => {
                    &&& e == Error::RemoteInvocationFailed
                    &&& !old(env).registry@.contains_key(node)
                    &&& final(env).registry@ == old(env).registry@
                },
            },
            wf_registry(old(env).registry@) ==> wf_registry(final(env).registry@),
    ;

    /// Reads the beneficiary entries back, exactly as stored.
    fn g_children(env: &Host, node: u64) -> (r: Result<Vec<Node>, Error>)
        ensures
            match r {
                Ok(v) => children_result(env.registry@, node) == Ok::<Seq<Node>, Error>(v@),
                Err(e) => children_result(env.registry@, node) == Err::<Seq<Node>, Error>(e),
            },
    ;
}

impl CascadeDonationContractTrait for CascadeDonationContract {
    fn initialize(env: &mut Host, node: u64, tc_id: u64, children: Vec<Node>) -> (r: Result<
        (),
        Error,
    >) {
        let already = match env.registry.get(&node) {
            None => return Err(Error::RemoteInvocationFailed),
            Some(st) => st.has(DataKey::TkContract) || st.has(DataKey::ChildNodes),
        };
        if already {
            return Err(Error::AlreadyInitialized);
        }
        match set_token_contract_id(env, node, tc_id) {
            Err(e) => return Err(e),
            Ok(_) => {},
        }
        match set_children(env, node, children) {
            Err(e) => return Err(e),
            Ok(_) => {},
        }
        proof {
            assert(env.registry@ =~= old(env).registry@.insert(
                node,
                NodeStore {
                    token_contract_id: Some(tc_id),
                    children: Some(children),
                    ..old(env).registry@[node]
                },
            ));
        }
        Ok(())
    }

    fn donate(env: &mut Host, node: u64, amount: u128, donator: u64) -> (r: Result<(), Error>) {
        apply_main_donation(env, node, donator, amount, MAX_INVOCATION_DEPTH)
    }

    fn donate_ch(env: &mut Host, node: u64, donator: u64) -> (r: Result<(), Error>) {
        settle_from_cascade(env, node, donator, MAX_INVOCATION_DEPTH)
    }

    fn s_children(env: &mut Host, node: u64, new_children: Vec<Node>) -> (r: Result<(), Error>) {
        set_children(env, node, new_children)
    }

    fn g_children(env: &Host, node: u64) -> (r: Result<Vec<Node>, Error>) {
        get_children(env, node)
    }
}

/// The dispatch decision is determined by the address kind alone. A terminal
/// account beneficiary settles as a single direct transfer and never triggers
/// a remote invocation. A node-instance beneficiary settles as exactly one
/// direct transfer followed — only if the transfer went through — by exactly
/// one remote invocation, in that order. Any other address kind fails with
/// [`Error::UnsupportedAddressKind`] and leaves the ledger untouched.
pub proof fn lemma_dispatch_resolution(
    l: LedgerView,
    reg: Map<u64, NodeStore>,
    node: u64,
    child: Node,
    base_balance: u128,
    donator: u64,
    depth: u32,
)
    ensures
        child.address matches Address::Account(account_id) ==> apply_donation_type_spec(
            l,
            reg,
            node,
            child,
            base_balance,
            donator,
            depth,
        ) == donate_to_child_spec(l, reg, node, account_id, child.percentage, base_balance),
        child.address matches Address::Contract(contract_id) ==> ({
            let step = donate_to_child_spec(
                l,
                reg,
                node,
                contract_id,
                child.percentage,
                base_balance,
            );
            apply_donation_type_spec(l, reg, node, child, base_balance, donator, depth) == (
            if step.1 is Some {
                step
            } else {
                invoke_child_spec(step.0, reg, contract_id, donator, depth)
            })
        }),
        child.address matches Address::Other(tag) ==> apply_donation_type_spec(
            l,
            reg,
            node,
            child,
            base_balance,
            donator,
            depth,
        ) == (l, Some(Error::UnsupportedAddressKind)),
{
}

/// A failure mid-cascade aborts exactly at the failing entry. If the first
/// `k` beneficiary entries settle cleanly and entry `k` fails, the outcome of
/// iterating the whole tree is the failing entry's outcome: every transfer
/// the first `k` entries committed stays in place, the failing entry's error
/// surfaces as the settlement's error, and no entry after `k` is ever
/// attempted.
pub proof fn lemma_failure_mid_cascade(
    l: LedgerView,
    reg: Map<u64, NodeStore>,
    node: u64,
    cs: Seq<Node>,
    base_balance: u128,
    donator: u64,
    depth: u32,
    k: int,
)
    requires
        0 <= k < cs.len(),
        children_loop_spec(l, reg, node, cs.take(k), base_balance, donator, depth).1 is None,
        apply_donation_type_spec(
            children_loop_spec(l, reg, node, cs.take(k), base_balance, donator, depth).0,
            reg,
            node,
            cs[k],
            base_balance,
            donator,
            depth,
        ).1 is Some,
    ensures
        children_loop_spec(l, reg, node, cs, base_balance, donator, depth)
            == apply_donation_type_spec(
            children_loop_spec(l, reg, node, cs.take(k), base_balance, donator, depth).0,
            reg,
            node,
            cs[k],
            base_balance,
            donator,
            depth,
        ),
    decreases k,
{
    if k == 0 {
        assert(cs.take(0) =~= Seq::<Node>::empty());
    } else {
        let step0 = apply_donation_type_spec(l, reg, node, cs[0], base_balance, donator, depth);
        assert(cs.take(k)[0] == cs[0]);
        assert(step0.1 is None);
        let tail = cs.drop_first();
        assert(cs.take(k).drop_first() =~= tail.take(k - 1));
        assert(tail[k - 1] == cs[k]);
        lemma_failure_mid_cascade(
            step0.0,
            reg,
            node,
            tail,
            base_balance,
            donator,
            depth,
            k - 1,
        );
    }
}

/// Re-settlement safety: settling the same donation twice performs two
/// independent pulls and two independent cascades. Nothing is deduplicated —
/// a settlement is a function of the ledger it starts from alone, so the
/// second settlement begins with its own full pull of `amount` from the
/// donator on the ledger the first one left behind, and then re-iterates the
/// beneficiary tree from the fresh balance snapshot. Bounding the donator's
/// exposure is the business of the ledger collaborator's approval allowance,
/// not of this engine.
pub proof fn lemma_resettlement_no_dedup(
    l: LedgerView,
    reg: Map<u64, NodeStore>,
    node: u64,
    amount: u128,
    donator: u64,
    depth: u32,
)
    ensures
        ({
            let first = donate_spec(l, reg, node, amount, donator, depth);
            let second = donate_spec(first.0, reg, node, amount, donator, depth);
            token_result(reg, node) matches Ok(t) ==> ({
                let pull_again = xfer_spec(first.0, t, donator, node, amount);
                second == (if pull_again.1 is Some {
                    pull_again
                } else {
                    apply_children_donations_spec(
                        pull_again.0,
                        reg,
                        node,
                        pull_again.0[(t, node)],
                        donator,
                        depth,
                    )
                })
            })
        }),
{
}

} // verus!

