use vstd::prelude::*;
use std::collections::HashMap;
use crate::errors::Error;
use crate::ledger::Ledger;
use crate::tree::{clone_children, valid_children, DataKey, Node, NodeStore};

verus! {

broadcast use vstd::std_specs::hash::group_hash_axioms;

/// The environment a settlement runs against: the ledger collaborator and the
/// registry of deployed node instances, each with its own configuration
/// store. A parent node holds only the `u64` identity of a child instance,
/// never its store; crossing that boundary goes through
/// [`crate::engine::invoke_child_distribution`].
pub struct Host {
    pub ledger: Ledger,
    pub registry: HashMap<u64, NodeStore>,
}

/// Whether every registered instance's beneficiary entries are well formed
/// (each percentage in `[0, 100]`). The configuration entry points keep this
/// invariant, and settlement relies on it.
pub open spec fn wf_registry(reg: Map<u64, NodeStore>) -> bool {
    forall|id: u64|
        reg.contains_key(id) ==> match (#[trigger] reg[id]).children {
            Some(cs) => valid_children(cs@),
            None => true,
        }
}

/// The ledger handle a node settles against, read from its store: the call
/// cannot reach an instance that is not deployed, and the slot fails as
/// uninitialized before `initialize` wrote it.
pub open spec fn token_result(reg: Map<u64, NodeStore>, node: u64) -> Result<u64, Error> {
    if !reg.contains_key(node) {
        Err(Error::RemoteInvocationFailed)
    } else {
        match reg[node].token_contract_id {
            Some(t) => Ok(t),
            None => Err(Error::Uninitialized),
        }
    }
}

/// A node's beneficiary entries, read from its store, with the same failure
/// behaviour as [`token_result`].
pub open spec fn children_result(reg: Map<u64, NodeStore>, node: u64) -> Result<Seq<Node>, Error> {
    if !reg.contains_key(node) {
        Err(Error::RemoteInvocationFailed)
    } else {
        match reg[node].children {
            Some(cs) => Ok(cs@),
            None => Err(Error::Uninitialized),
        }
    }
}

impl Host {
    /// A host with no deployed instance and an all-zero ledger.
    pub fn new() -> (h: Host)
        ensures
            h.registry@ == Map::<u64, NodeStore>::empty(),
            forall|p: (u64, u64)| #[trigger] h.ledger@[p] == 0,
            wf_registry(h.registry@),
    {
        Host { ledger: Ledger::new(), registry: HashMap::new() }
    }

    /// Deploys a node instance: after the call the instance is addressable,
    /// with an empty configuration store if it was not deployed before. This
    /// stands in for the instance deployment mechanism, which belongs to the
    /// host environment, not to the engine.
    pub fn register_node(&mut self, node: u64)
        ensures
            final(self).ledger == old(self).ledger,
            final(self).registry@ == if old(self).registry@.contains_key(node) {
                old(self).registry@
            } else {
                old(self).registry@.insert(node, NodeStore::empty())
            },
            wf_registry(old(self).registry@) ==> wf_registry(final(self).registry@),
    {
        if !self.registry.contains_key(&node) {
            self.registry.insert(node, NodeStore { name: None, token_contract_id: None, children: None });
        }
    }
}

/// Reads which ledger collaborator `node` settles against.
pub fn get_token_contract_id(env: &Host, node: u64) -> (r: Result<u64, Error>)
    ensures
        r == token_result(env.registry@, node),
{
    match env.registry.get(&node) {
        None => Err(Error::RemoteInvocationFailed),
        Some(st) => match st.token_contract_id {
            Some(t) => Ok(t),
            None => Err(Error::Uninitialized),
        },
    }
}

/// Writes which ledger collaborator `node` settles against. Fails only when
/// the instance is not deployed; an existing value is overwritten.
pub fn set_token_contract_id(env: &mut Host, node: u64, token_id: u64) -> (r: Result<(), Error>)
    ensures
        final(env).ledger == old(env).ledger,
        match r {
            Ok(_) => old(env).registry@.contains_key(node) && final(env).registry@ == old(
                env,
            ).registry@.insert(
                node,
                NodeStore {
                    token_contract_id: Some(token_id),
                    ..old(env).registry@[node]
                },
            ),
            Err(e) => {
                &&& e == Error::RemoteInvocationFailed
                &&& !old(env).registry@.contains_key(node)
                &&& final(env).registry@ == old(env).registry@
            },
        },
{
    match env.registry.remove(&node) {
        None => Err(Error::RemoteInvocationFailed),
        Some(st) => {
            let st2 = NodeStore { token_contract_id: Some(token_id), ..st };
            env.registry.insert(node, st2);
            proof {
                assert(env.registry@ =~= old(env).registry@.insert(
                    node,
                    NodeStore { token_contract_id: Some(token_id), ..old(env).registry@[node] },
                ));
            }
            Ok(())
        },
    }
}

/// Reads `node`'s beneficiary entries: a copy of exactly what the store
/// holds. Fails as uninitialized before any entries were stored.
pub fn get_children(env: &Host, node: u64) -> (r: Result<Vec<Node>, Error>)
    ensures
        match r {
            Ok(v) => children_result(env.registry@, node) == Ok::<Seq<Node>, Error>(v@),
            Err(e) => children_result(env.registry@, node) == Err::<Seq<Node>, Error>(e),
        },
{
    match env.registry.get(&node) {
        None => Err(Error::RemoteInvocationFailed),
        Some(st) => match &st.children {
            Some(cs) => Ok(clone_children(cs)),
            None => Err(Error::Uninitialized),
        },
    }
}

/// Replaces `node`'s beneficiary entries wholesale; there is no partial
/// update. Fails only when the instance is not deployed.
pub fn set_children(env: &mut Host, node: u64, new_children: Vec<Node>) -> (r: Result<(), Error>)
    requires
        valid_children(new_children@),
    ensures
        final(env).ledger == old(env).ledger,
        match r {
            Ok(_) => old(env).registry@.contains_key(node) && final(env).registry@ == old(
                env,
            ).registry@.insert(
                node,
                NodeStore { children: Some(new_children), ..old(env).registry@[node] },
            ),
            Err(e) => {
                &&& e == Error::RemoteInvocationFailed
                &&& !old(env).registry@.contains_key(node)
                &&& final(env).registry@ == old(env).registry@
            },
        },
{
    match env.registry.remove(&node) {
        None => Err(Error::RemoteInvocationFailed),
        Some(st) => {
            let st2 = NodeStore { children: Some(new_children), ..st };
            env.registry.insert(node, st2);
            proof {
                assert(env.registry@ =~= old(env).registry@.insert(
                    node,
                    NodeStore { children: Some(new_children), ..old(env).registry@[node] },
                ));
            }
            Ok(())
        },
    }
}

/// Replacing a node's beneficiary entries and then reading them gives back
/// exactly the entries that were stored: the store has no merge semantics and
/// no other slot moves.
pub proof fn lemma_set_get_children(reg: Map<u64, NodeStore>, node: u64, new_children: Vec<Node>)
    requires
        reg.contains_key(node),
    ensures
        ({
            let reg2 = reg.insert(
                node,
                NodeStore { children: Some(new_children), ..reg[node] },
            );
            &&& children_result(reg2, node) == Ok::<Seq<Node>, Error>(new_children@)
            &&& token_result(reg2, node) == token_result(reg, node)
            &&& forall|other: u64|
                other != node ==> (reg2.contains_key(other) ==> reg2[other] == reg[other])
                    && (reg.contains_key(other) ==> reg2.contains_key(other))
        }),
{
}

} // verus!
