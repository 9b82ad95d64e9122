use vstd::prelude::*;

verus! {

/// The key space of a node instance's persisted configuration store. One slot
/// per key; `Name` is reserved by the key space but never written by the
/// engine.
#[derive(Clone, Copy, Debug, PartialEq, Eq)]
pub enum DataKey {
    Name,
    TkContract,
    ChildNodes,
}

/// The address of a beneficiary: the identity of a unique payable entity,
/// tagged with the kind that decides dispatch.
///
/// `Account` is a terminal recipient with no further distribution logic.
/// `Contract` is a node instance that runs this same engine and re-distributes
/// whatever it receives. `Other` carries an unrecognized address tag opaquely;
/// settling against it fails with [`crate::Error::UnsupportedAddressKind`].
#[derive(Clone, Copy, Debug, PartialEq, Eq)]
pub enum Address {
    Account(u64),
    Contract(u64),
    Other(u32),
}

/// One beneficiary entry of a node's distribution tree: a descriptive label,
/// the beneficiary's address, and the percentage of the node's base balance
/// that the entry receives. The percentage is meant to lie in `[0, 100]`;
/// entry points that store or settle entries require it.
#[derive(Debug)]
pub struct Node {
    pub name: String,
    pub address: Address,
    pub percentage: u32,
}

/// The persisted configuration of one node instance, one field per
/// [`DataKey`] slot. A slot that was never written holds `None`.
#[derive(Debug)]
pub struct NodeStore {
    /// Reserved by the key space; the engine never writes it.
    pub name: Option<String>,
    /// Which ledger collaborator this node settles against.
    pub token_contract_id: Option<u64>,
    /// The ordered beneficiary entries of this node.
    pub children: Option<Vec<Node>>,
}

impl NodeStore {
    /// A store with no slot written, as a freshly deployed instance holds it.
    pub open spec fn empty() -> NodeStore {
        NodeStore { name: None, token_contract_id: None, children: None }
    }

    /// Whether the slot of `key` has been written.
    pub open spec fn spec_has(&self, key: DataKey) -> bool {
        match key {
            DataKey::Name => self.name is Some,
            DataKey::TkContract => self.token_contract_id is Some,
            DataKey::ChildNodes => self.children is Some,
        }
    }

    /// Whether the slot of `key` has been written.
    pub fn has(&self, key: DataKey) -> (r: bool)
        ensures
            r == self.spec_has(key),
    {
        match key {
            DataKey::Name => self.name.is_some(),
            DataKey::TkContract => self.token_contract_id.is_some(),
            DataKey::ChildNodes => self.children.is_some(),
        }
    }
}

/// Whether one beneficiary entry is well formed: its percentage lies in
/// `[0, 100]`.
pub open spec fn valid_node(n: Node) -> bool {
    n.percentage <= 100
}

/// Whether every entry of a beneficiary sequence is well formed.
pub open spec fn valid_children(cs: Seq<Node>) -> bool {
    forall|i: int| 0 <= i < cs.len() ==> valid_node(#[trigger] cs[i])
}

/// An exact copy of one beneficiary entry.
pub fn clone_node(n: &Node) -> (r: Node)
    ensures
        r == *n,
{
    Node { name: n.name.clone(), address: n.address, percentage: n.percentage }
}

/// An exact copy of a beneficiary sequence.
pub fn clone_children(v: &Vec<Node>) -> (r: Vec<Node>)
    ensures
        r@ == v@,
{
    let mut r: Vec<Node> = Vec::new();
    let mut i: usize = 0;
    while i < v.len()
        invariant
            i <= v.len(),
            r@ == v@.subrange(0, i as int),
        decreases v.len() - i,
    {
        r.push(clone_node(&v[i]));
        assert(r@ =~= v@.subrange(0, i + 1 as int));
        i = i + 1;
    }
    assert(r@ =~= v@);
    r
}

} // verus!
