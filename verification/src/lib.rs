//! Cascading proportional fund distribution.
//!
//! A donor deposits an amount into a distribution node; the node re-distributes
//! fixed percentages of the balance it just received to its configured child
//! beneficiaries, and any child that is itself a distribution node repeats the
//! process on its own share, recursively. The remainder stays with the node
//! that received the donation.
//!
//! The engine never custodies funds itself: balances live with a ledger
//! collaborator and node configurations live in a per-instance store. Both
//! collaborators are modelled here as plain data, so that the whole settlement
//! cascade is executable and verified end to end.

mod errors;
mod splits;
mod tree;
mod ledger;
mod host;
mod engine;

pub use errors::Error;
pub use engine::{
    apply_children_donations, apply_children_donations_spec, apply_donation_type,
    apply_donation_type_spec, apply_main_donation, children_loop_spec, donate_ch_spec,
    donate_spec, donate_to_child, donate_to_child_spec, donate_to_parent_child,
    donate_to_parent_child_spec, invoke_child_distribution, invoke_child_spec,
    lemma_dispatch_resolution, lemma_failure_mid_cascade, lemma_resettlement_no_dedup,
    settle_from_cascade, CascadeDonationContract, CascadeDonationContractTrait,
    MAX_INVOCATION_DEPTH,
};
pub use tree::{valid_children, valid_node};
pub use ledger::{xfer_spec, Ledger, LedgerView};
pub use host::{
    children_result, get_children, get_token_contract_id, lemma_set_get_children, set_children,
    set_token_contract_id, token_result, wf_registry, Host,
};
pub use splits::{
    lemma_share_floor, lemma_share_zero, lemma_sum_of_shares_bounded, share, share_amt,
    sum_percent, sum_shares,
};
pub use tree::{Address, DataKey, Node, NodeStore, clone_children, clone_node};
