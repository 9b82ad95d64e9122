use cascading_donations::{
    Address, CascadeDonationContract, CascadeDonationContractTrait, Error, Host, Node,
};

#[test]
fn settling_before_initialize_is_uninitialized() {
    let mut env = Host::new();
    env.register_node(100);
    env.ledger.set_balance(1, 10, 500);

    let r = CascadeDonationContract::donate(&mut env, 100, 100, 10);
    assert_eq!(r, Err(Error::Uninitialized));
    assert_eq!(env.ledger.balance_of(1, 10), 500);

    let g = CascadeDonationContract::g_children(&env, 100);
    assert_eq!(g.unwrap_err(), Error::Uninitialized);

    let c = CascadeDonationContract::donate_ch(&mut env, 100, 10);
    assert_eq!(c, Err(Error::Uninitialized));
}

#[test]
fn initialize_twice_is_already_initialized() {
    let mut env = Host::new();
    env.register_node(100);
    let children = vec![Node {
        address: Address::Account(101),
        name: "dep_1".to_string(),
        percentage: 10,
    }];
    CascadeDonationContract::initialize(&mut env, 100, 1, children).unwrap();

    let again = CascadeDonationContract::initialize(&mut env, 100, 2, Vec::new());
    assert_eq!(again, Err(Error::AlreadyInitialized));

    // The first configuration is untouched.
    let got = CascadeDonationContract::g_children(&env, 100).unwrap();
    assert_eq!(got.len(), 1);
    assert_eq!(got[0].name, "dep_1");
}

#[test]
fn pull_beyond_the_donators_balance_fails_the_ledger_transfer() {
    let mut env = Host::new();
    env.register_node(100);
    CascadeDonationContract::initialize(&mut env, 100, 1, Vec::new()).unwrap();
    env.ledger.set_balance(1, 10, 100);

    let r = CascadeDonationContract::donate(&mut env, 100, 500, 10);
    assert_eq!(r, Err(Error::LedgerTransferFailed));
    assert_eq!(env.ledger.balance_of(1, 10), 100);
    assert_eq!(env.ledger.balance_of(1, 100), 0);
}

#[test]
fn operations_on_an_undeployed_instance_fail_as_remote_invocation() {
    let mut env = Host::new();
    env.ledger.set_balance(1, 10, 500);

    let r = CascadeDonationContract::donate(&mut env, 999, 100, 10);
    assert_eq!(r, Err(Error::RemoteInvocationFailed));
    assert_eq!(env.ledger.balance_of(1, 10), 500);

    let s = CascadeDonationContract::s_children(&mut env, 999, Vec::new());
    assert_eq!(s, Err(Error::RemoteInvocationFailed));

    let i = CascadeDonationContract::initialize(&mut env, 999, 1, Vec::new());
    assert_eq!(i, Err(Error::RemoteInvocationFailed));

    let g = CascadeDonationContract::g_children(&env, 999);
    assert_eq!(g.unwrap_err(), Error::RemoteInvocationFailed);
}

#[test]
fn failed_invocation_leaves_the_share_in_the_childs_custody() {
    // The direct transfer and the remote invocation are two separate
    // operations: when the invocation target is unreachable, the share that
    // was already transferred sits in the child's custody, uncascaded,
    // recoverable by re-driving the child's own entry point later.
    let mut env = Host::new();
    env.register_node(100);
    let children = vec![Node {
        address: Address::Contract(999),
        name: "ghost".to_string(),
        percentage: 40,
    }];
    CascadeDonationContract::initialize(&mut env, 100, 1, children).unwrap();
    env.ledger.set_balance(1, 10, 2000);

    let r = CascadeDonationContract::donate(&mut env, 100, 1000, 10);
    assert_eq!(r, Err(Error::RemoteInvocationFailed));
    assert_eq!(env.ledger.balance_of(1, 10), 1000);
    assert_eq!(env.ledger.balance_of(1, 100), 600);
    assert_eq!(env.ledger.balance_of(1, 999), 400);
}

#[test]
fn a_stranded_share_is_recovered_by_redriving_the_child() {
    // Continuation of the non-atomic transfer-then-invoke story: once the
    // child instance is deployed and configured, re-driving its own cascade
    // entry point settles the balance that was left sitting in its custody.
    let mut env = Host::new();
    env.register_node(100);
    let children = vec![Node {
        address: Address::Contract(999),
        name: "late".to_string(),
        percentage: 40,
    }];
    CascadeDonationContract::initialize(&mut env, 100, 1, children).unwrap();
    env.ledger.set_balance(1, 10, 1000);
    let r = CascadeDonationContract::donate(&mut env, 100, 1000, 10);
    assert_eq!(r, Err(Error::RemoteInvocationFailed));
    assert_eq!(env.ledger.balance_of(1, 999), 400);

    env.register_node(999);
    let late_children = vec![Node {
        address: Address::Account(501),
        name: "leaf".to_string(),
        percentage: 25,
    }];
    CascadeDonationContract::initialize(&mut env, 999, 1, late_children).unwrap();
    CascadeDonationContract::donate_ch(&mut env, 999, 10).unwrap();
    assert_eq!(env.ledger.balance_of(1, 999), 300);
    assert_eq!(env.ledger.balance_of(1, 501), 100);
}

#[test]
fn unsupported_address_kind_fails_that_entry() {
    let mut env = Host::new();
    env.register_node(100);
    let children = vec![Node {
        address: Address::Other(3),
        name: "odd".to_string(),
        percentage: 10,
    }];
    CascadeDonationContract::initialize(&mut env, 100, 1, children).unwrap();
    env.ledger.set_balance(1, 10, 1000);

    let r = CascadeDonationContract::donate(&mut env, 100, 1000, 10);
    assert_eq!(r, Err(Error::UnsupportedAddressKind));
    // The pull stays committed; the entry itself moved nothing.
    assert_eq!(env.ledger.balance_of(1, 100), 1000);
}
