use cascading_donations::{
    Address, CascadeDonationContract, CascadeDonationContractTrait, Host, Node,
};

#[test]
fn basic_donation_without_cascade() {
    // MAIN PROJECT
    // |-   dependencie_1 (10%)
    // |-   dependencie_2 (30%)
    //
    // Donating 1000 to the main project settles both children by direct
    // transfer and the main project keeps the rest.
    let mut env = Host::new();
    let token_id: u64 = 1;
    let donator_id: u64 = 10;
    let contract_id: u64 = 100;
    let dependencie_1_id: u64 = 101;
    let dependencie_2_id: u64 = 102;

    env.register_node(contract_id);

    let child_1 = Node {
        address: Address::Account(dependencie_1_id),
        name: "dep_1".to_string(),
        percentage: 10,
    };
    let child_2 = Node {
        address: Address::Account(dependencie_2_id),
        name: "dep_2".to_string(),
        percentage: 30,
    };
    let children = vec![child_1, child_2];

    CascadeDonationContract::initialize(&mut env, contract_id, token_id, children).unwrap();

    // FUND DONATOR ACCOUNT
    env.ledger.set_balance(token_id, donator_id, 2000);

    CascadeDonationContract::donate(&mut env, contract_id, 1000, donator_id).unwrap();

    assert_eq!(env.ledger.balance_of(token_id, donator_id), 1000);
    assert_eq!(
        env.ledger.balance_of(token_id, contract_id),
        600,
        "Main project gets the correct balance"
    );
    assert_eq!(
        env.ledger.balance_of(token_id, dependencie_1_id),
        100,
        "Dependencie 1 receives the correct balance"
    );
    assert_eq!(
        env.ledger.balance_of(token_id, dependencie_2_id),
        300,
        "Dependencie 2 receives the correct balance"
    );
}

#[test]
fn contract_with_parent_children() {
    // MAIN PROJECT
    // |-   dependencie_1 (20%, terminal)
    // |-   c_parent_1    (20%, a node instance of its own)
    // |--     subdep_1   (20% of c_parent_1's share)
    // |--     subdep_2   (20% of c_parent_1's share)
    let mut env = Host::new();
    let token_id: u64 = 1;
    let donator_id: u64 = 10;
    let contract_id: u64 = 100;
    let child_contract_id: u64 = 200;
    let dependencie_1_id: u64 = 101;
    let sub_dependencie_1_id: u64 = 201;
    let sub_dependencie_2_id: u64 = 202;

    env.register_node(contract_id);
    env.register_node(child_contract_id);

    // CHILD PARENT CHILDREN
    let parent_1_child_1 = Node {
        address: Address::Account(sub_dependencie_1_id),
        name: "subdep_1".to_string(),
        percentage: 20,
    };
    let parent_1_child_2 = Node {
        address: Address::Account(sub_dependencie_2_id),
        name: "subdep_2".to_string(),
        percentage: 20,
    };
    let parent1_children = vec![parent_1_child_1, parent_1_child_2];
    CascadeDonationContract::initialize(
        &mut env,
        child_contract_id,
        token_id,
        parent1_children,
    )
    .unwrap();

    // PARENT CHILDREN
    let child_1 = Node {
        address: Address::Account(dependencie_1_id),
        name: "dep_1".to_string(),
        percentage: 20,
    };
    let child_parent_1 = Node {
        address: Address::Contract(child_contract_id),
        name: "c_parent_1".to_string(),
        percentage: 20,
    };
    let children = vec![child_1, child_parent_1];
    CascadeDonationContract::initialize(&mut env, contract_id, token_id, children).unwrap();

    // FUND DONATOR ACCOUNT
    env.ledger.set_balance(token_id, donator_id, 2000);

    CascadeDonationContract::donate(&mut env, contract_id, 1000, donator_id).unwrap();

    assert_eq!(env.ledger.balance_of(token_id, donator_id), 1000);
    assert_eq!(
        env.ledger.balance_of(token_id, contract_id),
        600,
        "Main project gets the correct balance"
    );
    assert_eq!(
        env.ledger.balance_of(token_id, dependencie_1_id),
        200,
        "Dependencie 1 receives the correct balance"
    );
    assert_eq!(
        env.ledger.balance_of(token_id, child_contract_id),
        120,
        "Parent Child receives the correct balance"
    );
    assert_eq!(
        env.ledger.balance_of(token_id, sub_dependencie_1_id),
        40,
        "Sub Dependencie 1 receives the correct balance"
    );
    assert_eq!(
        env.ledger.balance_of(token_id, sub_dependencie_2_id),
        40,
        "Sub Dependencie 2 receives the correct balance"
    );
}
