use credit_manager::Unauthorized;
use credit_manager::config::{Config, ConfigUpdates};
use credit_manager::ownership::RegistryOwnership;

fn instantiate() -> Config {
    Config::new(
        String::from("original_owner"),
        String::from("initial_red_bank"),
    )
}

/// Mirrors the deployment step that instantiates the account-registry (NFT)
/// contract and lets the deploying authority propose the manager as its new
/// controller. Returns the registry's address.
fn setup_nft_and_propose_owner(manager_addr: &str) -> (RegistryOwnership, String) {
    let mut registry = RegistryOwnership::new(String::from("original_owner"));
    let res = registry.propose_new_owner(
        &String::from("original_owner"),
        String::from(manager_addr),
    );
    res.unwrap();
    (registry, String::from("nft_contract_addr"))
}

#[test]
fn test_update_config_works_with_full_config() {
    let mut config = instantiate();

    let config_res = config.get_config();
    assert_eq!(config_res.account_nft, None);
    assert_eq!(config_res.owner, String::from("original_owner"));

    let (_registry, nft_contract_addr) = setup_nft_and_propose_owner("manager_contract");
    let new_owner = String::from("new_owner");
    let new_red_bank_addr = String::from("new_red_bank_addr");

    config
        .update_config(
            &String::from("original_owner"),
            ConfigUpdates {
                account_nft: Some(nft_contract_addr.clone()),
                owner: Some(new_owner.clone()),
                red_bank: Some(new_red_bank_addr.clone()),
            },
        )
        .unwrap();

    let config_res = config.get_config();
    assert_eq!(config_res.account_nft, Some(nft_contract_addr));
    assert_eq!(config_res.owner, new_owner);
    assert_eq!(config_res.red_bank, new_red_bank_addr);
}

#[test]
fn test_update_config_works_with_some_config() {
    let mut config = instantiate();

    let config_res = config.get_config();
    assert_eq!(config_res.account_nft, None);
    assert_eq!(config_res.owner, String::from("original_owner"));
    assert_eq!(config_res.red_bank, String::from("initial_red_bank"));

    let (_registry, nft_contract_addr) = setup_nft_and_propose_owner("manager_contract");
    config
        .update_config(
            &String::from("original_owner"),
            ConfigUpdates {
                account_nft: Some(nft_contract_addr.clone()),
                owner: None,
                red_bank: None,
            },
        )
        .unwrap();

    let config_res = config.get_config();
    assert_eq!(config_res.account_nft, Some(nft_contract_addr.clone()));
    assert_eq!(config_res.owner, String::from("original_owner"));
    assert_eq!(config_res.red_bank, String::from("initial_red_bank"));

    let new_owner = String::from("new_owner");
    config
        .update_config(
            &String::from("original_owner"),
            ConfigUpdates {
                account_nft: None,
                owner: Some(new_owner.clone()),
                red_bank: None,
            },
        )
        .unwrap();

    let config_res = config.get_config();
    assert_eq!(config_res.account_nft, Some(nft_contract_addr.clone()));
    assert_eq!(config_res.owner, new_owner);
    assert_eq!(config_res.red_bank, String::from("initial_red_bank"));

    let new_red_bank = String::from("new_red_bank_addr");
    config
        .update_config(
            &new_owner,
            ConfigUpdates {
                account_nft: None,
                owner: None,
                red_bank: Some(new_red_bank.clone()),
            },
        )
        .unwrap();

    let config_res = config.get_config();
    assert_eq!(config_res.account_nft, Some(nft_contract_addr));
    assert_eq!(config_res.owner, new_owner);
    assert_eq!(config_res.red_bank, new_red_bank);
}

#[test]
fn test_update_config_does_nothing_when_nothing_is_passed() {
    let mut config = instantiate();

    config
        .update_config(
            &String::from("original_owner"),
            ConfigUpdates {
                account_nft: None,
                owner: None,
                red_bank: None,
            },
        )
        .unwrap();

    let config_res = config.get_config();
    assert_eq!(config_res.account_nft, None);
    assert_eq!(config_res.owner, String::from("original_owner"));
}

#[test]
fn test_unauthorized_update_leaves_config_untouched() {
    let mut config = instantiate();

    let res = config.update_config(
        &String::from("intruder"),
        ConfigUpdates {
            account_nft: Some(String::from("evil_nft")),
            owner: Some(String::from("intruder")),
            red_bank: Some(String::from("evil_red_bank")),
        },
    );
    assert_eq!(res, Err(Unauthorized));

    let config_res = config.get_config();
    assert_eq!(config_res.owner, String::from("original_owner"));
    assert_eq!(config_res.account_nft, None);
    assert_eq!(config_res.red_bank, String::from("initial_red_bank"));
}

#[test]
fn test_full_update_scenario() {
    // owner O1, custodian "initial_red_bank", registry absent; a full update
    // as O1 replaces all three fields.
    let mut config = Config::new(String::from("O1"), String::from("initial_red_bank"));
    config
        .update_config(
            &String::from("O1"),
            ConfigUpdates {
                owner: Some(String::from("O2")),
                account_nft: Some(String::from("X")),
                red_bank: Some(String::from("new_red_bank_addr")),
            },
        )
        .unwrap();

    let config_res = config.get_config();
    assert_eq!(config_res.owner, String::from("O2"));
    assert_eq!(config_res.account_nft, Some(String::from("X")));
    assert_eq!(config_res.red_bank, String::from("new_red_bank_addr"));

    // The old owner is no longer authorized: a further update fails and the
    // configuration still shows the new owner.
    let res = config.update_config(
        &String::from("O1"),
        ConfigUpdates {
            owner: Some(String::from("O3")),
            account_nft: None,
            red_bank: None,
        },
    );
    assert_eq!(res, Err(Unauthorized));
    let config_res = config.get_config();
    assert_eq!(config_res.owner, String::from("O2"));
}

#[test]
fn test_same_update_twice_is_idempotent() {
    let updates = ConfigUpdates {
        owner: None,
        account_nft: Some(String::from("nft_addr")),
        red_bank: Some(String::from("other_red_bank")),
    };
    let mut once = Config::new(String::from("O1"), String::from("initial_red_bank"));
    once.update_config(
        &String::from("O1"),
        ConfigUpdates {
            owner: updates.owner.clone(),
            account_nft: updates.account_nft.clone(),
            red_bank: updates.red_bank.clone(),
        },
    )
    .unwrap();

    let mut twice = Config::new(String::from("O1"), String::from("initial_red_bank"));
    twice
        .update_config(
            &String::from("O1"),
            ConfigUpdates {
                owner: updates.owner.clone(),
                account_nft: updates.account_nft.clone(),
                red_bank: updates.red_bank.clone(),
            },
        )
        .unwrap();
    twice
        .update_config(&String::from("O1"), updates)
        .unwrap();

    let once_res = once.get_config();
    let twice_res = twice.get_config();
    assert_eq!(once_res.owner, twice_res.owner);
    assert_eq!(once_res.account_nft, twice_res.account_nft);
    assert_eq!(once_res.red_bank, twice_res.red_bank);
}
