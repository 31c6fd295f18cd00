use market_factory::contract::{
    MarketPlan, ProvisionError, ResolveError, Stage, StageOutcome, ADD_NEW_MARKET_GAS,
    INITIAL_BALANCE, NEW_MARKET_GAS, NO_BALANCE,
};
use market_factory::{marketplace_id, Contract};
use near_contract_standards::non_fungible_token::metadata::NFTContractMetadata;

const FACTORY: &str = "factory.near";

fn meta(name: &str) -> NFTContractMetadata {
    NFTContractMetadata {
        spec: "nft-1.0.0".to_string(),
        name: name.to_string(),
        symbol: "MKT".to_string(),
        icon: None,
        base_uri: None,
        reference: None,
        reference_hash: None,
    }
}

fn s(x: &str) -> String {
    x.to_string()
}

fn request(
    c: &Contract,
    prefix: &str,
    owner: &str,
    deposit: u128,
) -> Result<MarketPlan, ProvisionError> {
    c.create_market(prefix, meta("Shop"), &s(owner), FACTORY, deposit)
}

#[test]
fn market_id_joins_prefix_and_factory() {
    assert_eq!(marketplace_id("shop", FACTORY), Some(s("shop.factory.near")));
}

#[test]
fn market_id_is_deterministic() {
    assert_eq!(marketplace_id("shop", FACTORY), marketplace_id("shop", FACTORY));
}

#[test]
fn market_id_distinct_for_distinct_inputs() {
    assert_ne!(marketplace_id("shop", FACTORY), marketplace_id("store", FACTORY));
    assert_ne!(marketplace_id("shop", FACTORY), marketplace_id("shop", "other.near"));
}

#[test]
fn market_id_rejects_invalid_account_ids() {
    assert_eq!(marketplace_id("Shop", FACTORY), None);
    assert_eq!(marketplace_id("", FACTORY), None);
    assert_eq!(marketplace_id("shop-", FACTORY), None);
    let long = "a".repeat(60);
    assert_eq!(marketplace_id(&long, FACTORY), None);
}

#[test]
fn new_contract_holds_nothing() {
    let c = Contract::new();
    assert!(c.markets_of(&s("alice")).is_empty());
}

#[test]
fn accepted_request_gives_the_pipeline() {
    let c = Contract::new();
    let plan = request(&c, "shop", "alice", INITIAL_BALANCE).unwrap();
    assert_eq!(plan.market_id, "shop.factory.near");
    assert_eq!(plan.creator_id, "alice");
    assert_eq!(plan.init_args.owner_id, "alice");
    assert_eq!(plan.init_args.marketplace_metadata, meta("Shop"));
    assert_eq!(
        plan.stages,
        vec![
            Stage::CreateAccount,
            Stage::Transfer { amount: INITIAL_BALANCE },
            Stage::DeployContract,
            Stage::Initialize { deposit: NO_BALANCE, gas: NEW_MARKET_GAS },
            Stage::Confirm { deposit: NO_BALANCE, gas: ADD_NEW_MARKET_GAS },
        ]
    );
    assert_eq!(INITIAL_BALANCE, 5_000_000_000_000_000_000_000_000);
    assert_eq!(NEW_MARKET_GAS, 100_000_000_000_000);
    assert!(c.markets_of(&s("alice")).is_empty());
}

#[test]
fn request_records_nothing_until_confirmed() {
    let c = Contract::new();
    assert!(request(&c, "shop", "alice", INITIAL_BALANCE).is_ok());
    assert!(!c.owns(&s("alice"), &s("shop.factory.near")));
}

#[test]
fn wrong_deposit_is_refused() {
    let c = Contract::new();
    assert_eq!(
        request(&c, "shop", "alice", INITIAL_BALANCE - 1).err(),
        Some(ProvisionError::WrongDeposit)
    );
    assert_eq!(
        request(&c, "shop", "alice", INITIAL_BALANCE + 1).err(),
        Some(ProvisionError::WrongDeposit)
    );
    assert_eq!(request(&c, "shop", "alice", 0).err(), Some(ProvisionError::WrongDeposit));
    assert!(c.markets_of(&s("alice")).is_empty());
}

#[test]
fn invalid_prefix_is_refused() {
    let c = Contract::new();
    assert_eq!(
        request(&c, "Bad Prefix", "alice", INITIAL_BALANCE).err(),
        Some(ProvisionError::InvalidMarketId)
    );
}

#[test]
fn shop_scenario_end_to_end() {
    let mut c = Contract::new();
    let alice = s("alice");
    let plan = request(&c, "shop", "alice", INITIAL_BALANCE).unwrap();
    assert_eq!(
        c.resolve_market_creation(plan.creator_id, plan.market_id, StageOutcome::Succeeded),
        Ok(())
    );
    assert_eq!(c.markets_of(&alice), vec![s("shop.factory.near")]);

    assert_eq!(
        request(&c, "shop", "alice", INITIAL_BALANCE).err(),
        Some(ProvisionError::MarketExists)
    );
    assert_eq!(c.markets_of(&alice), vec![s("shop.factory.near")]);

    assert_eq!(
        request(&c, "mall", "alice", INITIAL_BALANCE - 1).err(),
        Some(ProvisionError::WrongDeposit)
    );

    let plan = request(&c, "mall", "alice", INITIAL_BALANCE).unwrap();
    assert_eq!(
        c.resolve_market_creation(plan.creator_id, plan.market_id, StageOutcome::Failed),
        Err(ResolveError::CreationFailed)
    );
    assert_eq!(c.markets_of(&alice), vec![s("shop.factory.near")]);
    assert!(!c.owns(&alice, &s("mall.factory.near")));
}

#[test]
fn failed_pipeline_records_nothing() {
    let mut c = Contract::new();
    assert_eq!(
        c.resolve_market_creation(s("bob"), s("shop.factory.near"), StageOutcome::Failed),
        Err(ResolveError::CreationFailed)
    );
    assert!(c.markets_of(&s("bob")).is_empty());
}

#[test]
fn concurrent_requests_commit_once() {
    let mut c = Contract::new();
    let first = request(&c, "shop", "alice", INITIAL_BALANCE).unwrap();
    let second = request(&c, "shop", "alice", INITIAL_BALANCE).unwrap();
    assert_eq!(
        c.resolve_market_creation(first.creator_id, first.market_id, StageOutcome::Succeeded),
        Ok(())
    );
    assert_eq!(
        c.resolve_market_creation(second.creator_id, second.market_id, StageOutcome::Succeeded),
        Err(ResolveError::AlreadyRegistered)
    );
    assert_eq!(c.markets_of(&s("alice")), vec![s("shop.factory.near")]);
}

#[test]
fn market_of_another_owner_is_not_taken_over() {
    let mut c = Contract::new();
    assert_eq!(
        c.resolve_market_creation(s("alice"), s("shop.factory.near"), StageOutcome::Succeeded),
        Ok(())
    );
    assert!(request(&c, "shop", "bob", INITIAL_BALANCE).is_ok());
    assert_eq!(
        c.resolve_market_creation(s("bob"), s("shop.factory.near"), StageOutcome::Succeeded),
        Err(ResolveError::ClaimedByOther)
    );
    assert!(c.markets_of(&s("bob")).is_empty());
    assert!(c.owns(&s("alice"), &s("shop.factory.near")));
}

#[test]
fn owners_keep_their_own_markets() {
    let mut c = Contract::new();
    for (owner, id) in [("alice", "a1.factory.near"), ("bob", "b1.factory.near"), ("alice", "a2.factory.near")] {
        assert_eq!(c.resolve_market_creation(s(owner), s(id), StageOutcome::Succeeded), Ok(()));
    }
    let mut alice = c.markets_of(&s("alice"));
    alice.sort();
    assert_eq!(alice, vec![s("a1.factory.near"), s("a2.factory.near")]);
    assert_eq!(c.markets_of(&s("bob")), vec![s("b1.factory.near")]);
    assert!(c.owns(&s("bob"), &s("b1.factory.near")));
    assert!(!c.owns(&s("alice"), &s("b1.factory.near")));
}

#[test]
fn entries_list_every_confirmed_pair_once() {
    let mut c = Contract::new();
    assert!(c.entries().is_empty());
    assert_eq!(c.resolve_market_creation(s("alice"), s("a1.factory.near"), StageOutcome::Succeeded), Ok(()));
    assert_eq!(c.resolve_market_creation(s("bob"), s("b1.factory.near"), StageOutcome::Succeeded), Ok(()));
    assert_eq!(c.resolve_market_creation(s("bob"), s("b1.factory.near"), StageOutcome::Succeeded), Err(ResolveError::AlreadyRegistered));
    let mut all = c.entries();
    all.sort();
    assert_eq!(all, vec![(s("alice"), s("a1.factory.near")), (s("bob"), s("b1.factory.near"))]);
}
