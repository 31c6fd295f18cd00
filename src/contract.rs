use vstd::prelude::*;
use near_contract_standards::non_fungible_token::metadata::NFTContractMetadata;
use crate::market_id::{derived_id, marketplace_id};
use crate::registry::{is_claimed, Registry, RegistryView};

verus! {

/// The deposit, in yoctoNEAR, that must come with a request and that funds
/// the new marketplace account.
pub const INITIAL_BALANCE: u128 = 5_000_000_000_000_000_000_000_000;

/// The gas for the marketplace's initializer call.
pub const NEW_MARKET_GAS: u64 = 100_000_000_000_000;

/// The gas for the confirmation callback.
pub const ADD_NEW_MARKET_GAS: u64 = 100_000_000_000_000;

/// The deposit attached to the initializer and confirmation calls.
pub const NO_BALANCE: u128 = 0;

/// The marketplace metadata is carried, unread, from the request to the
/// initializer arguments.
#[verifier::external_type_specification]
#[verifier::external_body]
pub struct ExNFTContractMetadata(NFTContractMetadata);

/// The arguments of the marketplace's initializer.
pub struct NewArgs {
    pub owner_id: String,
    pub marketplace_metadata: NFTContractMetadata,
}

/// One step of the creation pipeline, in the order the platform runs them.
#[derive(Debug, Clone, Copy, PartialEq, Eq, Structural)]
pub enum Stage {
    /// Create the marketplace account.
    CreateAccount,
    /// Fund it.
    Transfer { amount: u128 },
    /// Install the marketplace code on it.
    DeployContract,
    /// Call the marketplace's initializer.
    Initialize { deposit: u128, gas: u64 },
    /// Call back into the factory with the pipeline's outcome.
    Confirm { deposit: u128, gas: u64 },
}

/// The creation pipeline.
pub open spec fn pipeline() -> Seq<Stage> {
    seq![
        Stage::CreateAccount,
        Stage::Transfer { amount: INITIAL_BALANCE },
        Stage::DeployContract,
        Stage::Initialize { deposit: NO_BALANCE, gas: NEW_MARKET_GAS },
        Stage::Confirm { deposit: NO_BALANCE, gas: ADD_NEW_MARKET_GAS },
    ]
}

/// The creation pipeline of one marketplace, issued by an accepted request.
pub struct MarketPlan {
    /// The account the pipeline creates.
    pub market_id: String,
    /// The owner that the confirmation step records.
    pub creator_id: String,
    /// The steps, in order.
    pub stages: Vec<Stage>,
    /// What the initializer step passes.
    pub init_args: NewArgs,
}

/// Why a request was refused.
#[derive(Debug, Clone, Copy, PartialEq, Eq, Structural)]
pub enum ProvisionError {
    /// `prefix.factory` is no valid account id.
    InvalidMarketId,
    /// The requester already holds this marketplace.
    MarketExists,
    /// The attached deposit is not exactly `INITIAL_BALANCE`.
    WrongDeposit,
}

/// The result that the pipeline hands to the confirmation step.
#[derive(Debug, Clone, Copy, PartialEq, Eq, Structural)]
pub enum StageOutcome {
    /// Not finished yet.
    Pending,
    Succeeded,
    Failed,
}

/// Why a confirmation recorded nothing.
#[derive(Debug, Clone, Copy, PartialEq, Eq, Structural)]
pub enum ResolveError {
    /// A step of the pipeline failed.
    CreationFailed,
    /// The owner already holds this marketplace.
    AlreadyRegistered,
    /// Another owner holds this marketplace.
    ClaimedByOther,
}

/// How a request from `creator` with `deposit` attached is answered: the id of
/// the marketplace to create, or why not.
pub open spec fn provision_result(
    reg: RegistryView,
    prefix: Seq<char>,
    factory: Seq<char>,
    creator: Seq<char>,
    deposit: u128,
) -> Result<Seq<char>, ProvisionError> {
    match derived_id(prefix, factory) {
        None => Err(ProvisionError::InvalidMarketId),
        Some(id) => if reg.contains((creator, id)) {
            Err(ProvisionError::MarketExists)
        } else if deposit != INITIAL_BALANCE {
            Err(ProvisionError::WrongDeposit)
        } else {
            Ok(id)
        },
    }
}

/// How the confirmation of `id` for `creator` is answered.
pub open spec fn resolve_result(
    reg: RegistryView,
    creator: Seq<char>,
    id: Seq<char>,
    outcome: StageOutcome,
) -> Result<(), ResolveError> {
    if outcome != StageOutcome::Succeeded {
        Err(ResolveError::CreationFailed)
    } else if reg.contains((creator, id)) {
        Err(ResolveError::AlreadyRegistered)
    } else if is_claimed(reg, id) {
        Err(ResolveError::ClaimedByOther)
    } else {
        Ok(())
    }
}

/// The registry after the confirmation of `id` for `creator`.
pub open spec fn resolved(
    reg: RegistryView,
    creator: Seq<char>,
    id: Seq<char>,
    outcome: StageOutcome,
) -> RegistryView {
    if resolve_result(reg, creator, id, outcome) is Ok {
        reg.insert((creator, id))
    } else {
        reg
    }
}

/// The marketplace factory: which owner holds which marketplace.
pub struct Contract {
    marketplaces: Registry,
}

impl View for Contract {
    type V = RegistryView;

    closed spec fn view(&self) -> RegistryView {
        self.marketplaces@
    }
}

impl Contract {
    pub closed spec fn wf(&self) -> bool {
        self.marketplaces.wf()
    }

    /// A factory with no marketplaces.
    pub fn new() -> (r: Contract)
        ensures
            r.wf(),
            r@ == Set::<(Seq<char>, Seq<char>)>::empty(),
    {
        Contract { marketplaces: Registry::new() }
    }

    /// Checks a request by `creator_id`, sent to the factory account
    /// `factory_id` with `attached_deposit`, for the marketplace `prefix`,
    /// and gives the pipeline that creates it. Nothing is recorded here.
    pub fn create_market(
        &self,
        prefix: &str,
        contract_metadata: NFTContractMetadata,
        creator_id: &String,
        factory_id: &str,
        attached_deposit: u128,
    ) -> (r: Result<MarketPlan, ProvisionError>)
        requires
            self.wf(),
        ensures
            r is Ok <==> provision_result(self@, prefix@, factory_id@, creator_id@, attached_deposit) is Ok,
            r matches Err(e) ==> provision_result(self@, prefix@, factory_id@, creator_id@, attached_deposit)
                == Err::<Seq<char>, ProvisionError>(e),
            r matches Ok(plan) ==> {
                &&& provision_result(self@, prefix@, factory_id@, creator_id@, attached_deposit)
                    == Ok::<Seq<char>, ProvisionError>(plan.market_id@)
                &&& plan.creator_id@ == creator_id@
                &&& plan.stages@ == pipeline()
                &&& plan.init_args.owner_id@ == creator_id@
                &&& plan.init_args.marketplace_metadata == contract_metadata
            },
            attached_deposit != INITIAL_BALANCE ==> r is Err,
    {
        let market_id = match marketplace_id(prefix, factory_id) {
            Some(id) => id,
            None => return Err(ProvisionError::InvalidMarketId),
        };
        if self.marketplaces.contains(creator_id, &market_id) {
            return Err(ProvisionError::MarketExists);
        }
        if attached_deposit != INITIAL_BALANCE {
            return Err(ProvisionError::WrongDeposit);
        }
        let stages = vec![
            Stage::CreateAccount,
            Stage::Transfer { amount: INITIAL_BALANCE },
            Stage::DeployContract,
            Stage::Initialize { deposit: NO_BALANCE, gas: NEW_MARKET_GAS },
            Stage::Confirm { deposit: NO_BALANCE, gas: ADD_NEW_MARKET_GAS },
        ];
        assert(stages@ =~= pipeline());
        Ok(MarketPlan {
            market_id,
            creator_id: creator_id.clone(),
            stages,
            init_args: NewArgs { owner_id: creator_id.clone(), marketplace_metadata: contract_metadata },
        })
    }

    /// Handles the outcome of the pipeline that creates `subaccount_id` for
    /// `creator_id`: records it on success, and records nothing otherwise.
    pub fn resolve_market_creation(
        &mut self,
        creator_id: String,
        subaccount_id: String,
        outcome: StageOutcome,
    ) -> (r: Result<(), ResolveError>)
        requires
            old(self).wf(),
            outcome != StageOutcome::Pending,
        ensures
            final(self).wf(),
            r == resolve_result(old(self)@, creator_id@, subaccount_id@, outcome),
            final(self)@ == resolved(old(self)@, creator_id@, subaccount_id@, outcome),
    {
        match outcome {
            StageOutcome::Succeeded => {},
            _ => return Err(ResolveError::CreationFailed),
        }
        if self.marketplaces.contains(&creator_id, &subaccount_id) {
            return Err(ResolveError::AlreadyRegistered);
        }
        match self.marketplaces.commit(creator_id, subaccount_id) {
            Ok(()) => Ok(()),
            Err(_) => Err(ResolveError::ClaimedByOther),
        }
    }

    /// The marketplaces that `owner` holds.
    pub fn markets_of(&self, owner: &String) -> (r: Vec<String>)
        requires
            self.wf(),
        ensures
            crate::registry::string_views(r@).to_set() == crate::registry::markets_of(self@, owner@),
            crate::registry::string_views(r@).no_duplicates(),
    {
        self.marketplaces.get_or_create(owner)
    }

    /// Every (owner, marketplace) pair held, each once.
    pub fn entries(&self) -> (r: Vec<(String, String)>)
        requires
            self.wf(),
        ensures
            crate::registry::pair_views(r@).to_set() == self@,
    {
        self.marketplaces.entries()
    }

    /// Whether `owner` holds the marketplace `id`.
    pub fn owns(&self, owner: &String, id: &String) -> (r: bool)
        requires
            self.wf(),
        ensures
            r == self@.contains((owner@, id@)),
    {
        self.marketplaces.contains(owner, id)
    }
}

} // verus!
