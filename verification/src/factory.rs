//! The deployment orchestrator and the completion handler.
//!
//! The orchestrator validates the derived child identifier and the attached
//! value, and on success returns a [`DeploymentRequest`]: a full description
//! of the composite action the surrounding runtime must execute, together
//! with the arguments frozen for the chained completion handler. The
//! completion handler is invoked later with the runtime's outcome; on
//! success it records the ownership entry and raises the readiness flag, on
//! failure it directs a refund of the attached value to the caller.

use vstd::prelude::*;

use crate::account::{child_id_seq, make_child_account_id, valid_account_id, AccountId};
use crate::errors::FactoryError;
use crate::registry::{ProgramInfo, ProgramInfoView, Registry};

verus! {

/// Gas units in one tera-gas of the ledger's gas currency.
pub const TGAS: u64 = 1_000_000_000_000;

/// Value attached to the constructor invocation of the deployed program.
pub const NO_DEPOSIT: u128 = 0;

/// The ledger's storage price for one byte, in the smallest currency unit.
pub const NEAR_PER_STORAGE: u128 = 10_000_000_000_000_000_000;

/// A public key the caller may ask to have attached to the child account,
/// held as raw bytes; the factory never reads inside it.
#[derive(Debug)]
pub struct PublicKey {
    pub data: Vec<u8>,
}

/// The constructor parameters of the deployed token program. Serializing
/// them into the constructor payload is the runtime adapter's work.
#[derive(Debug)]
pub struct FungibleTokenInitArgs {
    pub owner_id: AccountId,
    pub name: String,
    pub symbol: String,
    pub total_supply: u128,
}

/// The arguments frozen for the completion handler when the composite
/// action is issued, read by the handler whichever branch executes.
#[derive(Debug)]
pub struct CallbackArgs {
    pub account: AccountId,
    pub user: AccountId,
    pub attached: u128,
}

/// The pending work of one deployment attempt: the ordered composite action
/// (create the child account, transfer the attached value, install the
/// binary payload, optionally attach a key, invoke the constructor) and the
/// chained completion handler's frozen arguments.
#[derive(Debug)]
pub struct DeploymentRequest {
    pub subaccount: AccountId,
    pub attached: u128,
    pub code: Vec<u8>,
    pub init_method: String,
    pub init_args: FungibleTokenInitArgs,
    pub init_deposit: u128,
    pub init_gas: u64,
    pub public_key: Option<PublicKey>,
    pub callback: CallbackArgs,
    pub callback_gas: u64,
}

/// The opaque failure the runtime reports for a composite action: some
/// inner step failed, and the factory does not look further.
#[derive(Clone, Copy, Debug, PartialEq, Eq, Structural)]
pub struct PromiseError;

/// A directive to transfer value back to an account.
#[derive(Debug)]
pub struct Refund {
    pub to: AccountId,
    pub amount: u128,
}

/// The factory's long-lived state: the owner registry, the readiness flag,
/// and the injected configuration (binary payload and storage price).
pub struct Contract {
    pub programs: Registry,
    pub are_contracts_initialized: bool,
    pub ft_contract: Vec<u8>,
    pub storage_price_per_byte: u128,
}

/// A verified copy of a byte vector.
fn clone_bytes(v: &Vec<u8>) -> (r: Vec<u8>)
    ensures
        r@ == v@,
{
    let n: usize = v.len();
    let mut r: Vec<u8> = Vec::new();
    let mut i: usize = 0;
    while i < n
        invariant
            n == v@.len(),
            i <= n,
            r@.len() == i,
            forall|j: int| 0 <= j < i ==> r@[j] == v@[j],
        decreases n - i,
    {
        r.push(v[i]);
        i = i + 1;
    }
    proof {
        assert(r@ =~= v@);
    }
    r
}

impl Contract {
    /// The storage cost the attached value must cover: the ledger's per-byte
    /// price times the size of the binary payload.
    pub open spec fn minimum_needed(&self) -> int {
        self.storage_price_per_byte * self.ft_contract@.len()
    }

    /// The computed storage cost fits the currency type, and no owner holds
    /// two registry entries.
    pub open spec fn wf(&self) -> bool {
        &&& self.programs.wf()
        &&& self.minimum_needed() <= u128::MAX
    }

    /// A factory holding the injected binary payload and storage price, with
    /// an empty registry and the readiness flag down.
    pub fn new(ft_contract: Vec<u8>, storage_price_per_byte: u128) -> (c: Contract)
        requires
            storage_price_per_byte * ft_contract@.len() <= u128::MAX,
        ensures
            c.wf(),
            c.programs@ == Map::<Seq<char>, ProgramInfoView>::empty(),
            !c.are_contracts_initialized,
            c.ft_contract == ft_contract,
            c.storage_price_per_byte == storage_price_per_byte,
    {
        Contract {
            programs: Registry::new(),
            are_contracts_initialized: false,
            ft_contract,
            storage_price_per_byte,
        }
    }

    /// The orchestrator. Derives `{name}.{factory_id}` and rejects the call
    /// with `InvalidIdentifier` when that string violates the identifier
    /// syntax, or with `InsufficientDeposit` when the attached value is
    /// below the storage cost; both checks precede any state change or
    /// value movement, and the factory's state never changes here. When both
    /// checks pass, the returned request carries the composite action and
    /// the frozen callback arguments.
    pub fn create_factory_subaccount_and_deploy(
        &mut self,
        name: String,
        ft_owner_id: AccountId,
        token_name: String,
        token_symbol: String,
        token_total_supply: u128,
        public_key: Option<PublicKey>,
        factory_id: &AccountId,
        caller_id: AccountId,
        attached: u128,
    ) -> (r: Result<DeploymentRequest, FactoryError>)
        requires
            old(self).wf(),
        ensures
            *final(self) == *old(self),
            r is Ok <==> valid_account_id(child_id_seq(name@, factory_id@)) && attached
                >= old(self).minimum_needed(),
            !valid_account_id(child_id_seq(name@, factory_id@)) ==> r == Err::<
                DeploymentRequest,
                FactoryError,
            >(FactoryError::InvalidIdentifier),
            valid_account_id(child_id_seq(name@, factory_id@)) && attached < old(
                self,
            ).minimum_needed() ==> r == Err::<DeploymentRequest, FactoryError>(
                FactoryError::InsufficientDeposit,
            ),
            r is Ok ==> ({
                let req = r->Ok_0;
                &&& req.subaccount@ == child_id_seq(name@, factory_id@)
                &&& req.subaccount.wf()
                &&& req.attached == attached
                &&& req.code@ == old(self).ft_contract@
                &&& req.init_method@ == "new_fungible_token_pool"@
                &&& req.init_args.owner_id == ft_owner_id
                &&& req.init_args.name == token_name
                &&& req.init_args.symbol == token_symbol
                &&& req.init_args.total_supply == token_total_supply
                &&& req.init_deposit == NO_DEPOSIT
                &&& req.init_gas == 20 * TGAS
                &&& req.public_key == public_key
                &&& req.callback.account@ == child_id_seq(name@, factory_id@)
                &&& req.callback.user == caller_id
                &&& req.callback.attached == attached
                &&& req.callback_gas == 5 * TGAS
            }),
    {
        let subaccount = match make_child_account_id(name.as_str(), factory_id) {
            Ok(a) => a,
            Err(e) => {
                return Err(e);
            },
        };
        let contract_bytes: u128 = self.ft_contract.len() as u128;
        let minimum_needed: u128 = self.storage_price_per_byte * contract_bytes;
        if attached < minimum_needed {
            return Err(FactoryError::InsufficientDeposit);
        }
        let code = clone_bytes(&self.ft_contract);
        let callback_account = subaccount.clone();
        Ok(
            DeploymentRequest {
                subaccount,
                attached,
                code,
                init_method: "new_fungible_token_pool".to_owned(),
                init_args: FungibleTokenInitArgs {
                    owner_id: ft_owner_id,
                    name: token_name,
                    symbol: token_symbol,
                    total_supply: token_total_supply,
                },
                init_deposit: NO_DEPOSIT,
                init_gas: 20 * TGAS,
                public_key,
                callback: CallbackArgs { account: callback_account, user: caller_id, attached },
                callback_gas: 5 * TGAS,
            },
        )
    }

    /// The completion handler, to be driven only by the runtime's callback
    /// after the composite action settles. On a success outcome it raises
    /// the readiness flag, records the ownership entry for `user` (unless
    /// one exists: entries are written once), and reports `true` with no
    /// refund. On a failure outcome it changes nothing and reports `false`
    /// together with a directive to transfer exactly `attached` back to
    /// `user`. The two branches are exclusive and exhaustive.
    pub fn create_factory_subaccount_and_deploy_callback(
        &mut self,
        account: AccountId,
        user: AccountId,
        attached: u128,
        create_deploy_result: Result<(), PromiseError>,
    ) -> (r: (bool, Option<Refund>))
        requires
            old(self).wf(),
        ensures
            final(self).wf(),
            r.0 == (create_deploy_result is Ok),
            (r.1 is Some) == (create_deploy_result is Err),
            create_deploy_result is Ok ==> ({
                &&& final(self).are_contracts_initialized
                &&& final(self).programs@ == (if old(self).programs@.contains_key(user@) {
                    old(self).programs@
                } else {
                    old(self).programs@.insert(
                        user@,
                        (ProgramInfoView { ft: account@, manager: user@ }),
                    )
                })
                &&& final(self).ft_contract == old(self).ft_contract
                &&& final(self).storage_price_per_byte == old(self).storage_price_per_byte
            }),
            create_deploy_result is Err ==> ({
                &&& *final(self) == *old(self)
                &&& r.1->0.to == user
                &&& r.1->0.amount == attached
            }),
    {
        match create_deploy_result {
            Ok(_) => {
                self.are_contracts_initialized = true;
                let manager = user.clone();
                let info = ProgramInfo::new(account, manager);
                self.programs.record_program(user, info);
                (true, None)
            },
            Err(_) => (false, Some(Refund { to: user, amount: attached })),
        }
    }

    /// The owner's deployed-program metadata; `NotFound` exactly when the
    /// owner holds no registry entry.
    pub fn user_program(&self, account_id: &AccountId) -> (r: Result<ProgramInfo, FactoryError>)
        requires
            self.wf(),
        ensures
            r is Ok <==> self.programs@.contains_key(account_id@),
            r is Ok ==> r->Ok_0@ == self.programs@[account_id@],
            r is Err ==> r->Err_0 == FactoryError::NotFound,
    {
        match self.programs.get(account_id) {
            Some(program) => Ok(program.clone()),
            None => Err(FactoryError::NotFound),
        }
    }

    /// Whether the owner holds a registry entry. Total; never fails.
    pub fn user_has_program(&self, account_id: &AccountId) -> (b: bool)
        ensures
            b == self.programs@.contains_key(account_id@),
    {
        self.programs.contains(account_id)
    }

    /// Whether at least one deployment has completed successfully.
    pub fn is_initialized(&self) -> (b: bool)
        ensures
            b == self.are_contracts_initialized,
    {
        self.are_contracts_initialized
    }
}

impl Default for Contract {
    /// A factory with an empty payload, the standard storage price, an
    /// empty registry and the readiness flag down.
    fn default() -> (c: Self)
        ensures
            c.wf(),
            c.programs@ == Map::<Seq<char>, ProgramInfoView>::empty(),
            !c.are_contracts_initialized,
            c.ft_contract@ == Seq::<u8>::empty(),
            c.storage_price_per_byte == NEAR_PER_STORAGE,
    {
        Contract::new(Vec::new(), NEAR_PER_STORAGE)
    }
}

/// Reads are idempotent: two queries of `user_has_program` against the same
/// state answer alike, since each answer equals membership of the owner in
/// the registry's contents.
pub proof fn lemma_user_has_program_idempotent(
    c: Contract,
    owner: Seq<char>,
    first: bool,
    second: bool,
)
    requires
        first == c.programs@.contains_key(owner),
        second == c.programs@.contains_key(owner),
    ensures
        first == second,
{
}

} // verus!
