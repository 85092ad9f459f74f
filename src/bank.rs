use vstd::prelude::*;

use crate::cycles::{action_cost, consume_cycles, CyclesAction, CyclesError};
use crate::error::ProtocolError;
use crate::store::AssetStore;
use crate::types::{
    address_bytes, empty_hash, keccak256_of, Asset, AssetID, AssetView, Balance, ContractAddress,
    ContractType,
};

verus! {

/// The errors of the bank contract.
#[derive(Debug)]
pub enum NativeBankContractError {
    /// The derived identifier already names a registered asset.
    AssetExists { id: AssetID },
    /// No asset is registered under the identifier.
    NotFound { id: AssetID },
    /// The address is not that of an asset contract.
    InvalidAddress,
    /// A stored record did not decode.
    FixedCodec(rlp::DecoderError),
}

/// The cycle accounting of one invocation.
#[derive(Clone, Copy, Debug, PartialEq, Eq, Structural)]
pub struct InvokeContext {
    pub cycles_used: u64,
    pub cycles_price: u64,
    pub cycles_limit: u64,
}

/// The identifier of the asset that `address` manages on the chain
/// `chain_id`: the digest of the chain identifier's bytes followed by the
/// address's bytes.
pub open spec fn asset_id_of(chain_id: Seq<u8>, address: ContractAddress) -> Seq<u8> {
    keccak256_of(chain_id + address_bytes(address))
}

/// Derives the identifier of the asset that `address` manages on the chain
/// `chain_id`.
pub fn derive_asset_id(chain_id: &crate::types::Hash, address: &ContractAddress) -> (r: AssetID)
    ensures
        r@ == asset_id_of(chain_id@, *address),
{
    let mut data: Vec<u8> = Vec::new();
    let chain = chain_id.as_bytes();
    let mut i: usize = 0;
    while i < crate::types::HASH_LEN
        invariant
            i <= crate::types::HASH_LEN,
            chain@.len() == crate::types::HASH_LEN,
            chain@ == chain_id@,
            data@ =~= chain@.subrange(0, i as int),
        decreases crate::types::HASH_LEN - i,
    {
        data.push(chain[i]);
        i = i + 1;
    }
    let addr = address.as_bytes();
    let mut k: usize = 0;
    while k < addr.len()
        invariant
            k <= addr@.len(),
            addr@ == address_bytes(*address),
            data@ =~= chain_id@ + addr@.subrange(0, k as int),
        decreases addr@.len() - k,
    {
        data.push(addr[k]);
        k = k + 1;
    }
    assert(addr@.subrange(0, addr@.len() as int) =~= addr@);
    crate::types::Hash::digest(&data)
}

/// What `register` stores for an asset.
pub open spec fn registered_view(
    id: Seq<u8>,
    address: ContractAddress,
    name: Seq<char>,
    symbol: Seq<char>,
    supply: Balance,
) -> AssetView {
    AssetView { id, name, symbol, supply, manage_contract: address, storage_root: empty_hash() }
}

/// The registration and query center for assets: it derives a unique
/// identifier for each asset, stages the asset's record, and reads records
/// back by identifier.
pub struct NativeBankContract {
    chain_id: crate::types::Hash,
    state_adapter: AssetStore,
}

/// How `register` relates the contract and context before the call (`bank`,
/// `ctx`) to those after it (`bank2`, `ctx2`) and to its result `r`.
pub open spec fn register_outcome(
    bank: NativeBankContract,
    ctx: InvokeContext,
    address: ContractAddress,
    name: Seq<char>,
    symbol: Seq<char>,
    supply: Balance,
    bank2: NativeBankContract,
    ctx2: InvokeContext,
    r: Result<Asset, ProtocolError>,
) -> bool {
    let id = asset_id_of(bank.chain_id_view(), address);
    let cost = action_cost(CyclesAction::BankRegister, ctx.cycles_price);
    &&& bank2.chain_id_view() == bank.chain_id_view()
    &&& bank2.committed_records() == bank.committed_records()
    &&& ctx2.cycles_price == ctx.cycles_price
    &&& ctx2.cycles_limit == ctx.cycles_limit
    &&& if address.contract_type != ContractType::Asset {
        &&& r matches Err(ProtocolError::Executor(NativeBankContractError::InvalidAddress))
        &&& bank2.records() == bank.records()
        &&& ctx2 == ctx
    } else if bank.records().contains_key(id) {
        &&& r matches Err(ProtocolError::Executor(NativeBankContractError::AssetExists { id: e }))
            && e@ == id
        &&& bank2.records() == bank.records()
        &&& ctx2 == ctx
    } else {
        &&& bank2.records() == bank.records().insert(
            id,
            registered_view(id, address, name, symbol, supply),
        )
        &&& if ctx.cycles_used + cost <= ctx.cycles_limit {
            &&& r is Ok
            &&& r->Ok_0@ == registered_view(id, address, name, symbol, supply)
            &&& ctx2.cycles_used == ctx.cycles_used + cost
        } else {
            &&& r matches Err(ProtocolError::Cycles(CyclesError::OutOfCycles))
            &&& ctx2 == ctx
        }
    }
}

/// What `get_asset` returns for `id` from the records `records`.
pub open spec fn get_asset_outcome(
    records: Map<Seq<u8>, AssetView>,
    id: Seq<u8>,
    r: Result<Asset, ProtocolError>,
) -> bool {
    if records.contains_key(id) {
        r is Ok && r->Ok_0@ == records[id]
    } else {
        r matches Err(ProtocolError::Executor(NativeBankContractError::NotFound { id: e }))
            && e@ == id
    }
}

impl NativeBankContract {
    /// The bytes of the chain identifier.
    pub closed spec fn chain_id_view(&self) -> Seq<u8> {
        self.chain_id@
    }

    /// The records that this contract's session reads, staged ones included.
    pub closed spec fn records(&self) -> Map<Seq<u8>, AssetView> {
        self.state_adapter.view()
    }

    /// The committed records of this contract's store.
    pub closed spec fn committed_records(&self) -> Map<Seq<u8>, AssetView> {
        self.state_adapter.committed_view()
    }

    pub fn new(chain_id: crate::types::Hash, state_adapter: AssetStore) -> (r: Self)
        ensures
            r.chain_id_view() == chain_id@,
            r.records() == state_adapter.view(),
            r.committed_records() == state_adapter.committed_view(),
    {
        Self { chain_id, state_adapter }
    }

    pub fn chain_id(&self) -> (r: crate::types::Hash)
        ensures
            r@ == self.chain_id_view(),
    {
        self.chain_id
    }

    /// The store that this contract reads and stages into.
    pub fn state_adapter(&self) -> (r: &AssetStore)
        ensures
            r.view() == self.records(),
            r.committed_view() == self.committed_records(),
    {
        &self.state_adapter
    }

    /// Makes the staged records of the store committed ones.
    pub fn commit(&mut self)
        ensures
            final(self).chain_id_view() == old(self).chain_id_view(),
            final(self).records() == old(self).records(),
            final(self).committed_records() == old(self).records(),
    {
        self.state_adapter.commit();
    }

    /// Registers the asset that `address` manages. Its identifier is the
    /// digest of the chain identifier followed by the address. The record is
    /// staged in the store, which commits it only when `commit` runs; then the
    /// registration is charged to `ictx`. An address of another contract type
    /// is refused, and so is an identifier already present, with nothing
    /// staged or charged. Where the charge would pass the cycle limit, the call
    /// fails, nothing is charged, and the staged record stays.
    pub fn register(
        &mut self,
        ictx: &mut InvokeContext,
        address: &ContractAddress,
        name: String,
        symbol: String,
        supply: Balance,
    ) -> (r: Result<Asset, ProtocolError>)
        ensures
            register_outcome(
                *old(self),
                *old(ictx),
                *address,
                name@,
                symbol@,
                supply,
                *final(self),
                *final(ictx),
                r,
            ),
    {
        if address.contract_type() != ContractType::Asset {
            return Err(ProtocolError::Executor(NativeBankContractError::InvalidAddress));
        }
        let asset_id = derive_asset_id(&self.chain_id, address);
        if self.state_adapter.contains(&asset_id) {
            return Err(ProtocolError::Executor(NativeBankContractError::AssetExists { id: asset_id }));
        }
        let asset = Asset {
            name,
            symbol,
            supply,
            id: asset_id,
            manage_contract: *address,
            storage_root: crate::types::Hash::from_empty(),
        };
        self.state_adapter.insert_cache(asset.copied());
        let mut fee = ictx.cycles_used;
        match consume_cycles(CyclesAction::BankRegister, ictx.cycles_price, &mut fee, &ictx.cycles_limit) {
            Ok(()) => {},
            Err(e) => {
                return Err(ProtocolError::Cycles(e));
            },
        }
        ictx.cycles_used = fee;
        Ok(asset)
    }

    /// A copy of the record of `id` that this contract's session reads;
    /// `NotFound` where there is none. Nothing is charged or changed.
    pub fn get_asset(&self, _ictx: &InvokeContext, id: &AssetID) -> (r: Result<Asset, ProtocolError>)
        ensures
            get_asset_outcome(self.records(), id@, r),
    {
        match self.state_adapter.get(id) {
            Some(asset) => Ok(asset),
            None => Err(ProtocolError::Executor(NativeBankContractError::NotFound { id: *id })),
        }
    }
}

/// The identifier is determined by the chain identifier and the address:
/// two derivations from equal inputs give the same bytes.
pub proof fn lemma_asset_id_deterministic(
    chain_id: crate::types::Hash,
    address: ContractAddress,
    first: AssetID,
    second: AssetID,
)
    requires
        first@ == asset_id_of(chain_id@, address),
        second@ == asset_id_of(chain_id@, address),
    ensures
        first@ == second@,
{
}

/// After a successful registration, registering the same address again fails
/// with `AssetExists`, carrying the identifier of the first asset, and stages
/// nothing and charges nothing.
pub proof fn lemma_register_twice(
    bank: NativeBankContract,
    ctx: InvokeContext,
    address: ContractAddress,
    name: Seq<char>,
    symbol: Seq<char>,
    supply: Balance,
    bank1: NativeBankContract,
    ctx1: InvokeContext,
    r1: Result<Asset, ProtocolError>,
    name2: Seq<char>,
    symbol2: Seq<char>,
    supply2: Balance,
    bank2: NativeBankContract,
    ctx2: InvokeContext,
    r2: Result<Asset, ProtocolError>,
)
    requires
        register_outcome(bank, ctx, address, name, symbol, supply, bank1, ctx1, r1),
        r1 is Ok,
        register_outcome(bank1, ctx1, address, name2, symbol2, supply2, bank2, ctx2, r2),
    ensures
        r2 matches Err(ProtocolError::Executor(NativeBankContractError::AssetExists { id: e }))
            && e@ == r1->Ok_0.id@,
        bank2.records() == bank1.records(),
        ctx2 == ctx1,
{
}

/// After a successful registration, reading the new identifier returns the
/// record with the given name, symbol and supply, the managing address, and
/// the empty storage root.
pub proof fn lemma_register_then_get(
    bank: NativeBankContract,
    ctx: InvokeContext,
    address: ContractAddress,
    name: Seq<char>,
    symbol: Seq<char>,
    supply: Balance,
    bank1: NativeBankContract,
    ctx1: InvokeContext,
    r1: Result<Asset, ProtocolError>,
    id: AssetID,
    r2: Result<Asset, ProtocolError>,
)
    requires
        register_outcome(bank, ctx, address, name, symbol, supply, bank1, ctx1, r1),
        r1 is Ok,
        id@ == r1->Ok_0.id@,
        get_asset_outcome(bank1.records(), id@, r2),
    ensures
        r2 is Ok,
        r2->Ok_0.id@ == id@,
        r2->Ok_0.name@ == name,
        r2->Ok_0.symbol@ == symbol,
        r2->Ok_0.supply == supply,
        r2->Ok_0.manage_contract == address,
        r2->Ok_0.storage_root@ == empty_hash(),
{
}

/// A registration that is not committed is not seen by another session over
/// the same committed records: there the new identifier is not found.
pub proof fn lemma_staged_register_isolated(
    bank: NativeBankContract,
    ctx: InvokeContext,
    address: ContractAddress,
    name: Seq<char>,
    symbol: Seq<char>,
    supply: Balance,
    bank1: NativeBankContract,
    ctx1: InvokeContext,
    r1: Result<Asset, ProtocolError>,
    other: NativeBankContract,
    id: AssetID,
    r2: Result<Asset, ProtocolError>,
)
    requires
        register_outcome(bank, ctx, address, name, symbol, supply, bank1, ctx1, r1),
        r1 is Ok,
        id@ == r1->Ok_0.id@,
        other.records() == bank1.committed_records(),
        get_asset_outcome(other.records(), id@, r2),
    ensures
        r2 matches Err(ProtocolError::Executor(NativeBankContractError::NotFound { id: e }))
            && e@ == id@,
{
    bank.state_adapter.lemma_committed_keys_read();
}

} // verus!
