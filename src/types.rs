use vstd::prelude::*;

verus! {

/// Length in bytes of a hash.
pub const HASH_LEN: usize = 32;

/// The byte that the empty RLP string encodes to; the empty hash is its digest.
pub const NULL_RLP_BYTE: u8 = 0x80;

/// The Keccak-256 digest of a byte string.
pub uninterp spec fn keccak256_of(data: Seq<u8>) -> Seq<u8>;

/// Relies on tiny_keccak's `Keccak::v256`, `Hasher::update` and
/// `Hasher::finalize`: the 32-byte Keccak-256 digest of `data`, which depends
/// on the bytes alone.
#[verifier::external_body]
fn keccak256(data: &Vec<u8>) -> (r: [u8; 32])
    ensures
        r@ == keccak256_of(data@),
{
    let mut hasher = tiny_keccak::Keccak::v256();
    tiny_keccak::Hasher::update(&mut hasher, data.as_slice());
    let mut out = [0u8; 32];
    tiny_keccak::Hasher::finalize(hasher, &mut out);
    out
}

/// The hash that marks an empty sub-state: the digest of the empty RLP string.
pub open spec fn empty_hash() -> Seq<u8> {
    keccak256_of(seq![NULL_RLP_BYTE])
}

/// A 32-byte hash value.
#[derive(Clone, Copy, Debug)]
pub struct Hash {
    pub bytes: [u8; 32],
}

impl View for Hash {
    type V = Seq<u8>;

    open spec fn view(&self) -> Seq<u8> {
        self.bytes@
    }
}

impl Hash {
    pub fn from_bytes(bytes: [u8; 32]) -> (r: Hash)
        ensures
            r@ == bytes@,
    {
        Hash { bytes }
    }

    pub fn as_bytes(&self) -> (r: [u8; 32])
        ensures
            r@ == self@,
    {
        self.bytes
    }

    /// The digest of `data`.
    pub fn digest(data: &Vec<u8>) -> (r: Hash)
        ensures
            r@ == keccak256_of(data@),
    {
        Hash { bytes: keccak256(data) }
    }

    /// The canonical empty hash.
    pub fn from_empty() -> (r: Hash)
        ensures
            r@ == empty_hash(),
    {
        let data: Vec<u8> = vec![NULL_RLP_BYTE];
        assert(data@ =~= seq![NULL_RLP_BYTE]);
        Hash::digest(&data)
    }

    /// Whether the two hashes hold the same bytes.
    pub fn same_as(&self, other: &Hash) -> (r: bool)
        ensures
            r == (self@ == other@),
    {
        let mut i: usize = 0;
        while i < HASH_LEN
            invariant
                0 <= i <= HASH_LEN,
                self@.len() == HASH_LEN,
                other@.len() == HASH_LEN,
                forall|j: int| 0 <= j < i ==> self@[j] == other@[j],
            decreases HASH_LEN - i,
        {
            if self.bytes[i] != other.bytes[i] {
                return false;
            }
            i = i + 1;
        }
        assert(self@ =~= other@);
        true
    }
}

impl PartialEq for Hash {
    fn eq(&self, other: &Hash) -> (r: bool) {
        self.same_as(other)
    }
}

impl vstd::std_specs::cmp::PartialEqSpecImpl for Hash {
    open spec fn obeys_eq_spec() -> bool {
        true
    }

    open spec fn eq_spec(&self, other: &Hash) -> bool {
        self@ == other@
    }
}

impl Eq for Hash {}

/// The identifier of an asset.
pub type AssetID = Hash;

/// An arbitrary balance of an asset.
pub type Balance = u128;

/// The kind of contract that an address names.
#[derive(Clone, Copy, Debug, PartialEq, Eq, Structural)]
pub enum ContractType {
    Asset,
    App,
    Library,
    Native,
}

/// The byte that leads an address of the given contract type.
pub open spec fn contract_type_tag(t: ContractType) -> u8 {
    match t {
        ContractType::Asset => 0x21u8,
        ContractType::App => 0x22u8,
        ContractType::Library => 0x23u8,
        ContractType::Native => 0x24u8,
    }
}

impl ContractType {
    pub fn tag(&self) -> (r: u8)
        ensures
            r == contract_type_tag(*self),
    {
        match self {
            ContractType::Asset => 0x21u8,
            ContractType::App => 0x22u8,
            ContractType::Library => 0x23u8,
            ContractType::Native => 0x24u8,
        }
    }
}

/// Length in bytes of the part of an address that follows its type tag.
pub const ADDRESS_BODY_LEN: usize = 20;

/// The address of a contract: its type and a 20-byte body.
#[derive(Clone, Copy, Debug, PartialEq, Eq)]
pub struct ContractAddress {
    pub contract_type: ContractType,
    pub body: [u8; 20],
}

/// The raw bytes of an address: its type tag, then its body.
pub open spec fn address_bytes(a: ContractAddress) -> Seq<u8> {
    seq![contract_type_tag(a.contract_type)] + a.body@
}

impl ContractAddress {
    pub fn new(contract_type: ContractType, body: [u8; 20]) -> (r: ContractAddress)
        ensures
            r.contract_type == contract_type,
            r.body == body,
    {
        ContractAddress { contract_type, body }
    }

    pub fn contract_type(&self) -> (r: ContractType)
        ensures
            r == self.contract_type,
    {
        self.contract_type
    }

    /// The raw bytes of the address.
    pub fn as_bytes(&self) -> (r: Vec<u8>)
        ensures
            r@ == address_bytes(*self),
    {
        let mut out: Vec<u8> = Vec::new();
        out.push(self.contract_type.tag());
        let mut i: usize = 0;
        while i < ADDRESS_BODY_LEN
            invariant
                0 <= i <= ADDRESS_BODY_LEN,
                self.body@.len() == ADDRESS_BODY_LEN,
                out@ =~= seq![contract_type_tag(self.contract_type)] + self.body@.subrange(0, i as int),
            decreases ADDRESS_BODY_LEN - i,
        {
            out.push(self.body[i]);
            i = i + 1;
        }
        assert(self.body@.subrange(0, ADDRESS_BODY_LEN as int) =~= self.body@);
        out
    }
}

/// What a stored asset record holds, as mathematical values.
pub struct AssetView {
    pub id: Seq<u8>,
    pub name: Seq<char>,
    pub symbol: Seq<char>,
    pub supply: Balance,
    pub manage_contract: ContractAddress,
    pub storage_root: Seq<u8>,
}

/// The persisted record of an asset.
#[derive(Clone, Debug)]
pub struct Asset {
    pub id: AssetID,
    pub name: String,
    pub symbol: String,
    pub supply: Balance,
    pub manage_contract: ContractAddress,
    pub storage_root: Hash,
}

impl View for Asset {
    type V = AssetView;

    open spec fn view(&self) -> AssetView {
        AssetView {
            id: self.id@,
            name: self.name@,
            symbol: self.symbol@,
            supply: self.supply,
            manage_contract: self.manage_contract,
            storage_root: self.storage_root@,
        }
    }
}

impl Asset {
    /// A copy of the record.
    pub fn copied(&self) -> (r: Asset)
        ensures
            r@ == self@,
    {
        Asset {
            id: self.id,
            name: self.name.clone(),
            symbol: self.symbol.clone(),
            supply: self.supply,
            manage_contract: self.manage_contract,
            storage_root: self.storage_root,
        }
    }
}

} // verus!
