//! The scheme of an asset, and the address under which the ledger keeps it.

use vstd::prelude::*;
use vstd::std_specs::convert::FromSpecImpl;

use crate::primitives::Address;
use crate::primitives::H256;
use crate::primitives::U256;

verus! {

/// The first byte of every address of an asset scheme: the letter `S`.
pub const PREFIX: u8 = 0x53;

/// How many bytes at the front of an address say what it is an address of:
/// the prefix, three bytes of zero, and four bytes for the world, all zero.
pub const TAG_LENGTH: usize = 8;

/// What an asset is: its description, the script that locks it, the
/// parameters of that script, how much of it is left, and who may transfer
/// it on behalf of others.
#[derive(Clone, Debug)]
pub struct AssetScheme {
    metadata: String,
    lock_script: H256,
    parameters: Vec<Vec<u8>>,
    remainder: U256,
    registrar: Option<Address>,
}

/// The mathematical value of an [`AssetScheme`].
pub struct AssetSchemeView {
    pub metadata: Seq<char>,
    pub lock_script: Seq<u8>,
    pub parameters: Seq<Seq<u8>>,
    pub remainder: nat,
    pub registrar: Option<Seq<u8>>,
}

impl View for AssetScheme {
    type V = AssetSchemeView;

    closed spec fn view(&self) -> AssetSchemeView {
        AssetSchemeView {
            metadata: self.metadata@,
            lock_script: self.lock_script@,
            parameters: self.parameters.deep_view(),
            remainder: self.remainder@,
            registrar: match self.registrar {
                Some(address) => Some(address@),
                None => None,
            },
        }
    }
}

impl AssetScheme {
    /// A scheme made of the given parts.
    pub fn new(
        metadata: String,
        lock_script: H256,
        parameters: Vec<Vec<u8>>,
        remainder: U256,
        registrar: Option<Address>,
    ) -> (scheme: Self)
        ensures
            scheme@ == (AssetSchemeView {
                metadata: metadata@,
                lock_script: lock_script@,
                parameters: parameters.deep_view(),
                remainder: remainder@,
                registrar: match registrar {
                    Some(address) => Some(address@),
                    None => None,
                },
            }),
    {
        AssetScheme { metadata, lock_script, parameters, remainder, registrar }
    }

    /// The description of the asset.
    pub fn metadata(&self) -> (metadata: &String)
        ensures
            metadata@ == self@.metadata,
    {
        &self.metadata
    }

    /// The hash of the script that locks the asset.
    pub fn lock_script(&self) -> (lock_script: &H256)
        ensures
            lock_script@ == self@.lock_script,
    {
        &self.lock_script
    }

    /// The parameters of the lock script.
    pub fn parameters(&self) -> (parameters: &Vec<Vec<u8>>)
        ensures
            parameters.deep_view() == self@.parameters,
    {
        &self.parameters
    }

    /// How much of the asset is left to be handed out.
    pub fn remainder(&self) -> (remainder: &U256)
        ensures
            remainder@ == self@.remainder,
    {
        &self.remainder
    }

    /// Who may transfer the asset on behalf of its owners, if anybody.
    pub fn registrar(&self) -> (registrar: &Option<Address>)
        ensures
            registrar is Some <==> self@.registrar is Some,
            registrar matches Some(address) ==> self@.registrar == Some(address@),
    {
        &self.registrar
    }

    /// Whether the asset has a registrar.
    pub fn is_permissioned(&self) -> (permissioned: bool)
        ensures
            permissioned == self@.registrar is Some,
    {
        self.registrar.is_some()
    }

    /// Takes over everything from `other` but the parameters of the lock
    /// script, which stay.
    pub fn overwrite_with(&mut self, other: Self)
        ensures
            final(self)@ == (AssetSchemeView { parameters: old(self)@.parameters, ..other@ }),
    {
        self.metadata = other.metadata;
        self.lock_script = other.lock_script;
        self.registrar = other.registrar;
        self.remainder = other.remainder;
    }

    /// Whether nothing of the asset is left, so that the ledger may forget
    /// the scheme.
    pub fn is_null(&self) -> (null: bool)
        ensures
            null == (self@.remainder == 0),
    {
        self.remainder.is_zero()
    }
}

/// The bytes of `hash` with the first [`TAG_LENGTH`] of them replaced by the
/// tag of an asset scheme.
pub open spec fn tagged(hash: Seq<u8>) -> Seq<u8> {
    Seq::new(
        hash.len(),
        |i: int|
            if i == 0 {
                PREFIX
            } else if i < TAG_LENGTH {
                0u8
            } else {
                hash[i]
            },
    )
}

/// Whether `hash` starts with the tag of an asset scheme.
pub open spec fn is_tagged(hash: Seq<u8>) -> bool {
    &&& hash.len() >= TAG_LENGTH
    &&& hash[0] == PREFIX
    &&& forall|i: int| 1 <= i < TAG_LENGTH ==> hash[i] == 0
}

/// The address under which the ledger keeps an asset scheme: a hash that
/// starts with the tag. Addresses are ordered as their hashes are.
#[derive(Clone, Copy, Debug, PartialEq, Eq, PartialOrd, Ord, Hash)]
pub struct AssetSchemeAddress(H256);

impl View for AssetSchemeAddress {
    type V = Seq<u8>;

    closed spec fn view(&self) -> Seq<u8> {
        self.0@
    }
}

impl AssetSchemeAddress {
    #[verifier::type_invariant]
    spec fn inv(self) -> bool {
        is_tagged(self.0@)
    }

    fn new(hash: H256) -> (address: Self)
        requires
            is_tagged(hash@),
        ensures
            address == AssetSchemeAddress(hash),
    {
        AssetSchemeAddress(hash)
    }

    /// The hash that the address is made of. It starts with the tag.
    pub fn hash(&self) -> (hash: &H256)
        ensures
            hash@ == self@,
            is_tagged(hash@),
    {
        proof {
            use_type_invariant(self);
        }
        &self.0
    }

    /// The 32 bytes of the address.
    pub fn as_bytes(&self) -> (bytes: &[u8; 32])
        ensures
            bytes@ == self@,
            is_tagged(bytes@),
    {
        proof {
            use_type_invariant(self);
        }
        self.0.as_bytes()
    }
}

impl From<H256> for AssetSchemeAddress {
    /// The address made of `hash`: its first eight bytes give way to the
    /// tag, the other twenty-four stay.
    fn from(hash: H256) -> (address: Self)
        ensures
            address@ == tagged(hash@),
    {
        let mut bytes = hash.0;
        bytes[0] = PREFIX;
        let mut i: usize = 1;
        while i < TAG_LENGTH
            invariant
                1 <= i <= TAG_LENGTH,
                bytes@.len() == 32,
                bytes@[0] == PREFIX,
                forall|j: int| 1 <= j < i ==> bytes@[j] == 0,
                forall|j: int| TAG_LENGTH <= j < 32 ==> bytes@[j] == hash@[j],
            decreases TAG_LENGTH - i,
        {
            bytes[i] = 0;
            i += 1;
        }
        assert(bytes@ =~= tagged(hash@));
        proof {
            let chosen = choose|chosen: [u8; 32]| chosen@ == tagged(hash@);
            assert(chosen@ == bytes@);
            assert(chosen =~= bytes);
        }
        AssetSchemeAddress::new(H256(bytes))
    }
}

impl FromSpecImpl<H256> for AssetSchemeAddress {
    open spec fn obeys_from_spec() -> bool {
        true
    }

    closed spec fn from_spec(hash: H256) -> AssetSchemeAddress {
        AssetSchemeAddress(H256(choose|bytes: [u8; 32]| bytes@ == tagged(hash@)))
    }
}

impl From<AssetSchemeAddress> for H256 {
    /// The hash that `address` is made of.
    fn from(address: AssetSchemeAddress) -> (hash: H256)
        ensures
            hash@ == address@,
            is_tagged(hash@),
    {
        proof {
            use_type_invariant(&address);
        }
        address.0
    }
}

impl FromSpecImpl<AssetSchemeAddress> for H256 {
    open spec fn obeys_from_spec() -> bool {
        true
    }

    closed spec fn from_spec(address: AssetSchemeAddress) -> H256 {
        address.0
    }
}

/// Making an address of a hash twice is making it once.
pub proof fn law_tagging_is_idempotent(hash: Seq<u8>)
    requires
        hash.len() == 32,
    ensures
        is_tagged(tagged(hash)),
        tagged(tagged(hash)) == tagged(hash),
        forall|i: int| TAG_LENGTH <= i < 32 ==> tagged(hash)[i] == hash[i],
{
    assert(tagged(tagged(hash)) =~= tagged(hash));
}

} // verus!
