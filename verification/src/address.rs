//! Capability addresses: addresses that nobody holds a private key for, and
//! that are authorized by deriving them again from their seeds.

use crate::error::{EngineError, ErrorKind};
use vstd::prelude::*;
use vstd::std_specs::cmp::PartialEqSpecImpl;
use vstd::utf8::encode_utf8;

verus! {

/// A ledger address: thirty-two opaque bytes.
#[derive(Clone, Copy, Debug, Eq, Hash)]
pub struct Address {
    pub bytes: [u8; 32],
}

impl PartialEq for Address {
    fn eq(&self, other: &Address) -> (same: bool) {
        let mut i: usize = 0;
        while i < 32
            invariant
                i <= 32,
                forall|j: int| 0 <= j < i ==> self.bytes[j] == other.bytes[j],
            decreases 32 - i,
        {
            if self.bytes[i] != other.bytes[i] {
                return false;
            }
            i += 1;
        }
        assert(self.bytes =~= other.bytes);
        true
    }
}

impl PartialEqSpecImpl for Address {
    open spec fn obeys_eq_spec() -> bool {
        true
    }

    open spec fn eq_spec(&self, other: &Address) -> bool {
        *self == *other
    }
}

impl View for Address {
    type V = Seq<u8>;

    open spec fn view(&self) -> Seq<u8> {
        self.bytes@
    }
}

impl Address {
    /// The address made of the given bytes.
    pub fn new(bytes: [u8; 32]) -> (address: Address)
        ensures
            address.bytes == bytes,
    {
        Address { bytes }
    }

    /// Two addresses with the same bytes are the same address.
    pub proof fn lemma_view_injective(a: Address, b: Address)
        ensures
            a@ == b@ <==> a == b,
    {
        if a@ == b@ {
            assert(a.bytes =~= b.bytes);
        }
    }
}

/// The seed tuple a capability address is derived from: a namespace, the
/// identity of the issuing program, and the identity that tells this address
/// apart from the others of its namespace.
pub struct Seeds<'a> {
    pub namespace: &'a str,
    pub issuer: Address,
    pub discriminant: Address,
}

/// What the ledger's address derivation yields for an ordered list of seeds
/// under an issuing program: the derived address and the nonce that was
/// appended to the seeds, or nothing where the seeds are not admissible or no
/// nonce gives a valid address.
pub uninterp spec fn program_address(seeds: Seq<Seq<u8>>, program: Seq<u8>) -> Option<(Seq<u8>, u8)>;

/// Calls `solana_program::pubkey::Pubkey::try_find_program_address` on the
/// three seeds, in this order, under `program`. The call is a pure function
/// of the seed bytes and the program's bytes; the contract only gives its
/// result a name.
#[verifier::external_body]
fn find_program_address(
    namespace: &[u8],
    first: &[u8; 32],
    second: &[u8; 32],
    program: &[u8; 32],
) -> (found: Option<([u8; 32], u8)>)
    ensures
        match found {
            Some((bytes, nonce)) => program_address(seq![namespace@, first@, second@], program@)
                == Some((bytes@, nonce)),
            None => program_address(seq![namespace@, first@, second@], program@) is None,
        },
{
    let issuer = solana_program::pubkey::Pubkey::new_from_array(*program);
    match solana_program::pubkey::Pubkey::try_find_program_address(
        &[namespace, first, second],
        &issuer,
    ) {
        Some((address, nonce)) => Some((address.to_bytes(), nonce)),
        None => None,
    }
}

/// The address and nonce that a namespace, an issuer and a discriminant
/// derive, if any: the seeds are the namespace's bytes, the issuer's and the
/// discriminant's, in this order, under the issuer as the program.
pub open spec fn derivation(namespace: Seq<char>, issuer: Address, discriminant: Address) -> Option<
    (Address, u8),
> {
    match program_address(seq![encode_utf8(namespace), issuer@, discriminant@], issuer@) {
        Some((bytes, nonce)) => Some((address_of(bytes), nonce)),
        None => None,
    }
}

impl<'a> Seeds<'a> {
    /// The address and nonce these seeds derive, if any.
    pub open spec fn derived(&self) -> Option<(Address, u8)> {
        derivation(self.namespace@, self.issuer, self.discriminant)
    }
}

/// The address whose bytes are `bytes`.
pub open spec fn address_of(bytes: Seq<u8>) -> Address {
    choose|a: Address| a@ == bytes
}

/// What the ledger shows an address as: the base-58 text of its bytes.
pub uninterp spec fn base58_text(bytes: Seq<u8>) -> Seq<char>;

/// Formats the `solana_program::pubkey::Pubkey` of these bytes with its
/// `Display`, which writes the base-58 encoding of the bytes. The text is a
/// pure function of the bytes; the contract only gives it a name.
#[verifier::external_body]
fn encode_base58(bytes: &[u8; 32]) -> (text: String)
    ensures
        text@ == base58_text(bytes@),
{
    solana_program::pubkey::Pubkey::new_from_array(*bytes).to_string()
}

impl Address {
    /// The address as text.
    pub fn to_text(&self) -> (text: String)
        ensures
            text@ == base58_text(self@),
    {
        encode_base58(&self.bytes)
    }
}

/// Derives the capability address of a seed tuple, with the nonce that was
/// found for it. Deterministic and free of side effects.
pub fn derive(seeds: &Seeds) -> (found: Option<(Address, u8)>)
    ensures
        found == seeds.derived(),
{
    let namespace = seeds.namespace.as_bytes();
    match find_program_address(
        namespace,
        &seeds.issuer.bytes,
        &seeds.discriminant.bytes,
        &seeds.issuer.bytes,
    ) {
        Some((bytes, nonce)) => {
            let address = Address { bytes };
            proof {
                Address::lemma_view_injective(address, address_of(bytes@));
            }
            Some((address, nonce))
        },
        None => None,
    }
}

/// What checking `candidate` against a derivation gives: the nonce where the
/// derivation exists and lands on `candidate`, an address mismatch otherwise.
pub open spec fn checked(candidate: Address, derived: Option<(Address, u8)>) -> Result<
    u8,
    EngineError,
> {
    match derived {
        Some((address, nonce)) if address == candidate => Ok(nonce),
        _ => Err(EngineError::mismatch(candidate)),
    }
}

/// Holds `candidate` against the outcome of a derivation.
pub fn check_derived(candidate: &Address, derived: Option<(Address, u8)>) -> (outcome: Result<
    u8,
    EngineError,
>)
    ensures
        outcome == checked(*candidate, derived),
{
    match derived {
        Some((address, nonce)) => {
            if address == *candidate {
                Ok(nonce)
            } else {
                Err(EngineError { kind: ErrorKind::AddressMismatch, address: *candidate })
            }
        },
        None => Err(EngineError { kind: ErrorKind::AddressMismatch, address: *candidate }),
    }
}

/// Derives the address of `seeds` again and holds `candidate` against it.
/// Fails with an address mismatch unless the two agree; on success returns
/// the nonce that co-signs for the address.
pub fn verify(candidate: &Address, seeds: &Seeds) -> (outcome: Result<u8, EngineError>)
    ensures
        outcome == checked(*candidate, seeds.derived()),
{
    check_derived(candidate, derive(seeds))
}

} // verus!
