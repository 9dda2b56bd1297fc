//! The descriptor of a token, as the engine hands it to the mint service.

use crate::address::Address;
use vstd::prelude::*;

verus! {

/// Everything the mint service is told about a token.
#[derive(Clone, Debug, PartialEq, Eq)]
pub struct CreateMetadataArgs {
    pub metadata: Metadata,
    pub kind: String,
    pub metaplex: u8,
}

#[derive(Clone, Debug, PartialEq, Eq)]
pub struct Metadata {
    pub instruction: u8,
    pub data: Data,
    pub is_mutable: u8,
}

#[derive(Clone, Debug, PartialEq, Eq)]
pub struct Data {
    pub name: String,
    pub symbol: String,
    pub uri: String,
    pub seller_fee_basis_points: u16,
    pub creators: Option<Vec<Creator>>,
}

#[derive(Clone, Copy, Debug, PartialEq, Eq)]
pub struct Creator {
    pub address: Address,
    pub verified: bool,
    pub share: u8,
}

/// A descriptor, as plain text and numbers.
pub struct Descriptor {
    pub kind: Seq<char>,
    pub name: Seq<char>,
    pub symbol: Seq<char>,
    pub uri: Seq<char>,
    pub seller_fee_basis_points: u16,
    pub creators: Option<Seq<Creator>>,
    pub instruction: u8,
    pub is_mutable: u8,
    pub metaplex: u8,
}

impl View for CreateMetadataArgs {
    type V = Descriptor;

    open spec fn view(&self) -> Descriptor {
        Descriptor {
            kind: self.kind@,
            name: self.metadata.data.name@,
            symbol: self.metadata.data.symbol@,
            uri: self.metadata.data.uri@,
            seller_fee_basis_points: self.metadata.data.seller_fee_basis_points,
            creators: match self.metadata.data.creators {
                Some(creators) => Some(creators@),
                None => None,
            },
            instruction: self.metadata.instruction,
            is_mutable: self.metadata.is_mutable,
            metaplex: self.metaplex,
        }
    }
}

impl Descriptor {
    /// A descriptor without royalties or creators, for an immutable token.
    pub open spec fn plain(
        kind: Seq<char>,
        name: Seq<char>,
        symbol: Seq<char>,
        uri: Seq<char>,
        metaplex: u8,
    ) -> Descriptor {
        Descriptor {
            kind,
            name,
            symbol,
            uri,
            seller_fee_basis_points: 0,
            creators: None,
            instruction: 0,
            is_mutable: 0,
            metaplex,
        }
    }
}

impl CreateMetadataArgs {
    /// Builds a descriptor without royalties or creators, for an immutable
    /// token.
    pub fn plain(kind: String, name: String, symbol: String, uri: String, metaplex: u8) -> (args:
        CreateMetadataArgs)
        ensures
            args@ == Descriptor::plain(kind@, name@, symbol@, uri@, metaplex),
    {
        CreateMetadataArgs {
            metadata: Metadata {
                instruction: 0,
                data: Data { name, symbol, uri, seller_fee_basis_points: 0, creators: None },
                is_mutable: 0,
            },
            kind,
            metaplex,
        }
    }
}

} // verus!
