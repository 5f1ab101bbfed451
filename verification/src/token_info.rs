use crate::address::Address;
use vstd::prelude::*;

verus! {

/// A discovered token: immutable once created from its creation event.
#[derive(Debug)]
pub struct TokenInfo {
    pub mint: Address,
    pub name: String,
    pub symbol: String,
    pub creator: Address,
    pub uri: String,
    /// Derived bonding-curve address, fixed by the mint at construction.
    pub bonding_curve: Address,
    pub creation_signature: String,
    /// Unix time of discovery, in seconds.
    pub created_at: u64,
}

impl Clone for TokenInfo {
    /// Cloning keeps every field.
    fn clone(&self) -> (r: Self)
        ensures
            r == *self,
    {
        TokenInfo {
            mint: self.mint,
            name: self.name.clone(),
            symbol: self.symbol.clone(),
            creator: self.creator,
            uri: self.uri.clone(),
            bonding_curve: self.bonding_curve,
            creation_signature: self.creation_signature.clone(),
            created_at: self.created_at,
        }
    }
}

impl TokenInfo {
    /// Assemble a record for a newly discovered token; `created_at` is the
    /// caller's clock reading in Unix seconds.
    pub fn new(
        mint: Address,
        name: String,
        symbol: String,
        creator: Address,
        uri: String,
        bonding_curve: Address,
        creation_signature: String,
        created_at: u64,
    ) -> (r: TokenInfo)
        ensures
            r == (TokenInfo {
                mint,
                name,
                symbol,
                creator,
                uri,
                bonding_curve,
                creation_signature,
                created_at,
            }),
    {
        TokenInfo { mint, name, symbol, creator, uri, bonding_curve, creation_signature, created_at }
    }

    /// Age of the token at clock reading `now_unix`, in seconds; 0 when the
    /// clock reads earlier than the creation time.
    pub fn age_seconds(&self, now_unix: u64) -> (r: u64)
        ensures
            r == if now_unix >= self.created_at {
                now_unix - self.created_at
            } else {
                0
            },
    {
        if now_unix >= self.created_at {
            now_unix - self.created_at
        } else {
            0
        }
    }

    /// The token's name followed by its symbol in parentheses.
    pub fn display_name(&self) -> (r: String)
        ensures
            r@ == self.name@ + " ("@ + self.symbol@ + ")"@,
    {
        let mut r = self.name.clone();
        r.append(" (");
        r.append(self.symbol.as_str());
        r.append(")");
        r
    }
}

} // verus!
