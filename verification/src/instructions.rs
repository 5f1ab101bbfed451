use crate::address::{spec_address_from_bytes, Address};
use crate::codec::{
    read_address, read_prefixed_string, spec_str_chars, spec_str_next, spec_str_ok,
};
use crate::constants::{
    buy_discriminator, create_discriminator, spec_buy_discriminator, spec_create_discriminator,
};
use crate::error::SniperError;
use vstd::bytes::{lemma_auto_spec_u32_to_from_le_bytes, spec_u32_to_le_bytes, spec_u64_to_le_bytes, u32_to_le_bytes, u64_to_le_bytes};
use vstd::prelude::*;
use vstd::slice::{slice_index_get, slice_to_vec};
use vstd::utf8::{encode_utf8, encode_utf8_decode_utf8, encode_utf8_valid_utf8};

verus! {

/// Payload of a buy instruction: expected token amount and the worst
/// acceptable cost in base units.
#[derive(Debug, Clone, Copy, PartialEq, Eq, Structural)]
pub struct BuyInstruction {
    pub amount: u64,
    pub max_sol_cost: u64,
}

/// Payload of a sell instruction: token amount and the least acceptable
/// base-unit output.
#[derive(Debug, Clone, Copy, PartialEq, Eq, Structural)]
pub struct SellInstruction {
    pub amount: u64,
    pub min_sol_output: u64,
}

/// Decoded token-creation instruction payload.
#[derive(Debug)]
pub struct CreateInstruction {
    pub name: String,
    pub symbol: String,
    pub uri: String,
    pub creator: Address,
}

/// Serialized buy payload: discriminator, then the two 8-byte
/// little-endian integers.
pub open spec fn spec_buy_payload(b: BuyInstruction) -> Seq<u8> {
    spec_buy_discriminator() + spec_u64_to_le_bytes(b.amount) + spec_u64_to_le_bytes(
        b.max_sol_cost,
    )
}

impl BuyInstruction {
    /// Leading 8 bytes identifying a buy instruction.
    pub fn discriminator() -> (r: [u8; 8])
        ensures
            r@ == spec_buy_discriminator(),
    {
        buy_discriminator()
    }

    /// Serialize the payload with its discriminator.
    pub fn data(&self) -> (r: Vec<u8>)
        ensures
            r@ == spec_buy_payload(*self),
            r@.len() == 24,
    {
        let disc = Self::discriminator();
        let mut r = slice_to_vec(disc.as_slice());
        let mut amount_bytes = u64_to_le_bytes(self.amount);
        let mut cost_bytes = u64_to_le_bytes(self.max_sol_cost);
        r.append(&mut amount_bytes);
        r.append(&mut cost_bytes);
        proof {
            vstd::bytes::lemma_auto_spec_u64_to_from_le_bytes();
        }
        r
    }
}

/// Serialized sell payload: the two 8-byte little-endian integers, with no
/// discriminator.
pub open spec fn spec_sell_payload(s: SellInstruction) -> Seq<u8> {
    spec_u64_to_le_bytes(s.amount) + spec_u64_to_le_bytes(s.min_sol_output)
}

impl SellInstruction {
    /// Serialize the payload fields.
    pub fn data(&self) -> (r: Vec<u8>)
        ensures
            r@ == spec_sell_payload(*self),
            r@.len() == 16,
    {
        let mut r = u64_to_le_bytes(self.amount);
        let mut out_bytes = u64_to_le_bytes(self.min_sol_output);
        r.append(&mut out_bytes);
        proof {
            vstd::bytes::lemma_auto_spec_u64_to_from_le_bytes();
        }
        r
    }
}

/// True when `data` is at least 8 bytes long and starts with the
/// token-creation discriminator.
pub fn has_create_discriminator(data: &[u8]) -> (r: bool)
    ensures
        r == (data@.len() >= 8 && data@.subrange(0, 8) == spec_create_discriminator()),
{
    if data.len() < 8 {
        return false;
    }
    let r = *slice_index_get(data, 0) == 24 && *slice_index_get(data, 1) == 30 && *slice_index_get(
        data,
        2,
    ) == 200 && *slice_index_get(data, 3) == 40 && *slice_index_get(data, 4) == 5
        && *slice_index_get(data, 5) == 28 && *slice_index_get(data, 6) == 7 && *slice_index_get(
        data,
        7,
    ) == 119;
    proof {
        if r {
            assert(data@.subrange(0, 8) =~= spec_create_discriminator());
        } else {
            if data@.subrange(0, 8) == spec_create_discriminator() {
                assert(data@[0] == spec_create_discriminator()[0]);
                assert(data@[1] == spec_create_discriminator()[1]);
                assert(data@[2] == spec_create_discriminator()[2]);
                assert(data@[3] == spec_create_discriminator()[3]);
                assert(data@[4] == spec_create_discriminator()[4]);
                assert(data@[5] == spec_create_discriminator()[5]);
                assert(data@[6] == spec_create_discriminator()[6]);
                assert(data@[7] == spec_create_discriminator()[7]);
            }
        }
    }
    r
}

/// Start of the name string inside a creation payload.
pub open spec fn spec_create_name_off(data: Seq<u8>) -> int {
    8
}

/// Start of the symbol string inside a creation payload.
pub open spec fn spec_create_symbol_off(data: Seq<u8>) -> int {
    spec_str_next(data, 8)
}

/// Start of the URI string inside a creation payload.
pub open spec fn spec_create_uri_off(data: Seq<u8>) -> int {
    spec_str_next(data, spec_create_symbol_off(data))
}

/// Start of the 32-byte creator address inside a creation payload.
pub open spec fn spec_create_creator_off(data: Seq<u8>) -> int {
    spec_str_next(data, spec_create_uri_off(data))
}

/// True when `data` is a complete, well-formed creation payload: the
/// discriminator, three length-prefixed UTF-8 strings and a 32-byte
/// creator address that together consume the payload exactly.
pub open spec fn spec_create_instr_ok(data: Seq<u8>) -> bool {
    &&& data.len() >= 8
    &&& data.subrange(0, 8) == spec_create_discriminator()
    &&& spec_str_ok(data, spec_create_name_off(data))
    &&& spec_str_ok(data, spec_create_symbol_off(data))
    &&& spec_str_ok(data, spec_create_uri_off(data))
    &&& data.len() == spec_create_creator_off(data) + 32
}

/// Serialized creation payload: the discriminator, each string as a
/// little-endian 32-bit byte count followed by its UTF-8 bytes, then the
/// creator's 32 bytes.
pub open spec fn spec_create_payload(c: CreateInstruction) -> Seq<u8> {
    let name_bytes = encode_utf8(c.name@);
    let symbol_bytes = encode_utf8(c.symbol@);
    let uri_bytes = encode_utf8(c.uri@);
    spec_create_discriminator() + spec_u32_to_le_bytes(name_bytes.len() as u32) + name_bytes
        + spec_u32_to_le_bytes(symbol_bytes.len() as u32) + symbol_bytes + spec_u32_to_le_bytes(
        uri_bytes.len() as u32,
    ) + uri_bytes + c.creator@
}

impl Clone for CreateInstruction {
    /// Cloning keeps every field.
    fn clone(&self) -> (r: Self)
        ensures
            r == *self,
    {
        CreateInstruction {
            name: self.name.clone(),
            symbol: self.symbol.clone(),
            uri: self.uri.clone(),
            creator: self.creator,
        }
    }
}

impl CreateInstruction {
    /// Leading 8 bytes identifying a creation instruction.
    pub fn discriminator() -> (r: [u8; 8])
        ensures
            r@ == spec_create_discriminator(),
    {
        create_discriminator()
    }

    /// Serialize the payload with its discriminator: each string as a
    /// little-endian 32-bit byte count followed by its UTF-8 bytes, then
    /// the creator's 32 bytes.
    pub fn data(&self) -> (r: Vec<u8>)
        requires
            encode_utf8(self.name@).len() <= u32::MAX,
            encode_utf8(self.symbol@).len() <= u32::MAX,
            encode_utf8(self.uri@).len() <= u32::MAX,
        ensures
            r@ == spec_create_payload(*self),
    {
        let disc = Self::discriminator();
        let mut r = slice_to_vec(disc.as_slice());
        let name_bytes = self.name.as_str().as_bytes();
        let mut len_bytes = u32_to_le_bytes(name_bytes.len() as u32);
        r.append(&mut len_bytes);
        let mut payload = slice_to_vec(name_bytes);
        r.append(&mut payload);
        let symbol_bytes = self.symbol.as_str().as_bytes();
        let mut len_bytes = u32_to_le_bytes(symbol_bytes.len() as u32);
        r.append(&mut len_bytes);
        let mut payload = slice_to_vec(symbol_bytes);
        r.append(&mut payload);
        let uri_bytes = self.uri.as_str().as_bytes();
        let mut len_bytes = u32_to_le_bytes(uri_bytes.len() as u32);
        r.append(&mut len_bytes);
        let mut payload = slice_to_vec(uri_bytes);
        r.append(&mut payload);
        let mut creator_bytes = self.creator.to_bytes();
        r.append(&mut creator_bytes);
        r
    }

    /// Parse a creation payload. Succeeds exactly on a well-formed payload
    /// and returns its decoded fields.
    pub fn from_bytes(data: &[u8]) -> (r: Result<CreateInstruction, SniperError>)
        ensures
            spec_create_instr_ok(data@) ==> (r matches Ok(c) && {
                &&& c.name@ == spec_str_chars(data@, spec_create_name_off(data@))
                &&& c.symbol@ == spec_str_chars(data@, spec_create_symbol_off(data@))
                &&& c.uri@ == spec_str_chars(data@, spec_create_uri_off(data@))
                &&& c.creator == spec_address_from_bytes(
                    data@.subrange(spec_create_creator_off(data@), data@.len() as int),
                )
            }),
            !spec_create_instr_ok(data@) ==> (r matches Err(e) && e is SerializationError),
    {
        if !has_create_discriminator(data) {
            return Err(
                SniperError::SerializationError(
                    String::from_str("creation payload is short or mistagged"),
                ),
            );
        }
        let (name, symbol_off) = match read_prefixed_string(data, 8) {
            Some(p) => p,
            None => {
                return Err(
                    SniperError::SerializationError(String::from_str("bad name field")),
                );
            },
        };
        let (symbol, uri_off) = match read_prefixed_string(data, symbol_off) {
            Some(p) => p,
            None => {
                return Err(
                    SniperError::SerializationError(String::from_str("bad symbol field")),
                );
            },
        };
        let (uri, creator_off) = match read_prefixed_string(data, uri_off) {
            Some(p) => p,
            None => {
                return Err(
                    SniperError::SerializationError(String::from_str("bad uri field")),
                );
            },
        };
        if data.len() - creator_off != 32 {
            return Err(
                SniperError::SerializationError(
                    String::from_str("creation payload has a wrong trailing length"),
                ),
            );
        }
        let creator = read_address(data, creator_off);
        Ok(CreateInstruction { name, symbol, uri, creator })
    }
}


/// Serializer and parser agree: a serialized creation payload is
/// well-formed, and parsing it recovers exactly the name, symbol, URI
/// and creator it was built from.
pub proof fn lemma_create_payload_round_trip(c: CreateInstruction)
    requires
        encode_utf8(c.name@).len() <= u32::MAX,
        encode_utf8(c.symbol@).len() <= u32::MAX,
        encode_utf8(c.uri@).len() <= u32::MAX,
    ensures
        spec_create_instr_ok(spec_create_payload(c)),
        spec_str_chars(spec_create_payload(c), spec_create_name_off(spec_create_payload(c)))
            == c.name@,
        spec_str_chars(spec_create_payload(c), spec_create_symbol_off(spec_create_payload(c)))
            == c.symbol@,
        spec_str_chars(spec_create_payload(c), spec_create_uri_off(spec_create_payload(c)))
            == c.uri@,
        spec_address_from_bytes(
            spec_create_payload(c).subrange(
                spec_create_creator_off(spec_create_payload(c)),
                spec_create_payload(c).len() as int,
            ),
        ) == c.creator,
{
    let p = spec_create_payload(c);
    let name_bytes = encode_utf8(c.name@);
    let symbol_bytes = encode_utf8(c.symbol@);
    let uri_bytes = encode_utf8(c.uri@);
    let nl = name_bytes.len() as int;
    let sl = symbol_bytes.len() as int;
    let ul = uri_bytes.len() as int;
    lemma_auto_spec_u32_to_from_le_bytes();
    c.creator.lemma_view_len();
    assert(p.len() == 8 + 4 + nl + 4 + sl + 4 + ul + 32);
    assert(p.subrange(0, 8) =~= spec_create_discriminator());

    assert(p.subrange(8, 12) =~= spec_u32_to_le_bytes(nl as u32));
    assert(crate::codec::spec_str_len(p, 8) == nl);
    assert(p.subrange(12, 12 + nl) =~= name_bytes);
    encode_utf8_valid_utf8(c.name@);
    encode_utf8_decode_utf8(c.name@);
    assert(spec_str_ok(p, 8));
    assert(spec_create_symbol_off(p) == 12 + nl);

    let so = 12 + nl;
    assert(p.subrange(so, so + 4) =~= spec_u32_to_le_bytes(sl as u32));
    assert(crate::codec::spec_str_len(p, so) == sl);
    assert(p.subrange(so + 4, so + 4 + sl) =~= symbol_bytes);
    encode_utf8_valid_utf8(c.symbol@);
    encode_utf8_decode_utf8(c.symbol@);
    assert(spec_str_ok(p, so));
    assert(spec_create_uri_off(p) == so + 4 + sl);

    let uo = so + 4 + sl;
    assert(p.subrange(uo, uo + 4) =~= spec_u32_to_le_bytes(ul as u32));
    assert(crate::codec::spec_str_len(p, uo) == ul);
    assert(p.subrange(uo + 4, uo + 4 + ul) =~= uri_bytes);
    encode_utf8_valid_utf8(c.uri@);
    encode_utf8_decode_utf8(c.uri@);
    assert(spec_str_ok(p, uo));
    assert(spec_create_creator_off(p) == uo + 4 + ul);

    let co = uo + 4 + ul;
    assert(p.subrange(co, p.len() as int) =~= c.creator@);
    crate::address::lemma_address_from_bytes_view(c.creator@);
    crate::address::lemma_address_view_injective(
        spec_address_from_bytes(c.creator@),
        c.creator,
    );
}

} // verus!
