//! The persistent record of one open escrow and its serialized layout.
use crate::pubkey::Pubkey;
use vstd::bytes::{spec_u64_from_le_bytes, spec_u64_to_le_bytes};
use vstd::prelude::*;

verus! {

/// The terms and custody pointers of one open escrow.
///
/// The deposited quantity is not recorded: the balance of the holding
/// account is the only source of truth for what moves on settlement.
#[derive(Clone, Copy, Debug, PartialEq, Eq)]
pub struct Escrow {
    /// The seller that opened the escrow; the only identity that may cancel.
    pub authority: Pubkey,
    /// The bump seed that reproduces the escrow's derived address.
    pub bump: u8,
    /// The holding account with the deposited asset.
    pub escrowed_x_tokens: Pubkey,
    /// The asset that the seller asks for in exchange.
    pub y_mint: Pubkey,
    /// The exact quantity of `y_mint` that settles the escrow.
    pub y_amount: u64,
}

/// The eight bytes that mark a serialized escrow entry.
pub const DISCRIMINATOR: [u8; 8] = [31, 213, 123, 187, 186, 22, 218, 155];

impl Escrow {
    /// The size in bytes of a serialized entry: the discriminator, the bump,
    /// three addresses and the quote amount.
    pub const LEN: usize = 8 + 1 + 32 + 32 + 32 + 8;

    /// The serialized form of an entry: the discriminator, then the fields in
    /// declaration order, the amount in little-endian order.
    pub open spec fn packed(self) -> Seq<u8> {
        DISCRIMINATOR@ + self.authority@ + seq![self.bump] + self.escrowed_x_tokens@
            + self.y_mint@ + spec_u64_to_le_bytes(self.y_amount)
    }

    /// The entry that a byte string holds: its first `LEN` bytes, where they
    /// start with the discriminator.
    pub open spec fn unpacked(data: Seq<u8>) -> Option<Escrow> {
        if data.len() >= Escrow::LEN && data.subrange(0, 8) == DISCRIMINATOR@ {
            Some(
                Escrow {
                    authority: Pubkey::from_seq(data.subrange(8, 40)),
                    bump: data[40],
                    escrowed_x_tokens: Pubkey::from_seq(data.subrange(41, 73)),
                    y_mint: Pubkey::from_seq(data.subrange(73, 105)),
                    y_amount: spec_u64_from_le_bytes(data.subrange(105, 113)),
                },
            )
        } else {
            None
        }
    }

    /// Serializes the entry.
    pub fn pack(&self) -> (data: Vec<u8>)
        ensures
            data@ == self.packed(),
            data.len() == Escrow::LEN,
    {
        let mut data: Vec<u8> = Vec::new();
        append(&mut data, vstd::array::array_as_slice(&DISCRIMINATOR));
        append(&mut data, vstd::array::array_as_slice(&self.authority.bytes));
        data.push(self.bump);
        append(&mut data, vstd::array::array_as_slice(&self.escrowed_x_tokens.bytes));
        append(&mut data, vstd::array::array_as_slice(&self.y_mint.bytes));
        let amount = vstd::bytes::u64_to_le_bytes(self.y_amount);
        append(&mut data, amount.as_slice());
        proof {
            assert(data@ =~= self.packed());
        }
        data
    }

    /// Reads an entry back from its serialized form. Bytes after the first
    /// `LEN` are ignored.
    pub fn unpack(data: &[u8]) -> (entry: Option<Escrow>)
        ensures
            entry == Escrow::unpacked(data@),
    {
        if data.len() < Escrow::LEN {
            return None;
        }
        let mut i: usize = 0;
        while i < 8
            invariant
                i <= 8,
                data@.len() >= 113,
                forall|j: int| 0 <= j < i ==> data@[j] == DISCRIMINATOR@[j],
            decreases 8 - i,
        {
            if data[i] != DISCRIMINATOR[i] {
                proof {
                    assert(data@.subrange(0, 8)[i as int] == data@[i as int]);
                }
                return None;
            }
            i += 1;
        }
        proof {
            assert(data@.subrange(0, 8) =~= DISCRIMINATOR@);
        }
        let authority = read_pubkey(data, 8);
        let bump = data[40];
        let escrowed_x_tokens = read_pubkey(data, 41);
        let y_mint = read_pubkey(data, 73);
        let y_amount = vstd::bytes::u64_from_le_bytes(vstd::slice::slice_subrange(data, 105, 113));
        Some(Escrow { authority, bump, escrowed_x_tokens, y_mint, y_amount })
    }
}

/// Appends the bytes of `part` to `data`.
fn append(data: &mut Vec<u8>, part: &[u8])
    ensures
        final(data)@ == old(data)@ + part@,
{
    let mut i: usize = 0;
    while i < part.len()
        invariant
            i <= part@.len(),
            data@ == old(data)@ + part@.subrange(0, i as int),
        decreases part@.len() - i,
    {
        data.push(part[i]);
        proof {
            assert(data@ =~= old(data)@ + part@.subrange(0, i + 1));
        }
        i += 1;
    }
    proof {
        assert(part@.subrange(0, i as int) =~= part@);
    }
}

/// Reads the address that starts at `offset`.
fn read_pubkey(data: &[u8], offset: usize) -> (key: Pubkey)
    requires
        offset + 32 <= data@.len(),
    ensures
        key == Pubkey::from_seq(data@.subrange(offset as int, offset + 32)),
{
    let mut bytes: [u8; 32] = [0u8; 32];
    let len = data.len();
    let mut i: usize = 0;
    while i < 32
        invariant
            i <= 32,
            offset + 32 <= len,
            len == data@.len(),
            forall|j: int| 0 <= j < i ==> bytes@[j] == data@[offset + j],
        decreases 32 - i,
    {
        bytes[i] = data[offset + i];
        i += 1;
    }
    let key = Pubkey { bytes };
    proof {
        assert(key@ =~= data@.subrange(offset as int, offset + 32));
        key.lemma_from_seq();
    }
    key
}

/// Reading a serialized entry gives the entry back.
pub proof fn lemma_unpack_packed(entry: Escrow)
    ensures
        entry.packed().len() == Escrow::LEN,
        Escrow::unpacked(entry.packed()) == Some(entry),
{
    vstd::bytes::lemma_auto_spec_u64_to_from_le_bytes();
    let data = entry.packed();
    assert(data.len() == 113);
    assert(data.subrange(0, 8) =~= DISCRIMINATOR@);
    assert(data.subrange(8, 40) =~= entry.authority@);
    assert(data.subrange(41, 73) =~= entry.escrowed_x_tokens@);
    assert(data.subrange(73, 105) =~= entry.y_mint@);
    assert(data.subrange(105, 113) =~= spec_u64_to_le_bytes(entry.y_amount));
    entry.authority.lemma_from_seq();
    entry.escrowed_x_tokens.lemma_from_seq();
    entry.y_mint.lemma_from_seq();
}

/// A byte string that holds an entry starts with that entry's serialized
/// form.
pub proof fn lemma_packed_unpack(data: Seq<u8>)
    requires
        Escrow::unpacked(data) is Some,
    ensures
        Escrow::unpacked(data)->Some_0.packed() == data.subrange(0, Escrow::LEN as int),
{
    vstd::bytes::lemma_auto_spec_u64_to_from_le_bytes();
    let entry = Escrow::unpacked(data)->Some_0;
    Pubkey::lemma_view_from_seq(data.subrange(8, 40));
    Pubkey::lemma_view_from_seq(data.subrange(41, 73));
    Pubkey::lemma_view_from_seq(data.subrange(73, 105));
    assert(spec_u64_to_le_bytes(entry.y_amount) == data.subrange(105, 113));
    assert(entry.packed() =~= data.subrange(0, 113));
}

} // verus!
