//! Account addresses and the derivation of program-controlled addresses.
use vstd::prelude::*;

verus! {

/// The address of an account: thirty-two opaque bytes.
#[derive(Clone, Copy, Debug, Eq)]
pub struct Pubkey {
    pub bytes: [u8; 32],
}

impl View for Pubkey {
    type V = Seq<u8>;

    open spec fn view(&self) -> Seq<u8> {
        self.bytes@
    }
}

impl PartialEq for Pubkey {
    fn eq(&self, other: &Pubkey) -> (r: bool) {
        let mut i: usize = 0;
        while i < 32
            invariant
                i <= 32,
                forall|j: int| 0 <= j < i ==> self.bytes@[j] == other.bytes@[j],
            decreases 32 - i,
        {
            if self.bytes[i] != other.bytes[i] {
                return false;
            }
            i += 1;
        }
        proof {
            assert(self.bytes =~= other.bytes);
        }
        true
    }
}

impl vstd::std_specs::cmp::PartialEqSpecImpl for Pubkey {
    open spec fn obeys_eq_spec() -> bool {
        true
    }

    open spec fn eq_spec(&self, other: &Pubkey) -> bool {
        *self == *other
    }
}

impl Pubkey {
    /// The address made of the given bytes.
    pub fn new_from_array(bytes: [u8; 32]) -> (key: Pubkey)
        ensures
            key.bytes == bytes,
    {
        Pubkey { bytes }
    }

    /// The bytes of the address.
    pub fn to_bytes(&self) -> (bytes: [u8; 32])
        ensures
            bytes == self.bytes,
    {
        self.bytes
    }

    /// The address whose bytes are the first thirty-two of `b`.
    pub open spec fn from_seq(b: Seq<u8>) -> Pubkey {
        Pubkey {
            bytes: [
                b[0], b[1], b[2], b[3], b[4], b[5], b[6], b[7],
                b[8], b[9], b[10], b[11], b[12], b[13], b[14], b[15],
                b[16], b[17], b[18], b[19], b[20], b[21], b[22], b[23],
                b[24], b[25], b[26], b[27], b[28], b[29], b[30], b[31],
            ],
        }
    }

    /// An address is determined by its bytes.
    pub proof fn lemma_from_seq(self)
        ensures
            Pubkey::from_seq(self@) == self,
    {
        assert(Pubkey::from_seq(self@).bytes =~= self.bytes);
    }

    /// Every sequence of thirty-two bytes is the bytes of an address.
    pub proof fn lemma_view_from_seq(b: Seq<u8>)
        requires
            b.len() == 32,
        ensures
            Pubkey::from_seq(b)@ == b,
    {
        assert(Pubkey::from_seq(b)@ =~= b);
    }
}

/// The identity under which this escrow program is deployed.
pub fn id() -> (key: Pubkey)
    ensures
        key == program_id(),
{
    Pubkey { bytes: ID_BYTES }
}

/// The bytes of the program's identity.
pub const ID_BYTES: [u8; 32] = [
    210, 56, 193, 149, 81, 168, 48, 62, 183, 59, 166, 138, 61, 237, 151, 115,
    99, 120, 247, 226, 90, 166, 71, 156, 180, 60, 245, 121, 0, 131, 86, 141,
];

/// The program's identity, for use in contracts.
pub open spec fn program_id() -> Pubkey {
    Pubkey { bytes: ID_BYTES }
}

/// What `Pubkey::create_program_address` of the ledger's SDK returns for the
/// given seeds and program identity: the derived address, or nothing where
/// the seeds are refused.
pub uninterp spec fn program_address(seeds: Seq<Seq<u8>>, program_id: Seq<u8>) -> Option<Seq<u8>>;

/// What `Pubkey::try_find_program_address` of the ledger's SDK returns for
/// the given seeds and program identity: an address with the bump seed that
/// yields it, or nothing where no bump seed does.
pub uninterp spec fn found_program_address(seeds: Seq<Seq<u8>>, program_id: Seq<u8>) -> Option<
    (Seq<u8>, u8),
>;

/// A list of seeds as a sequence of byte sequences.
pub open spec fn seeds_view(seeds: Seq<Vec<u8>>) -> Seq<Seq<u8>> {
    Seq::new(seeds.len(), |i: int| seeds[i]@)
}

/// An optional address by its bytes.
pub open spec fn address_view(address: Option<Pubkey>) -> Option<Seq<u8>> {
    match address {
        Some(key) => Some(key@),
        None => None,
    }
}

/// An optional address and bump seed, the address by its bytes.
pub open spec fn found_view(found: Option<(Pubkey, u8)>) -> Option<(Seq<u8>, u8)> {
    match found {
        Some((key, bump)) => Some((key@, bump)),
        None => None,
    }
}

/// Calls `anchor_lang::prelude::Pubkey::create_program_address`.
///
/// Trusted: the result is a function of the seeds and the program identity
/// alone, named `program_address`; any error of the call is reported as
/// `None`.
#[verifier::external_body]
fn create_program_address(seeds: &Vec<Vec<u8>>, program_id: &Pubkey) -> (address: Option<Pubkey>)
    ensures
        address_view(address) == program_address(seeds_view(seeds@), program_id@),
{
    let parts: Vec<&[u8]> = seeds.iter().map(|seed| seed.as_slice()).collect();
    let id = anchor_lang::prelude::Pubkey::new_from_array(program_id.bytes);
    match anchor_lang::prelude::Pubkey::create_program_address(&parts, &id) {
        Ok(key) => Some(Pubkey { bytes: key.to_bytes() }),
        Err(_) => None,
    }
}

/// Calls `anchor_lang::prelude::Pubkey::try_find_program_address`.
///
/// Trusted: the result is a function of the seeds and the program identity
/// alone, named `found_program_address`; and an address that is found is the
/// one that `create_program_address` derives from the same seeds followed by
/// the one-byte seed holding the bump.
#[verifier::external_body]
fn try_find_program_address(seeds: &Vec<Vec<u8>>, program_id: &Pubkey) -> (found: Option<
    (Pubkey, u8),
>)
    ensures
        found_view(found) == found_program_address(seeds_view(seeds@), program_id@),
        found matches Some((key, bump)) ==> program_address(
            seeds_view(seeds@).push(seq![bump]),
            program_id@,
        ) == Some(key@),
{
    let parts: Vec<&[u8]> = seeds.iter().map(|seed| seed.as_slice()).collect();
    let id = anchor_lang::prelude::Pubkey::new_from_array(program_id.bytes);
    match anchor_lang::prelude::Pubkey::try_find_program_address(&parts, &id) {
        Some((key, bump)) => Some((Pubkey { bytes: key.to_bytes() }, bump)),
        None => None,
    }
}

/// The fixed domain tag under which escrow addresses are derived: the bytes
/// of the word "escrow".
pub open spec fn escrow_tag() -> Seq<u8> {
    seq![101u8, 115u8, 99u8, 114u8, 111u8, 119u8]
}

/// The seeds from which a seller's escrow address is searched: the domain
/// tag, then the seller's identity.
pub open spec fn entry_seeds(authority: Pubkey) -> Seq<Seq<u8>> {
    seq![escrow_tag(), authority@]
}

/// The seeds that reproduce an escrow address: the search seeds, then the
/// stored bump as a seed of one byte.
pub open spec fn signer_seeds(authority: Pubkey, bump: u8) -> Seq<Seq<u8>> {
    entry_seeds(authority).push(seq![bump])
}

/// The address and bump seed of the escrow of `authority` under
/// `program_id`, where the search finds one that the derivation reproduces.
pub open spec fn escrow_key(authority: Pubkey, program_id: Pubkey) -> Option<(Pubkey, u8)> {
    match found_program_address(entry_seeds(authority), program_id@) {
        Some((bytes, bump)) => if bytes.len() == 32 && program_address(
            signer_seeds(authority, bump),
            program_id@,
        ) == Some(bytes) {
            Some((Pubkey::from_seq(bytes), bump))
        } else {
            None
        },
        None => None,
    }
}

/// The address that `authority` and `bump` derive under `program_id`: the
/// identity that signs for the escrow's holding account.
pub open spec fn escrow_signer(authority: Pubkey, bump: u8, program_id: Pubkey) -> Option<
    Pubkey,
> {
    match program_address(signer_seeds(authority, bump), program_id@) {
        Some(bytes) => if bytes.len() == 32 {
            Some(Pubkey::from_seq(bytes))
        } else {
            None
        },
        None => None,
    }
}

/// The derivation reproduces every address that the search finds.
pub proof fn lemma_found_key_signs(authority: Pubkey, program_id: Pubkey)
    ensures
        escrow_key(authority, program_id) matches Some((key, bump)) ==> escrow_signer(
            authority,
            bump,
            program_id,
        ) == Some(key),
{
}

fn tag_bytes() -> (tag: Vec<u8>)
    ensures
        tag@ == escrow_tag(),
{
    let mut tag: Vec<u8> = Vec::new();
    tag.push(101u8);
    tag.push(115u8);
    tag.push(99u8);
    tag.push(114u8);
    tag.push(111u8);
    tag.push(119u8);
    assert(tag@ =~= escrow_tag());
    tag
}

/// Builds the seeds from which the escrow address of `authority` is searched.
pub fn escrow_seeds(authority: &Pubkey) -> (seeds: Vec<Vec<u8>>)
    ensures
        seeds_view(seeds@) == entry_seeds(*authority),
{
    let mut seeds: Vec<Vec<u8>> = Vec::new();
    seeds.push(tag_bytes());
    seeds.push(vstd::slice::slice_to_vec(vstd::array::array_as_slice(&authority.bytes)));
    assert(seeds_view(seeds@) =~= entry_seeds(*authority));
    seeds
}

/// Builds the seeds with which the escrow of `authority` signs, given the
/// stored bump.
pub fn escrow_signer_seeds(authority: &Pubkey, bump: u8) -> (seeds: Vec<Vec<u8>>)
    ensures
        seeds_view(seeds@) == signer_seeds(*authority, bump),
{
    let mut seeds = escrow_seeds(authority);
    let mut last: Vec<u8> = Vec::new();
    last.push(bump);
    assert(last@ =~= seq![bump]);
    seeds.push(last);
    assert(seeds_view(seeds@) =~= signer_seeds(*authority, bump));
    seeds
}

/// Searches the address of the escrow of `authority` under `program_id`,
/// and the bump seed that yields it.
pub fn find_escrow_address(authority: &Pubkey, program_id: &Pubkey) -> (found: Option<
    (Pubkey, u8),
>)
    ensures
        found == escrow_key(*authority, *program_id),
{
    let seeds = escrow_seeds(authority);
    let found = try_find_program_address(&seeds, program_id);
    proof {
        if let Some((key, bump)) = found {
            key.lemma_from_seq();
        }
    }
    found
}

/// Derives the address for which the escrow of `authority` signs with the
/// stored `bump`, or nothing where the seeds yield no valid address.
pub fn escrow_address(authority: &Pubkey, bump: u8, program_id: &Pubkey) -> (address: Option<
    Pubkey,
>)
    ensures
        address == escrow_signer(*authority, bump, *program_id),
{
    let seeds = escrow_signer_seeds(authority, bump);
    let address = create_program_address(&seeds, program_id);
    proof {
        if let Some(key) = address {
            key.lemma_from_seq();
        }
    }
    address
}

} // verus!
