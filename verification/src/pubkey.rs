//! Account addresses and their derivation from seeds.

use vstd::prelude::*;
use vstd::bytes::{spec_u64_to_le_bytes, u64_to_le_bytes};
use vstd::slice::slice_to_vec;
use vstd::string::StringSliceAdditionalSpecFns;
use crate::error::ErrorCode;

verus! {

/// The address of an account or the identity of a signer: 32 bytes.
#[derive(Clone, Copy, Debug, Hash)]
pub struct Pubkey {
    pub bytes: [u8; 32],
}

impl View for Pubkey {
    type V = Seq<u8>;

    open spec fn view(&self) -> Seq<u8> {
        self.bytes@
    }
}

impl PartialEq for Pubkey {
    fn eq(&self, other: &Pubkey) -> (r: bool) {
        self.same(other)
    }
}

impl Eq for Pubkey {
}

impl vstd::std_specs::cmp::PartialEqSpecImpl for Pubkey {
    open spec fn obeys_eq_spec() -> bool {
        true
    }

    open spec fn eq_spec(&self, other: &Pubkey) -> bool {
        *self == *other
    }
}

/// The address and bump seed that `anchor_lang::prelude::Pubkey::try_find_program_address`
/// yields for these seeds under the program with these 32 bytes, the address as its bytes;
/// `None` where it finds no address.
pub uninterp spec fn program_address(seeds: Seq<Seq<u8>>, program_id: Seq<u8>) -> Option<
    (Seq<u8>, u8),
>;

/// The most seeds that an address is derived from, the bump seed among them.
pub const MAX_SEEDS: usize = 16;

/// The most bytes that a seed has.
pub const MAX_SEED_LEN: usize = 32;

/// Whether the seeds are too many or too long to derive an address from: with
/// the bump seed they are more than `MAX_SEEDS`, or one has more than
/// `MAX_SEED_LEN` bytes.
pub open spec fn oversized(seeds: Seq<Seq<u8>>) -> bool {
    seeds.len() >= MAX_SEEDS || exists|i: int|
        0 <= i < seeds.len() && (#[trigger] seeds[i]).len() > MAX_SEED_LEN
}

/// The address with these bytes.
pub open spec fn pubkey_of(bytes: Seq<u8>) -> Pubkey {
    choose|key: Pubkey| key@ == bytes
}

/// The address and bump seed that `seeds` derive under `program_id`, if there is one.
pub open spec fn derived_address(seeds: Seq<Seq<u8>>, program_id: Pubkey) -> Option<(Pubkey, u8)> {
    match program_address(seeds, program_id@) {
        Some((bytes, bump)) => Some((pubkey_of(bytes), bump)),
        None => None,
    }
}

/// The seeds of a program's one account of a kind: the tag alone.
pub open spec fn tag_seeds(tag: &str) -> Seq<Seq<u8>> {
    seq![tag.spec_bytes()]
}

/// The seeds of the account that a program keeps about `key`: the tag and the key's bytes.
pub open spec fn keyed_seeds(tag: &str, key: Pubkey) -> Seq<Seq<u8>> {
    seq![tag.spec_bytes(), key@]
}

/// The seeds with which a program signs for its one account of a kind: the
/// tag and the account's bump seed.
pub open spec fn signer_seeds(tag: &str, bump: u8) -> Seq<Seq<u8>> {
    seq![tag.spec_bytes(), seq![bump]]
}

/// The seeds of a record that `owner` holds under `nonce`: the tag, the owner's
/// bytes, and the nonce's eight bytes, lowest first.
pub open spec fn record_seeds(tag: &str, owner: Pubkey, nonce: i64) -> Seq<Seq<u8>> {
    seq![tag.spec_bytes(), owner@, spec_u64_to_le_bytes(nonce as u64)]
}

/// Two addresses with the same bytes are the same address.
pub proof fn lemma_view_injective(a: Pubkey, b: Pubkey)
    ensures
        (a@ == b@) == (a == b),
{
    if a@ == b@ {
        assert(a.bytes =~= b.bytes);
    }
}

/// Calls `anchor_lang::prelude::Pubkey::try_find_program_address` on the seeds as byte
/// slices and the program's address. The contract claims that it returns what
/// `program_address` names for these bytes: it hashes the seeds, a bump seed and the
/// program's bytes, trying the bump seeds from 255 down, and reads nothing else. It
/// also claims that it finds no address for seeds that are too many or too long: it
/// gives up at once when the hashing refuses the seeds for their number or length.
#[verifier::external_body]
fn try_find_program_address(seeds: &Vec<Vec<u8>>, program_id: &Pubkey) -> (found: Option<
    (Pubkey, u8),
>)
    ensures
        match found {
            Some((address, bump)) => program_address(seeds.deep_view(), program_id@) == Some(
                (address@, bump),
            ),
            None => program_address(seeds.deep_view(), program_id@).is_none(),
        },
        oversized(seeds.deep_view()) ==> found.is_none(),
{
    let parts: Vec<&[u8]> = seeds.iter().map(|seed| seed.as_slice()).collect();
    let program = anchor_lang::prelude::Pubkey::new_from_array(program_id.bytes);
    match anchor_lang::prelude::Pubkey::try_find_program_address(&parts, &program) {
        Some((address, bump)) => Some((Pubkey { bytes: address.to_bytes() }, bump)),
        None => None,
    }
}

impl Pubkey {
    /// The address with these bytes.
    pub fn new_from_array(bytes: [u8; 32]) -> (key: Pubkey)
        ensures
            key.bytes == bytes,
    {
        Pubkey { bytes }
    }

    /// The address's bytes.
    pub fn to_bytes(&self) -> (bytes: [u8; 32])
        ensures
            bytes == self.bytes,
    {
        self.bytes
    }

    /// Whether the two addresses hold the same bytes.
    pub fn same(&self, other: &Pubkey) -> (r: bool)
        ensures
            r == (*self == *other),
    {
        let mut i: usize = 0;
        while i < 32
            invariant
                i <= 32,
                forall|j: int| 0 <= j < i ==> self.bytes[j] == other.bytes[j],
            decreases 32 - i,
        {
            if self.bytes[i] != other.bytes[i] {
                return false;
            }
            i += 1;
        }
        assert(self.bytes =~= other.bytes);
        true
    }

    /// The address's bytes as a seed.
    pub fn to_seed(&self) -> (seed: Vec<u8>)
        ensures
            seed@ == self@,
    {
        slice_to_vec(self.bytes.as_slice())
    }

    /// Derives the address that belongs to `seeds` under the program `program_id`,
    /// with its bump seed. The same seeds under the same program derive the same
    /// address each time; seeds that are too many or too long derive none.
    pub fn find_program_address(seeds: &Vec<Vec<u8>>, program_id: &Pubkey) -> (found: Result<
        (Pubkey, u8),
        ErrorCode,
    >)
        ensures
            found == match derived_address(seeds.deep_view(), *program_id) {
                Some(derived) => Ok::<(Pubkey, u8), ErrorCode>(derived),
                None => Err(ErrorCode::AddressDerivationExhausted),
            },
            oversized(seeds.deep_view()) ==> found == Err::<(Pubkey, u8), ErrorCode>(
                ErrorCode::AddressDerivationExhausted,
            ),
    {
        match try_find_program_address(seeds, program_id) {
            Some((address, bump)) => {
                proof {
                    lemma_view_injective(address, pubkey_of(address@));
                }
                Ok((address, bump))
            },
            None => Err(ErrorCode::AddressDerivationExhausted),
        }
    }
}

/// A tag's bytes as a seed.
pub fn tag_seed(tag: &str) -> (seed: Vec<u8>)
    ensures
        seed@ == tag.spec_bytes(),
{
    slice_to_vec(tag.as_bytes())
}

/// A nonce's eight bytes as a seed, lowest first.
pub fn nonce_seed(nonce: i64) -> (seed: Vec<u8>)
    ensures
        seed@ == spec_u64_to_le_bytes(nonce as u64),
{
    u64_to_le_bytes(nonce as u64)
}

/// Builds the seeds of a program's one account of a kind.
pub fn seeds_of_tag(tag: &str) -> (seeds: Vec<Vec<u8>>)
    ensures
        seeds.deep_view() == tag_seeds(tag),
{
    let mut seeds: Vec<Vec<u8>> = Vec::new();
    seeds.push(tag_seed(tag));
    proof {
        assert(seeds.deep_view()[0] =~= tag_seeds(tag)[0]);
        assert(seeds.deep_view() =~= tag_seeds(tag));
    }
    seeds
}

/// Builds the seeds of the account that a program keeps about `key`.
pub fn seeds_of_key(tag: &str, key: &Pubkey) -> (seeds: Vec<Vec<u8>>)
    ensures
        seeds.deep_view() == keyed_seeds(tag, *key),
{
    let mut seeds: Vec<Vec<u8>> = Vec::new();
    seeds.push(tag_seed(tag));
    seeds.push(key.to_seed());
    proof {
        let built = seeds.deep_view();
        let wanted = keyed_seeds(tag, *key);
        assert(built[0] =~= wanted[0]);
        assert(built[1] =~= wanted[1]);
        assert(built =~= wanted);
    }
    seeds
}

/// Builds the seeds with which a program signs for its one account of a kind.
pub fn seeds_of_signer(tag: &str, bump: u8) -> (seeds: Vec<Vec<u8>>)
    ensures
        seeds.deep_view() == signer_seeds(tag, bump),
{
    let mut last: Vec<u8> = Vec::new();
    last.push(bump);
    let mut seeds: Vec<Vec<u8>> = Vec::new();
    seeds.push(tag_seed(tag));
    seeds.push(last);
    proof {
        let built = seeds.deep_view();
        let wanted = signer_seeds(tag, bump);
        assert(built[0] =~= wanted[0]);
        assert(built[1] =~= wanted[1]);
        assert(built =~= wanted);
    }
    seeds
}

/// Builds the seeds of a record that `owner` holds under `nonce`.
pub fn seeds_of_record(tag: &str, owner: &Pubkey, nonce: i64) -> (seeds: Vec<Vec<u8>>)
    ensures
        seeds.deep_view() == record_seeds(tag, *owner, nonce),
{
    let mut seeds: Vec<Vec<u8>> = Vec::new();
    seeds.push(tag_seed(tag));
    seeds.push(owner.to_seed());
    seeds.push(nonce_seed(nonce));
    proof {
        let built = seeds.deep_view();
        let wanted = record_seeds(tag, *owner, nonce);
        assert(built[0] =~= wanted[0]);
        assert(built[1] =~= wanted[1]);
        assert(built[2] =~= wanted[2]);
        assert(built =~= wanted);
    }
    seeds
}

} // verus!
