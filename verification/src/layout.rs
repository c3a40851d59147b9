//! How the accounts are stored: fixed-width, little-endian, the fields in the
//! order in which they are declared, behind eight bytes that tell the kind.

use vstd::prelude::*;
use vstd::bytes::{
    lemma_auto_spec_u32_to_from_le_bytes,
    lemma_auto_spec_u64_to_from_le_bytes,
    spec_u32_to_le_bytes,
    spec_u64_to_le_bytes,
    u32_from_le_bytes,
    u32_to_le_bytes,
    u64_from_le_bytes,
    u64_to_le_bytes,
};
use vstd::slice::slice_subrange;
use crate::pubkey::{lemma_view_injective, Pubkey};

verus! {

/// The byte of a flag: 1 where it is set, 0 where it is not.
pub open spec fn bool_bytes(flag: bool) -> Seq<u8> {
    seq![if flag { 1u8 } else { 0u8 }]
}

/// The eight bytes of a count, lowest first.
pub open spec fn u64_bytes(x: u64) -> Seq<u8> {
    spec_u64_to_le_bytes(x)
}

/// The eight bytes of a nonce, lowest first, in two's complement.
pub open spec fn i64_bytes(x: i64) -> Seq<u8> {
    spec_u64_to_le_bytes(x as u64)
}

/// The four bytes of a coordinate, lowest first, in two's complement.
pub open spec fn i32_bytes(x: i32) -> Seq<u8> {
    spec_u32_to_le_bytes(x as u32)
}

/// The nine bytes of a cap: the flag 1 and the cap's bytes, or the flag 0 and
/// eight zero bytes where there is none.
pub open spec fn cap_bytes(cap: Option<u64>) -> Seq<u8> {
    match cap {
        Some(x) => seq![1u8] + u64_bytes(x),
        None => seq![0u8] + u64_bytes(0),
    }
}

/// The widths of the fields, and that fields with the same bytes are the same.
pub proof fn lemma_field_bytes()
    ensures
        forall|x: u64| #[trigger] u64_bytes(x).len() == 8,
        forall|x: i64| #[trigger] i64_bytes(x).len() == 8,
        forall|x: i32| #[trigger] i32_bytes(x).len() == 4,
        forall|cap: Option<u64>| #[trigger] cap_bytes(cap).len() == 9,
        forall|a: u64, b: u64| #[trigger] u64_bytes(a) == #[trigger] u64_bytes(b) ==> a == b,
        forall|a: i64, b: i64| #[trigger] i64_bytes(a) == #[trigger] i64_bytes(b) ==> a == b,
        forall|a: i32, b: i32| #[trigger] i32_bytes(a) == #[trigger] i32_bytes(b) ==> a == b,
        forall|a: bool, b: bool| #[trigger] bool_bytes(a) == #[trigger] bool_bytes(b) ==> a == b,
        forall|a: Option<u64>, b: Option<u64>|
            #[trigger] cap_bytes(a) == #[trigger] cap_bytes(b) ==> a == b,
{
    lemma_auto_spec_u64_to_from_le_bytes();
    lemma_auto_spec_u32_to_from_le_bytes();
    assert forall|a: i64, b: i64| #[trigger] i64_bytes(a) == #[trigger] i64_bytes(b) implies a
        == b by {
        assert(a as u64 == b as u64);
        assert(a as u64 == b as u64 ==> a == b) by (bit_vector);
    }
    assert forall|a: i32, b: i32| #[trigger] i32_bytes(a) == #[trigger] i32_bytes(b) implies a
        == b by {
        assert(spec_u32_to_le_bytes(a as u32).len() == 4);
        assert(spec_u32_to_le_bytes(b as u32).len() == 4);
        assert(a as u32 == b as u32);
        assert(a as u32 == b as u32 ==> a == b) by (bit_vector);
    }
    assert forall|a: bool, b: bool| #[trigger] bool_bytes(a) == #[trigger] bool_bytes(b) implies a
        == b by {
        assert(bool_bytes(a)[0] == bool_bytes(b)[0]);
    }
    assert forall|a: Option<u64>, b: Option<u64>| #[trigger] cap_bytes(a) == #[trigger] cap_bytes(
        b,
    ) implies a == b by {
        assert(cap_bytes(a)[0] == cap_bytes(b)[0]);
        assert(cap_bytes(a).subrange(1, 9) == cap_bytes(b).subrange(1, 9));
        if let Some(x) = a {
            if let Some(y) = b {
                assert(cap_bytes(a).subrange(1, 9) =~= u64_bytes(x));
                assert(cap_bytes(b).subrange(1, 9) =~= u64_bytes(y));
            }
        }
    }
}

/// Reads the count that lies at `at`.
pub fn read_u64(bytes: &[u8], at: usize) -> (x: u64)
    requires
        at + 8 <= bytes@.len(),
    ensures
        u64_bytes(x) == bytes@.subrange(at as int, at + 8),
{
    proof {
        lemma_auto_spec_u64_to_from_le_bytes();
    }
    let length: usize = bytes.len();
    u64_from_le_bytes(slice_subrange(bytes, at, at + 8))
}

/// Reads the nonce that lies at `at`.
pub fn read_i64(bytes: &[u8], at: usize) -> (x: i64)
    requires
        at + 8 <= bytes@.len(),
    ensures
        i64_bytes(x) == bytes@.subrange(at as int, at + 8),
{
    let raw: u64 = read_u64(bytes, at);
    assert((raw as i64) as u64 == raw) by (bit_vector);
    #[verifier::truncate]
    (raw as i64)
}

/// Reads the coordinate that lies at `at`.
pub fn read_i32(bytes: &[u8], at: usize) -> (x: i32)
    requires
        at + 4 <= bytes@.len(),
    ensures
        i32_bytes(x) == bytes@.subrange(at as int, at + 4),
{
    proof {
        lemma_auto_spec_u32_to_from_le_bytes();
    }
    let length: usize = bytes.len();
    let raw: u32 = u32_from_le_bytes(slice_subrange(bytes, at, at + 4));
    assert((raw as i32) as u32 == raw) by (bit_vector);
    #[verifier::truncate]
    (raw as i32)
}

/// Reads the flag that lies at `at`; there is none where the byte is neither 0 nor 1.
pub fn read_bool(bytes: &[u8], at: usize) -> (flag: Option<bool>)
    requires
        at < bytes@.len(),
    ensures
        match flag {
            Some(set) => bool_bytes(set) == bytes@.subrange(at as int, at + 1),
            None => forall|set: bool| bool_bytes(set) != bytes@.subrange(at as int, at + 1),
        },
{
    let byte: u8 = bytes[at];
    assert(bytes@.subrange(at as int, at + 1)[0] == byte);
    if byte == 0 {
        assert(bool_bytes(false) =~= bytes@.subrange(at as int, at + 1));
        Some(false)
    } else if byte == 1 {
        assert(bool_bytes(true) =~= bytes@.subrange(at as int, at + 1));
        Some(true)
    } else {
        assert forall|set: bool| bool_bytes(set) != bytes@.subrange(at as int, at + 1) by {
            assert(bool_bytes(set)[0] != byte);
        }
        None
    }
}

/// Reads the cap that lies at `at`; there is none where the flag is neither 0
/// nor 1, or where bytes other than zero follow the flag 0.
pub fn read_cap(bytes: &[u8], at: usize) -> (cap: Option<Option<u64>>)
    requires
        at + 9 <= bytes@.len(),
    ensures
        match cap {
            Some(read) => cap_bytes(read) == bytes@.subrange(at as int, at + 9),
            None => forall|any: Option<u64>| cap_bytes(any) != bytes@.subrange(at as int, at + 9),
        },
{
    let length: usize = bytes.len();
    let flag: u8 = bytes[at];
    let x: u64 = read_u64(bytes, at + 1);
    let ghost field = bytes@.subrange(at as int, at + 9);
    proof {
        lemma_field_bytes();
        assert(field[0] == flag);
        assert(field.subrange(1, 9) =~= bytes@.subrange(at + 1, at + 9));
        assert forall|any: Option<u64>| #[trigger] cap_bytes(any) == field implies (match any {
            Some(y) => flag == 1 && y == x,
            None => flag == 0 && x == 0,
        }) by {
            assert(cap_bytes(any)[0] == flag);
            match any {
                Some(y) => {
                    assert(cap_bytes(any).subrange(1, 9) =~= u64_bytes(y));
                },
                None => {
                    assert(cap_bytes(any).subrange(1, 9) =~= u64_bytes(0));
                },
            }
        }
    }
    if flag == 1 {
        assert(cap_bytes(Some(x)) =~= field);
        Some(Some(x))
    } else if flag == 0 && x == 0 {
        assert(cap_bytes(None) =~= field);
        Some(None)
    } else {
        None
    }
}

/// Reads the address that lies at `at`.
pub fn read_key(bytes: &[u8], at: usize) -> (key: Pubkey)
    requires
        at + 32 <= bytes@.len(),
    ensures
        key@ == bytes@.subrange(at as int, at + 32),
{
    let length: usize = bytes.len();
    let mut raw: [u8; 32] = [0u8; 32];
    let mut i: usize = 0;
    while i < 32
        invariant
            i <= 32,
            at + 32 <= bytes@.len() <= usize::MAX,
            forall|j: int| 0 <= j < i ==> raw@[j] == bytes@[at + j],
        decreases 32 - i,
    {
        raw[i] = bytes[at + i];
        i += 1;
    }
    assert(raw@ =~= bytes@.subrange(at as int, at + 32));
    Pubkey { bytes: raw }
}

/// Whether the eight bytes at the front are those of `kind`.
pub fn starts_with(bytes: &[u8], kind: &[u8; 8]) -> (told: bool)
    requires
        8 <= bytes@.len(),
    ensures
        told == (bytes@.subrange(0, 8) == kind@),
{
    let mut i: usize = 0;
    while i < 8
        invariant
            i <= 8,
            8 <= bytes@.len(),
            forall|j: int| 0 <= j < i ==> bytes@[j] == kind@[j],
        decreases 8 - i,
    {
        if bytes[i] != kind[i] {
            assert(bytes@.subrange(0, 8)[i as int] != kind@[i as int]);
            return false;
        }
        i += 1;
    }
    assert(bytes@.subrange(0, 8) =~= kind@);
    true
}

/// Writes a flag at the end.
pub fn write_bool(out: &mut Vec<u8>, flag: bool)
    ensures
        final(out)@ == old(out)@ + bool_bytes(flag),
{
    out.push(if flag { 1u8 } else { 0u8 });
    assert(out@ =~= old(out)@ + bool_bytes(flag));
}

/// Writes a count at the end.
pub fn write_u64(out: &mut Vec<u8>, x: u64)
    ensures
        final(out)@ == old(out)@ + u64_bytes(x),
{
    let mut field = u64_to_le_bytes(x);
    out.append(&mut field);
}

/// Writes a nonce at the end.
pub fn write_i64(out: &mut Vec<u8>, x: i64)
    ensures
        final(out)@ == old(out)@ + i64_bytes(x),
{
    let mut field = u64_to_le_bytes(x as u64);
    out.append(&mut field);
}

/// Writes a coordinate at the end.
pub fn write_i32(out: &mut Vec<u8>, x: i32)
    ensures
        final(out)@ == old(out)@ + i32_bytes(x),
{
    let mut field = u32_to_le_bytes(x as u32);
    out.append(&mut field);
}

/// Writes a cap at the end.
pub fn write_cap(out: &mut Vec<u8>, cap: Option<u64>)
    ensures
        final(out)@ == old(out)@ + cap_bytes(cap),
{
    match cap {
        Some(x) => {
            out.push(1u8);
            write_u64(out, x);
        },
        None => {
            out.push(0u8);
            write_u64(out, 0);
        },
    }
    assert(out@ =~= old(out)@ + cap_bytes(cap));
}

/// Writes an address at the end.
pub fn write_key(out: &mut Vec<u8>, key: &Pubkey)
    ensures
        final(out)@ == old(out)@ + key@,
{
    let mut field = key.to_seed();
    out.append(&mut field);
}

/// Writes the eight bytes of a kind at the end.
pub fn write_kind(out: &mut Vec<u8>, kind: &[u8; 8])
    ensures
        final(out)@ == old(out)@ + kind@,
{
    let mut i: usize = 0;
    while i < 8
        invariant
            i <= 8,
            out@ == old(out)@ + kind@.subrange(0, i as int),
        decreases 8 - i,
    {
        out.push(kind[i]);
        assert(out@ =~= old(out)@ + kind@.subrange(0, i + 1));
        i += 1;
    }
    assert(kind@.subrange(0, 8) =~= kind@);
}

/// The stored form of a supply state of the kind `kind`:
/// the mint, the authority, what was minted, what was burned, the cap and the bump seed.
pub open spec fn supply_bytes(
    kind: Seq<u8>,
    mint: Pubkey,
    authority: Pubkey,
    total_mined: u64,
    total_burned: u64,
    max_supply: Option<u64>,
    bump: u8,
) -> Seq<u8> {
    kind + mint@ + authority@ + u64_bytes(total_mined) + u64_bytes(total_burned) + cap_bytes(
        max_supply,
    ) + seq![bump]
}

/// Where the fields of a supply state lie in its stored form.
pub proof fn lemma_supply_fields(
    kind: Seq<u8>,
    mint: Pubkey,
    authority: Pubkey,
    total_mined: u64,
    total_burned: u64,
    max_supply: Option<u64>,
    bump: u8,
)
    requires
        kind.len() == 8,
    ensures
        ({
            let stored = supply_bytes(
                kind,
                mint,
                authority,
                total_mined,
                total_burned,
                max_supply,
                bump,
            );
            &&& stored.len() == 98
            &&& stored.subrange(0, 8) == kind
            &&& stored.subrange(8, 40) == mint@
            &&& stored.subrange(40, 72) == authority@
            &&& stored.subrange(72, 80) == u64_bytes(total_mined)
            &&& stored.subrange(80, 88) == u64_bytes(total_burned)
            &&& stored.subrange(88, 97) == cap_bytes(max_supply)
            &&& stored[97] == bump
        }),
{
    lemma_field_bytes();
    let stored = supply_bytes(kind, mint, authority, total_mined, total_burned, max_supply, bump);
    assert(stored.subrange(0, 8) =~= kind);
    assert(stored.subrange(8, 40) =~= mint@);
    assert(stored.subrange(40, 72) =~= authority@);
    assert(stored.subrange(72, 80) =~= u64_bytes(total_mined));
    assert(stored.subrange(80, 88) =~= u64_bytes(total_burned));
    assert(stored.subrange(88, 97) =~= cap_bytes(max_supply));
}

/// Two of the kind with the same stored form have the same fields.
pub proof fn lemma_supply_bytes_injective(
    kind: Seq<u8>,
    first_mint: Pubkey,
    first_authority: Pubkey,
    first_total_mined: u64,
    first_total_burned: u64,
    first_max_supply: Option<u64>,
    first_bump: u8,
    second_mint: Pubkey,
    second_authority: Pubkey,
    second_total_mined: u64,
    second_total_burned: u64,
    second_max_supply: Option<u64>,
    second_bump: u8,
)
    requires
        kind.len() == 8,
        supply_bytes(
            kind,
            first_mint,
            first_authority,
            first_total_mined,
            first_total_burned,
            first_max_supply,
            first_bump,
        ) == supply_bytes(
            kind,
            second_mint,
            second_authority,
            second_total_mined,
            second_total_burned,
            second_max_supply,
            second_bump,
        ),
    ensures
        first_mint == second_mint,
        first_authority == second_authority,
        first_total_mined == second_total_mined,
        first_total_burned == second_total_burned,
        first_max_supply == second_max_supply,
        first_bump == second_bump,
{
    lemma_field_bytes();
    lemma_supply_fields(
        kind,
        first_mint,
        first_authority,
        first_total_mined,
        first_total_burned,
        first_max_supply,
        first_bump,
    );
    lemma_supply_fields(
        kind,
        second_mint,
        second_authority,
        second_total_mined,
        second_total_burned,
        second_max_supply,
        second_bump,
    );
    lemma_view_injective(first_mint, second_mint);
    lemma_view_injective(first_authority, second_authority);
}

/// Writes a supply state of the kind `kind`.
pub fn write_supply(
    kind: &[u8; 8],
    mint: &Pubkey,
    authority: &Pubkey,
    total_mined: u64,
    total_burned: u64,
    max_supply: Option<u64>,
    bump: u8,
) -> (stored: Vec<u8>)
    ensures
        stored@ == supply_bytes(
            kind@,
            *mint,
            *authority,
            total_mined,
            total_burned,
            max_supply,
            bump,
        ),
        stored@.len() == 98,
{
    let mut stored: Vec<u8> = Vec::new();
    write_kind(&mut stored, kind);
    write_key(&mut stored, mint);
    write_key(&mut stored, authority);
    write_u64(&mut stored, total_mined);
    write_u64(&mut stored, total_burned);
    write_cap(&mut stored, max_supply);
    stored.push(bump);
    proof {
        lemma_supply_fields(kind@, *mint, *authority, total_mined, total_burned, max_supply, bump);
        assert(stored@ =~= supply_bytes(
            kind@,
            *mint,
            *authority,
            total_mined,
            total_burned,
            max_supply,
            bump,
        ));
    }
    stored
}

/// Reads a supply state of the kind `kind`: its fields where `bytes` is the stored
/// form of one, and nothing where it is the stored form of none.
pub fn read_supply(
    bytes: &[u8],
    kind: &[u8; 8],
) -> (read: Option<(Pubkey, Pubkey, u64, u64, Option<u64>, u8)>)
    ensures
        match read {
            Some((
                mint,
                authority,
                total_mined,
                total_burned,
                max_supply,
                bump,
            )) => supply_bytes(
                kind@,
                mint,
                authority,
                total_mined,
                total_burned,
                max_supply,
                bump,
            ) == bytes@,
            None => forall|
                mint: Pubkey,
                authority: Pubkey,
                total_mined: u64,
                total_burned: u64,
                max_supply: Option<u64>,
                bump: u8,
            |
                #[trigger] supply_bytes(
                    kind@,
                    mint,
                    authority,
                    total_mined,
                    total_burned,
                    max_supply,
                    bump,
                ) != bytes@,
        },
{
    proof {
        assert forall|
            mint: Pubkey,
            authority: Pubkey,
            total_mined: u64,
            total_burned: u64,
            max_supply: Option<u64>,
            bump: u8,
        |
            #[trigger] supply_bytes(
                kind@,
                mint,
                authority,
                total_mined,
                total_burned,
                max_supply,
                bump,
            ) == bytes@ implies bytes@.len() == 98
                && bytes@.subrange(0, 8) == kind@
                && bytes@.subrange(88, 97) == cap_bytes(max_supply) by {
            lemma_supply_fields(
                kind@,
                mint,
                authority,
                total_mined,
                total_burned,
                max_supply,
                bump,
            );
        }
    }
    if bytes.len() != 98 {
        return None;
    }
    if !starts_with(bytes, kind) {
        return None;
    }
    let mint = read_key(bytes, 8);
    let authority = read_key(bytes, 40);
    let total_mined: u64 = read_u64(bytes, 72);
    let total_burned: u64 = read_u64(bytes, 80);
    match read_cap(bytes, 88) {
        None => None,
        Some(max_supply) => {
            let bump: u8 = bytes[97];
            proof {
                lemma_field_bytes();
                let stored = supply_bytes(
                    kind@,
                    mint,
                    authority,
                    total_mined,
                    total_burned,
                    max_supply,
                    bump,
                );
                lemma_supply_fields(
                    kind@,
                    mint,
                    authority,
                    total_mined,
                    total_burned,
                    max_supply,
                    bump,
                );
                assert forall|i: int| 0 <= i < 98 implies bytes@[i] == stored[i] by {
                    if i < 8 {
                        assert(bytes@.subrange(0, 8)[i] == stored.subrange(0, 8)[i]);
                    } else if i < 40 {
                        assert(bytes@.subrange(8, 40)[i - 8] == stored.subrange(8, 40)[i - 8]);
                    } else if i < 72 {
                        assert(bytes@.subrange(40, 72)[i - 40] == stored.subrange(40, 72)[i - 40]);
                    } else if i < 80 {
                        assert(bytes@.subrange(72, 80)[i - 72] == stored.subrange(72, 80)[i - 72]);
                    } else if i < 88 {
                        assert(bytes@.subrange(80, 88)[i - 80] == stored.subrange(80, 88)[i - 80]);
                    } else if i < 97 {
                        assert(bytes@.subrange(88, 97)[i - 88] == stored.subrange(88, 97)[i - 88]);
                    } else if i < 98 {
                    }
                }
                assert(bytes@ =~= stored);
            }
            Some((mint, authority, total_mined, total_burned, max_supply, bump))
        },
    }
}

/// The stored form of a vault of the kind `kind`:
/// the authority, what was deposited, the number of claims and the bump seed.
pub open spec fn vault_bytes(
    kind: Seq<u8>,
    authority: Pubkey,
    deposited: u64,
    claimed: u64,
    bump: u8,
) -> Seq<u8> {
    kind + authority@ + u64_bytes(deposited) + u64_bytes(claimed) + seq![bump]
}

/// Where the fields of a vault lie in its stored form.
pub proof fn lemma_vault_fields(
    kind: Seq<u8>,
    authority: Pubkey,
    deposited: u64,
    claimed: u64,
    bump: u8,
)
    requires
        kind.len() == 8,
    ensures
        ({
            let stored = vault_bytes(kind, authority, deposited, claimed, bump);
            &&& stored.len() == 57
            &&& stored.subrange(0, 8) == kind
            &&& stored.subrange(8, 40) == authority@
            &&& stored.subrange(40, 48) == u64_bytes(deposited)
            &&& stored.subrange(48, 56) == u64_bytes(claimed)
            &&& stored[56] == bump
        }),
{
    lemma_field_bytes();
    let stored = vault_bytes(kind, authority, deposited, claimed, bump);
    assert(stored.subrange(0, 8) =~= kind);
    assert(stored.subrange(8, 40) =~= authority@);
    assert(stored.subrange(40, 48) =~= u64_bytes(deposited));
    assert(stored.subrange(48, 56) =~= u64_bytes(claimed));
}

/// Two of the kind with the same stored form have the same fields.
pub proof fn lemma_vault_bytes_injective(
    kind: Seq<u8>,
    first_authority: Pubkey,
    first_deposited: u64,
    first_claimed: u64,
    first_bump: u8,
    second_authority: Pubkey,
    second_deposited: u64,
    second_claimed: u64,
    second_bump: u8,
)
    requires
        kind.len() == 8,
        vault_bytes(
            kind,
            first_authority,
            first_deposited,
            first_claimed,
            first_bump,
        ) == vault_bytes(kind, second_authority, second_deposited, second_claimed, second_bump),
    ensures
        first_authority == second_authority,
        first_deposited == second_deposited,
        first_claimed == second_claimed,
        first_bump == second_bump,
{
    lemma_field_bytes();
    lemma_vault_fields(kind, first_authority, first_deposited, first_claimed, first_bump);
    lemma_vault_fields(kind, second_authority, second_deposited, second_claimed, second_bump);
    lemma_view_injective(first_authority, second_authority);
}

/// Writes a vault of the kind `kind`.
pub fn write_vault(
    kind: &[u8; 8],
    authority: &Pubkey,
    deposited: u64,
    claimed: u64,
    bump: u8,
) -> (stored: Vec<u8>)
    ensures
        stored@ == vault_bytes(kind@, *authority, deposited, claimed, bump),
        stored@.len() == 57,
{
    let mut stored: Vec<u8> = Vec::new();
    write_kind(&mut stored, kind);
    write_key(&mut stored, authority);
    write_u64(&mut stored, deposited);
    write_u64(&mut stored, claimed);
    stored.push(bump);
    proof {
        lemma_vault_fields(kind@, *authority, deposited, claimed, bump);
        assert(stored@ =~= vault_bytes(kind@, *authority, deposited, claimed, bump));
    }
    stored
}

/// Reads a vault of the kind `kind`: its fields where `bytes` is the stored
/// form of one, and nothing where it is the stored form of none.
pub fn read_vault(bytes: &[u8], kind: &[u8; 8]) -> (read: Option<(Pubkey, u64, u64, u8)>)
    ensures
        match read {
            Some((
                authority,
                deposited,
                claimed,
                bump,
            )) => vault_bytes(kind@, authority, deposited, claimed, bump) == bytes@,
            None => forall|
                authority: Pubkey,
                deposited: u64,
                claimed: u64,
                bump: u8,
            |
                #[trigger] vault_bytes(kind@, authority, deposited, claimed, bump) != bytes@,
        },
{
    proof {
        assert forall|
            authority: Pubkey,
            deposited: u64,
            claimed: u64,
            bump: u8,
        |
            #[trigger] vault_bytes(
                kind@,
                authority,
                deposited,
                claimed,
                bump,
            ) == bytes@ implies bytes@.len() == 57
                && bytes@.subrange(0, 8) == kind@ by {
            lemma_vault_fields(kind@, authority, deposited, claimed, bump);
        }
    }
    if bytes.len() != 57 {
        return None;
    }
    if !starts_with(bytes, kind) {
        return None;
    }
    let authority = read_key(bytes, 8);
    let deposited: u64 = read_u64(bytes, 40);
    let claimed: u64 = read_u64(bytes, 48);
    let bump: u8 = bytes[56];
    proof {
        lemma_field_bytes();
        let stored = vault_bytes(kind@, authority, deposited, claimed, bump);
        lemma_vault_fields(kind@, authority, deposited, claimed, bump);
        assert forall|i: int| 0 <= i < 57 implies bytes@[i] == stored[i] by {
            if i < 8 {
                assert(bytes@.subrange(0, 8)[i] == stored.subrange(0, 8)[i]);
            } else if i < 40 {
                assert(bytes@.subrange(8, 40)[i - 8] == stored.subrange(8, 40)[i - 8]);
            } else if i < 48 {
                assert(bytes@.subrange(40, 48)[i - 40] == stored.subrange(40, 48)[i - 40]);
            } else if i < 56 {
                assert(bytes@.subrange(48, 56)[i - 48] == stored.subrange(48, 56)[i - 48]);
            } else if i < 57 {
            }
        }
        assert(bytes@ =~= stored);
    }
    Some((authority, deposited, claimed, bump))
}

/// The stored form of a deposit of the kind `kind`:
/// the depositor, the amount, the nonce, whether it was claimed, its tier and the bump seed.
pub open spec fn deposit_bytes(
    kind: Seq<u8>,
    player: Pubkey,
    amount: u64,
    nonce: i64,
    claimed: bool,
    tier: u8,
    bump: u8,
) -> Seq<u8> {
    kind + player@ + u64_bytes(amount) + i64_bytes(nonce) + bool_bytes(claimed) + seq![tier]
        + seq![bump]
}

/// Where the fields of a deposit lie in its stored form.
pub proof fn lemma_deposit_fields(
    kind: Seq<u8>,
    player: Pubkey,
    amount: u64,
    nonce: i64,
    claimed: bool,
    tier: u8,
    bump: u8,
)
    requires
        kind.len() == 8,
    ensures
        ({
            let stored = deposit_bytes(kind, player, amount, nonce, claimed, tier, bump);
            &&& stored.len() == 59
            &&& stored.subrange(0, 8) == kind
            &&& stored.subrange(8, 40) == player@
            &&& stored.subrange(40, 48) == u64_bytes(amount)
            &&& stored.subrange(48, 56) == i64_bytes(nonce)
            &&& stored.subrange(56, 57) == bool_bytes(claimed)
            &&& stored[57] == tier
            &&& stored[58] == bump
        }),
{
    lemma_field_bytes();
    let stored = deposit_bytes(kind, player, amount, nonce, claimed, tier, bump);
    assert(stored.subrange(0, 8) =~= kind);
    assert(stored.subrange(8, 40) =~= player@);
    assert(stored.subrange(40, 48) =~= u64_bytes(amount));
    assert(stored.subrange(48, 56) =~= i64_bytes(nonce));
    assert(stored.subrange(56, 57) =~= bool_bytes(claimed));
}

/// Two of the kind with the same stored form have the same fields.
pub proof fn lemma_deposit_bytes_injective(
    kind: Seq<u8>,
    first_player: Pubkey,
    first_amount: u64,
    first_nonce: i64,
    first_claimed: bool,
    first_class: u8,
    first_bump: u8,
    second_player: Pubkey,
    second_amount: u64,
    second_nonce: i64,
    second_claimed: bool,
    second_class: u8,
    second_bump: u8,
)
    requires
        kind.len() == 8,
        deposit_bytes(
            kind,
            first_player,
            first_amount,
            first_nonce,
            first_claimed,
            first_class,
            first_bump,
        ) == deposit_bytes(
            kind,
            second_player,
            second_amount,
            second_nonce,
            second_claimed,
            second_class,
            second_bump,
        ),
    ensures
        first_player == second_player,
        first_amount == second_amount,
        first_nonce == second_nonce,
        first_claimed == second_claimed,
        first_class == second_class,
        first_bump == second_bump,
{
    lemma_field_bytes();
    lemma_deposit_fields(
        kind,
        first_player,
        first_amount,
        first_nonce,
        first_claimed,
        first_class,
        first_bump,
    );
    lemma_deposit_fields(
        kind,
        second_player,
        second_amount,
        second_nonce,
        second_claimed,
        second_class,
        second_bump,
    );
    lemma_view_injective(first_player, second_player);
}

/// Writes a deposit of the kind `kind`.
pub fn write_deposit(
    kind: &[u8; 8],
    player: &Pubkey,
    amount: u64,
    nonce: i64,
    claimed: bool,
    tier: u8,
    bump: u8,
) -> (stored: Vec<u8>)
    ensures
        stored@ == deposit_bytes(kind@, *player, amount, nonce, claimed, tier, bump),
        stored@.len() == 59,
{
    let mut stored: Vec<u8> = Vec::new();
    write_kind(&mut stored, kind);
    write_key(&mut stored, player);
    write_u64(&mut stored, amount);
    write_i64(&mut stored, nonce);
    write_bool(&mut stored, claimed);
    stored.push(tier);
    stored.push(bump);
    proof {
        lemma_deposit_fields(kind@, *player, amount, nonce, claimed, tier, bump);
        assert(stored@ =~= deposit_bytes(kind@, *player, amount, nonce, claimed, tier, bump));
    }
    stored
}

/// Reads a deposit of the kind `kind`: its fields where `bytes` is the stored
/// form of one, and nothing where it is the stored form of none.
pub fn read_deposit(
    bytes: &[u8],
    kind: &[u8; 8],
) -> (read: Option<(Pubkey, u64, i64, bool, u8, u8)>)
    ensures
        match read {
            Some((
                player,
                amount,
                nonce,
                claimed,
                tier,
                bump,
            )) => deposit_bytes(kind@, player, amount, nonce, claimed, tier, bump) == bytes@,
            None => forall|
                player: Pubkey,
                amount: u64,
                nonce: i64,
                claimed: bool,
                tier: u8,
                bump: u8,
            |
                #[trigger] deposit_bytes(
                    kind@,
                    player,
                    amount,
                    nonce,
                    claimed,
                    tier,
                    bump,
                ) != bytes@,
        },
{
    proof {
        assert forall|
            player: Pubkey,
            amount: u64,
            nonce: i64,
            claimed: bool,
            tier: u8,
            bump: u8,
        |
            #[trigger] deposit_bytes(
                kind@,
                player,
                amount,
                nonce,
                claimed,
                tier,
                bump,
            ) == bytes@ implies bytes@.len() == 59
                && bytes@.subrange(0, 8) == kind@
                && bytes@.subrange(56, 57) == bool_bytes(claimed) by {
            lemma_deposit_fields(kind@, player, amount, nonce, claimed, tier, bump);
        }
    }
    if bytes.len() != 59 {
        return None;
    }
    if !starts_with(bytes, kind) {
        return None;
    }
    let player = read_key(bytes, 8);
    let amount: u64 = read_u64(bytes, 40);
    let nonce: i64 = read_i64(bytes, 48);
    match read_bool(bytes, 56) {
        None => None,
        Some(claimed) => {
            let tier: u8 = bytes[57];
            let bump: u8 = bytes[58];
            proof {
                lemma_field_bytes();
                let stored = deposit_bytes(kind@, player, amount, nonce, claimed, tier, bump);
                lemma_deposit_fields(kind@, player, amount, nonce, claimed, tier, bump);
                assert forall|i: int| 0 <= i < 59 implies bytes@[i] == stored[i] by {
                    if i < 8 {
                        assert(bytes@.subrange(0, 8)[i] == stored.subrange(0, 8)[i]);
                    } else if i < 40 {
                        assert(bytes@.subrange(8, 40)[i - 8] == stored.subrange(8, 40)[i - 8]);
                    } else if i < 48 {
                        assert(bytes@.subrange(40, 48)[i - 40] == stored.subrange(40, 48)[i - 40]);
                    } else if i < 56 {
                        assert(bytes@.subrange(48, 56)[i - 48] == stored.subrange(48, 56)[i - 48]);
                    } else if i < 57 {
                        assert(bytes@.subrange(56, 57)[i - 56] == stored.subrange(56, 57)[i - 56]);
                    } else if i < 58 {
                    } else if i < 59 {
                    }
                }
                assert(bytes@ =~= stored);
            }
            Some((player, amount, nonce, claimed, tier, bump))
        },
    }
}

/// The stored form of a whitelist entry of the kind `kind`:
/// the token mint, whether it is enabled and the bump seed.
pub open spec fn whitelist_bytes(
    kind: Seq<u8>,
    token_mint: Pubkey,
    enabled: bool,
    bump: u8,
) -> Seq<u8> {
    kind + token_mint@ + bool_bytes(enabled) + seq![bump]
}

/// Where the fields of a whitelist entry lie in its stored form.
pub proof fn lemma_whitelist_fields(
    kind: Seq<u8>,
    token_mint: Pubkey,
    enabled: bool,
    bump: u8,
)
    requires
        kind.len() == 8,
    ensures
        ({
            let stored = whitelist_bytes(kind, token_mint, enabled, bump);
            &&& stored.len() == 42
            &&& stored.subrange(0, 8) == kind
            &&& stored.subrange(8, 40) == token_mint@
            &&& stored.subrange(40, 41) == bool_bytes(enabled)
            &&& stored[41] == bump
        }),
{
    lemma_field_bytes();
    let stored = whitelist_bytes(kind, token_mint, enabled, bump);
    assert(stored.subrange(0, 8) =~= kind);
    assert(stored.subrange(8, 40) =~= token_mint@);
    assert(stored.subrange(40, 41) =~= bool_bytes(enabled));
}

/// Two of the kind with the same stored form have the same fields.
pub proof fn lemma_whitelist_bytes_injective(
    kind: Seq<u8>,
    first_token_mint: Pubkey,
    first_enabled: bool,
    first_bump: u8,
    second_token_mint: Pubkey,
    second_enabled: bool,
    second_bump: u8,
)
    requires
        kind.len() == 8,
        whitelist_bytes(
            kind,
            first_token_mint,
            first_enabled,
            first_bump,
        ) == whitelist_bytes(kind, second_token_mint, second_enabled, second_bump),
    ensures
        first_token_mint == second_token_mint,
        first_enabled == second_enabled,
        first_bump == second_bump,
{
    lemma_field_bytes();
    lemma_whitelist_fields(kind, first_token_mint, first_enabled, first_bump);
    lemma_whitelist_fields(kind, second_token_mint, second_enabled, second_bump);
    lemma_view_injective(first_token_mint, second_token_mint);
}

/// Writes a whitelist entry of the kind `kind`.
pub fn write_whitelist(
    kind: &[u8; 8],
    token_mint: &Pubkey,
    enabled: bool,
    bump: u8,
) -> (stored: Vec<u8>)
    ensures
        stored@ == whitelist_bytes(kind@, *token_mint, enabled, bump),
        stored@.len() == 42,
{
    let mut stored: Vec<u8> = Vec::new();
    write_kind(&mut stored, kind);
    write_key(&mut stored, token_mint);
    write_bool(&mut stored, enabled);
    stored.push(bump);
    proof {
        lemma_whitelist_fields(kind@, *token_mint, enabled, bump);
        assert(stored@ =~= whitelist_bytes(kind@, *token_mint, enabled, bump));
    }
    stored
}

/// Reads a whitelist entry of the kind `kind`: its fields where `bytes` is the stored
/// form of one, and nothing where it is the stored form of none.
pub fn read_whitelist(bytes: &[u8], kind: &[u8; 8]) -> (read: Option<(Pubkey, bool, u8)>)
    ensures
        match read {
            Some((
                token_mint,
                enabled,
                bump,
            )) => whitelist_bytes(kind@, token_mint, enabled, bump) == bytes@,
            None => forall|
                token_mint: Pubkey,
                enabled: bool,
                bump: u8,
            |
                #[trigger] whitelist_bytes(kind@, token_mint, enabled, bump) != bytes@,
        },
{
    proof {
        assert forall|
            token_mint: Pubkey,
            enabled: bool,
            bump: u8,
        |
            #[trigger] whitelist_bytes(
                kind@,
                token_mint,
                enabled,
                bump,
            ) == bytes@ implies bytes@.len() == 42
                && bytes@.subrange(0, 8) == kind@
                && bytes@.subrange(40, 41) == bool_bytes(enabled) by {
            lemma_whitelist_fields(kind@, token_mint, enabled, bump);
        }
    }
    if bytes.len() != 42 {
        return None;
    }
    if !starts_with(bytes, kind) {
        return None;
    }
    let token_mint = read_key(bytes, 8);
    match read_bool(bytes, 40) {
        None => None,
        Some(enabled) => {
            let bump: u8 = bytes[41];
            proof {
                lemma_field_bytes();
                let stored = whitelist_bytes(kind@, token_mint, enabled, bump);
                lemma_whitelist_fields(kind@, token_mint, enabled, bump);
                assert forall|i: int| 0 <= i < 42 implies bytes@[i] == stored[i] by {
                    if i < 8 {
                        assert(bytes@.subrange(0, 8)[i] == stored.subrange(0, 8)[i]);
                    } else if i < 40 {
                        assert(bytes@.subrange(8, 40)[i - 8] == stored.subrange(8, 40)[i - 8]);
                    } else if i < 41 {
                        assert(bytes@.subrange(40, 41)[i - 40] == stored.subrange(40, 41)[i - 40]);
                    } else if i < 42 {
                    }
                }
                assert(bytes@ =~= stored);
            }
            Some((token_mint, enabled, bump))
        },
    }
}

/// The stored form of a search of the kind `kind`:
/// the searcher, the two coordinates, the nonce, whether a treasure was found and the bump seed.
pub open spec fn search_bytes(
    kind: Seq<u8>,
    player: Pubkey,
    x: i32,
    y: i32,
    nonce: i64,
    found: bool,
    bump: u8,
) -> Seq<u8> {
    kind + player@ + i32_bytes(x) + i32_bytes(y) + i64_bytes(nonce) + bool_bytes(found) + seq![bump]
}

/// Where the fields of a search lie in its stored form.
pub proof fn lemma_search_fields(
    kind: Seq<u8>,
    player: Pubkey,
    x: i32,
    y: i32,
    nonce: i64,
    found: bool,
    bump: u8,
)
    requires
        kind.len() == 8,
    ensures
        ({
            let stored = search_bytes(kind, player, x, y, nonce, found, bump);
            &&& stored.len() == 58
            &&& stored.subrange(0, 8) == kind
            &&& stored.subrange(8, 40) == player@
            &&& stored.subrange(40, 44) == i32_bytes(x)
            &&& stored.subrange(44, 48) == i32_bytes(y)
            &&& stored.subrange(48, 56) == i64_bytes(nonce)
            &&& stored.subrange(56, 57) == bool_bytes(found)
            &&& stored[57] == bump
        }),
{
    lemma_field_bytes();
    let stored = search_bytes(kind, player, x, y, nonce, found, bump);
    assert(stored.subrange(0, 8) =~= kind);
    assert(stored.subrange(8, 40) =~= player@);
    assert(stored.subrange(40, 44) =~= i32_bytes(x));
    assert(stored.subrange(44, 48) =~= i32_bytes(y));
    assert(stored.subrange(48, 56) =~= i64_bytes(nonce));
    assert(stored.subrange(56, 57) =~= bool_bytes(found));
}

/// Two of the kind with the same stored form have the same fields.
pub proof fn lemma_search_bytes_injective(
    kind: Seq<u8>,
    first_player: Pubkey,
    first_x: i32,
    first_y: i32,
    first_nonce: i64,
    first_found: bool,
    first_bump: u8,
    second_player: Pubkey,
    second_x: i32,
    second_y: i32,
    second_nonce: i64,
    second_found: bool,
    second_bump: u8,
)
    requires
        kind.len() == 8,
        search_bytes(
            kind,
            first_player,
            first_x,
            first_y,
            first_nonce,
            first_found,
            first_bump,
        ) == search_bytes(
            kind,
            second_player,
            second_x,
            second_y,
            second_nonce,
            second_found,
            second_bump,
        ),
    ensures
        first_player == second_player,
        first_x == second_x,
        first_y == second_y,
        first_nonce == second_nonce,
        first_found == second_found,
        first_bump == second_bump,
{
    lemma_field_bytes();
    lemma_search_fields(kind, first_player, first_x, first_y, first_nonce, first_found, first_bump);
    lemma_search_fields(
        kind,
        second_player,
        second_x,
        second_y,
        second_nonce,
        second_found,
        second_bump,
    );
    lemma_view_injective(first_player, second_player);
}

/// Writes a search of the kind `kind`.
pub fn write_search(
    kind: &[u8; 8],
    player: &Pubkey,
    x: i32,
    y: i32,
    nonce: i64,
    found: bool,
    bump: u8,
) -> (stored: Vec<u8>)
    ensures
        stored@ == search_bytes(kind@, *player, x, y, nonce, found, bump),
        stored@.len() == 58,
{
    let mut stored: Vec<u8> = Vec::new();
    write_kind(&mut stored, kind);
    write_key(&mut stored, player);
    write_i32(&mut stored, x);
    write_i32(&mut stored, y);
    write_i64(&mut stored, nonce);
    write_bool(&mut stored, found);
    stored.push(bump);
    proof {
        lemma_search_fields(kind@, *player, x, y, nonce, found, bump);
        assert(stored@ =~= search_bytes(kind@, *player, x, y, nonce, found, bump));
    }
    stored
}

/// Reads a search of the kind `kind`: its fields where `bytes` is the stored
/// form of one, and nothing where it is the stored form of none.
pub fn read_search(
    bytes: &[u8],
    kind: &[u8; 8],
) -> (read: Option<(Pubkey, i32, i32, i64, bool, u8)>)
    ensures
        match read {
            Some((
                player,
                x,
                y,
                nonce,
                found,
                bump,
            )) => search_bytes(kind@, player, x, y, nonce, found, bump) == bytes@,
            None => forall|
                player: Pubkey,
                x: i32,
                y: i32,
                nonce: i64,
                found: bool,
                bump: u8,
            |
                #[trigger] search_bytes(kind@, player, x, y, nonce, found, bump) != bytes@,
        },
{
    proof {
        assert forall|
            player: Pubkey,
            x: i32,
            y: i32,
            nonce: i64,
            found: bool,
            bump: u8,
        |
            #[trigger] search_bytes(
                kind@,
                player,
                x,
                y,
                nonce,
                found,
                bump,
            ) == bytes@ implies bytes@.len() == 58
                && bytes@.subrange(0, 8) == kind@
                && bytes@.subrange(56, 57) == bool_bytes(found) by {
            lemma_search_fields(kind@, player, x, y, nonce, found, bump);
        }
    }
    if bytes.len() != 58 {
        return None;
    }
    if !starts_with(bytes, kind) {
        return None;
    }
    let player = read_key(bytes, 8);
    let x: i32 = read_i32(bytes, 40);
    let y: i32 = read_i32(bytes, 44);
    let nonce: i64 = read_i64(bytes, 48);
    match read_bool(bytes, 56) {
        None => None,
        Some(found) => {
            let bump: u8 = bytes[57];
            proof {
                lemma_field_bytes();
                let stored = search_bytes(kind@, player, x, y, nonce, found, bump);
                lemma_search_fields(kind@, player, x, y, nonce, found, bump);
                assert forall|i: int| 0 <= i < 58 implies bytes@[i] == stored[i] by {
                    if i < 8 {
                        assert(bytes@.subrange(0, 8)[i] == stored.subrange(0, 8)[i]);
                    } else if i < 40 {
                        assert(bytes@.subrange(8, 40)[i - 8] == stored.subrange(8, 40)[i - 8]);
                    } else if i < 44 {
                        assert(bytes@.subrange(40, 44)[i - 40] == stored.subrange(40, 44)[i - 40]);
                    } else if i < 48 {
                        assert(bytes@.subrange(44, 48)[i - 44] == stored.subrange(44, 48)[i - 44]);
                    } else if i < 56 {
                        assert(bytes@.subrange(48, 56)[i - 48] == stored.subrange(48, 56)[i - 48]);
                    } else if i < 57 {
                        assert(bytes@.subrange(56, 57)[i - 56] == stored.subrange(56, 57)[i - 56]);
                    } else if i < 58 {
                    }
                }
                assert(bytes@ =~= stored);
            }
            Some((player, x, y, nonce, found, bump))
        },
    }
}

} // verus!
