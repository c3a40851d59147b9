//! The stored form of each account: what it is written as, and what is read
//! back from bytes.

use vstd::prelude::*;
use crate::booty::BootyConfig;
use crate::game;
use crate::layout::{
    deposit_bytes,
    lemma_deposit_bytes_injective,
    lemma_search_bytes_injective,
    lemma_supply_bytes_injective,
    lemma_vault_bytes_injective,
    lemma_whitelist_bytes_injective,
    read_deposit,
    read_search,
    read_supply,
    read_vault,
    read_whitelist,
    search_bytes,
    supply_bytes,
    vault_bytes,
    whitelist_bytes,
    write_deposit,
    write_search,
    write_supply,
    write_vault,
    write_whitelist,
};
use crate::treasure_deposit;

verus! {

impl BootyConfig {
    /// The eight bytes that tell the kind: the first eight of the SHA-256
    /// hash of `account:BootyConfig`.
    pub open spec fn discriminator() -> Seq<u8> {
        seq![104, 177, 209, 249, 224, 235, 120, 236]
    }

    /// The stored form.
    pub open spec fn encoding(self) -> Seq<u8> {
        supply_bytes(
            Self::discriminator(),
            self.mint,
            self.mint_authority,
            self.total_mined,
            self.total_burned,
            self.max_supply,
            self.bump,
        )
    }

    /// The eight bytes that tell the kind.
    pub fn kind() -> (kind: [u8; 8])
        ensures
            kind@ == Self::discriminator(),
    {
        let kind: [u8; 8] = [104, 177, 209, 249, 224, 235, 120, 236];
        assert(kind@ =~= Self::discriminator());
        kind
    }

    /// Writes the stored form.
    pub fn to_bytes(&self) -> (stored: Vec<u8>)
        ensures
            stored@ == self.encoding(),
            stored@.len() == Self::LEN,
    {
        let kind = Self::kind();
        write_supply(
            &kind,
            &self.mint,
            &self.mint_authority,
            self.total_mined,
            self.total_burned,
            self.max_supply,
            self.bump,
        )
    }

    /// Reads a stored form: the value where `bytes` is the stored form of
    /// one, and nothing where it is the stored form of none.
    pub fn from_bytes(bytes: &[u8]) -> (read: Option<Self>)
        ensures
            match read {
                Some(value) => value.encoding() == bytes@,
                None => forall|value: Self| #[trigger] value.encoding() != bytes@,
            },
    {
        let kind = Self::kind();
        match read_supply(bytes, &kind) {
            Some((mint, mint_authority, total_mined, total_burned, max_supply, bump)) => Some(
                Self { mint, mint_authority, total_mined, total_burned, max_supply, bump },
            ),
            None => None,
        }
    }

    /// Two values with the same stored form are the same value, so that what
    /// was written is what is read.
    pub proof fn lemma_encoding_injective(first: Self, second: Self)
        requires
            first.encoding() == second.encoding(),
        ensures
            first == second,
    {
        lemma_supply_bytes_injective(
            Self::discriminator(),
            first.mint,
            first.mint_authority,
            first.total_mined,
            first.total_burned,
            first.max_supply,
            first.bump,
            second.mint,
            second.mint_authority,
            second.total_mined,
            second.total_burned,
            second.max_supply,
            second.bump,
        );
    }

    /// What was written is what is read: a reading of the stored form of
    /// `value` that is as `from_bytes` promises is `value` itself.
    pub proof fn lemma_written_is_read(value: Self, read: Option<Self>)
        requires
            match read {
                Some(other) => other.encoding() == value.encoding(),
                None => forall|other: Self| #[trigger] other.encoding() != value.encoding(),
            },
        ensures
            read == Some(value),
    {
        match read {
            Some(other) => {
                Self::lemma_encoding_injective(other, value);
            },
            None => {
                assert(value.encoding() == value.encoding());
            },
        }
    }
}

impl game::BootyState {
    /// The eight bytes that tell the kind: the first eight of the SHA-256
    /// hash of `account:BootyState`.
    pub open spec fn discriminator() -> Seq<u8> {
        seq![37, 91, 165, 122, 253, 128, 194, 6]
    }

    /// The stored form.
    pub open spec fn encoding(self) -> Seq<u8> {
        supply_bytes(
            Self::discriminator(),
            self.mint,
            self.authority,
            self.total_mined,
            self.total_burned,
            self.max_supply,
            self.bump,
        )
    }

    /// The eight bytes that tell the kind.
    pub fn kind() -> (kind: [u8; 8])
        ensures
            kind@ == Self::discriminator(),
    {
        let kind: [u8; 8] = [37, 91, 165, 122, 253, 128, 194, 6];
        assert(kind@ =~= Self::discriminator());
        kind
    }

    /// Writes the stored form.
    pub fn to_bytes(&self) -> (stored: Vec<u8>)
        ensures
            stored@ == self.encoding(),
            stored@.len() == Self::LEN,
    {
        let kind = Self::kind();
        write_supply(
            &kind,
            &self.mint,
            &self.authority,
            self.total_mined,
            self.total_burned,
            self.max_supply,
            self.bump,
        )
    }

    /// Reads a stored form: the value where `bytes` is the stored form of
    /// one, and nothing where it is the stored form of none.
    pub fn from_bytes(bytes: &[u8]) -> (read: Option<Self>)
        ensures
            match read {
                Some(value) => value.encoding() == bytes@,
                None => forall|value: Self| #[trigger] value.encoding() != bytes@,
            },
    {
        let kind = Self::kind();
        match read_supply(bytes, &kind) {
            Some((mint, authority, total_mined, total_burned, max_supply, bump)) => Some(
                Self { mint, authority, total_mined, total_burned, max_supply, bump },
            ),
            None => None,
        }
    }

    /// Two values with the same stored form are the same value, so that what
    /// was written is what is read.
    pub proof fn lemma_encoding_injective(first: Self, second: Self)
        requires
            first.encoding() == second.encoding(),
        ensures
            first == second,
    {
        lemma_supply_bytes_injective(
            Self::discriminator(),
            first.mint,
            first.authority,
            first.total_mined,
            first.total_burned,
            first.max_supply,
            first.bump,
            second.mint,
            second.authority,
            second.total_mined,
            second.total_burned,
            second.max_supply,
            second.bump,
        );
    }

    /// What was written is what is read: a reading of the stored form of
    /// `value` that is as `from_bytes` promises is `value` itself.
    pub proof fn lemma_written_is_read(value: Self, read: Option<Self>)
        requires
            match read {
                Some(other) => other.encoding() == value.encoding(),
                None => forall|other: Self| #[trigger] other.encoding() != value.encoding(),
            },
        ensures
            read == Some(value),
    {
        match read {
            Some(other) => {
                Self::lemma_encoding_injective(other, value);
            },
            None => {
                assert(value.encoding() == value.encoding());
            },
        }
    }
}

impl game::TreasureVault {
    /// The eight bytes that tell the kind: the first eight of the SHA-256
    /// hash of `account:TreasureVault`.
    pub open spec fn discriminator() -> Seq<u8> {
        seq![189, 24, 23, 23, 249, 198, 191, 97]
    }

    /// The stored form.
    pub open spec fn encoding(self) -> Seq<u8> {
        vault_bytes(
            Self::discriminator(),
            self.authority,
            self.total_hidden,
            self.total_claimed,
            self.bump,
        )
    }

    /// The eight bytes that tell the kind.
    pub fn kind() -> (kind: [u8; 8])
        ensures
            kind@ == Self::discriminator(),
    {
        let kind: [u8; 8] = [189, 24, 23, 23, 249, 198, 191, 97];
        assert(kind@ =~= Self::discriminator());
        kind
    }

    /// Writes the stored form.
    pub fn to_bytes(&self) -> (stored: Vec<u8>)
        ensures
            stored@ == self.encoding(),
            stored@.len() == Self::LEN,
    {
        let kind = Self::kind();
        write_vault(&kind, &self.authority, self.total_hidden, self.total_claimed, self.bump)
    }

    /// Reads a stored form: the value where `bytes` is the stored form of
    /// one, and nothing where it is the stored form of none.
    pub fn from_bytes(bytes: &[u8]) -> (read: Option<Self>)
        ensures
            match read {
                Some(value) => value.encoding() == bytes@,
                None => forall|value: Self| #[trigger] value.encoding() != bytes@,
            },
    {
        let kind = Self::kind();
        match read_vault(bytes, &kind) {
            Some((authority, total_hidden, total_claimed, bump)) => Some(
                Self { authority, total_hidden, total_claimed, bump },
            ),
            None => None,
        }
    }

    /// Two values with the same stored form are the same value, so that what
    /// was written is what is read.
    pub proof fn lemma_encoding_injective(first: Self, second: Self)
        requires
            first.encoding() == second.encoding(),
        ensures
            first == second,
    {
        lemma_vault_bytes_injective(
            Self::discriminator(),
            first.authority,
            first.total_hidden,
            first.total_claimed,
            first.bump,
            second.authority,
            second.total_hidden,
            second.total_claimed,
            second.bump,
        );
    }

    /// What was written is what is read: a reading of the stored form of
    /// `value` that is as `from_bytes` promises is `value` itself.
    pub proof fn lemma_written_is_read(value: Self, read: Option<Self>)
        requires
            match read {
                Some(other) => other.encoding() == value.encoding(),
                None => forall|other: Self| #[trigger] other.encoding() != value.encoding(),
            },
        ensures
            read == Some(value),
    {
        match read {
            Some(other) => {
                Self::lemma_encoding_injective(other, value);
            },
            None => {
                assert(value.encoding() == value.encoding());
            },
        }
    }
}

impl treasure_deposit::TreasureVault {
    /// The eight bytes that tell the kind: the first eight of the SHA-256
    /// hash of `account:TreasureVault`.
    pub open spec fn discriminator() -> Seq<u8> {
        seq![189, 24, 23, 23, 249, 198, 191, 97]
    }

    /// The stored form.
    pub open spec fn encoding(self) -> Seq<u8> {
        vault_bytes(
            Self::discriminator(),
            self.authority,
            self.total_deposits,
            self.total_monsters_minted,
            self.bump,
        )
    }

    /// The eight bytes that tell the kind.
    pub fn kind() -> (kind: [u8; 8])
        ensures
            kind@ == Self::discriminator(),
    {
        let kind: [u8; 8] = [189, 24, 23, 23, 249, 198, 191, 97];
        assert(kind@ =~= Self::discriminator());
        kind
    }

    /// Writes the stored form.
    pub fn to_bytes(&self) -> (stored: Vec<u8>)
        ensures
            stored@ == self.encoding(),
            stored@.len() == Self::LEN,
    {
        let kind = Self::kind();
        write_vault(
            &kind,
            &self.authority,
            self.total_deposits,
            self.total_monsters_minted,
            self.bump,
        )
    }

    /// Reads a stored form: the value where `bytes` is the stored form of
    /// one, and nothing where it is the stored form of none.
    pub fn from_bytes(bytes: &[u8]) -> (read: Option<Self>)
        ensures
            match read {
                Some(value) => value.encoding() == bytes@,
                None => forall|value: Self| #[trigger] value.encoding() != bytes@,
            },
    {
        let kind = Self::kind();
        match read_vault(bytes, &kind) {
            Some((authority, total_deposits, total_monsters_minted, bump)) => Some(
                Self { authority, total_deposits, total_monsters_minted, bump },
            ),
            None => None,
        }
    }

    /// Two values with the same stored form are the same value, so that what
    /// was written is what is read.
    pub proof fn lemma_encoding_injective(first: Self, second: Self)
        requires
            first.encoding() == second.encoding(),
        ensures
            first == second,
    {
        lemma_vault_bytes_injective(
            Self::discriminator(),
            first.authority,
            first.total_deposits,
            first.total_monsters_minted,
            first.bump,
            second.authority,
            second.total_deposits,
            second.total_monsters_minted,
            second.bump,
        );
    }

    /// What was written is what is read: a reading of the stored form of
    /// `value` that is as `from_bytes` promises is `value` itself.
    pub proof fn lemma_written_is_read(value: Self, read: Option<Self>)
        requires
            match read {
                Some(other) => other.encoding() == value.encoding(),
                None => forall|other: Self| #[trigger] other.encoding() != value.encoding(),
            },
        ensures
            read == Some(value),
    {
        match read {
            Some(other) => {
                Self::lemma_encoding_injective(other, value);
            },
            None => {
                assert(value.encoding() == value.encoding());
            },
        }
    }
}

impl game::TreasureRecord {
    /// The eight bytes that tell the kind: the first eight of the SHA-256
    /// hash of `account:TreasureRecord`.
    pub open spec fn discriminator() -> Seq<u8> {
        seq![39, 158, 135, 205, 161, 116, 74, 2]
    }

    /// The stored form.
    pub open spec fn encoding(self) -> Seq<u8> {
        deposit_bytes(
            Self::discriminator(),
            self.player,
            self.amount,
            self.timestamp,
            self.claimed,
            self.tier,
            self.bump,
        )
    }

    /// The eight bytes that tell the kind.
    pub fn kind() -> (kind: [u8; 8])
        ensures
            kind@ == Self::discriminator(),
    {
        let kind: [u8; 8] = [39, 158, 135, 205, 161, 116, 74, 2];
        assert(kind@ =~= Self::discriminator());
        kind
    }

    /// Writes the stored form.
    pub fn to_bytes(&self) -> (stored: Vec<u8>)
        ensures
            stored@ == self.encoding(),
            stored@.len() == Self::LEN,
    {
        let kind = Self::kind();
        write_deposit(
            &kind,
            &self.player,
            self.amount,
            self.timestamp,
            self.claimed,
            self.tier,
            self.bump,
        )
    }

    /// Reads a stored form: the value where `bytes` is the stored form of
    /// one, and nothing where it is the stored form of none.
    pub fn from_bytes(bytes: &[u8]) -> (read: Option<Self>)
        ensures
            match read {
                Some(value) => value.encoding() == bytes@,
                None => forall|value: Self| #[trigger] value.encoding() != bytes@,
            },
    {
        let kind = Self::kind();
        match read_deposit(bytes, &kind) {
            Some((player, amount, timestamp, claimed, tier, bump)) => Some(
                Self { player, amount, timestamp, claimed, tier, bump },
            ),
            None => None,
        }
    }

    /// Two values with the same stored form are the same value, so that what
    /// was written is what is read.
    pub proof fn lemma_encoding_injective(first: Self, second: Self)
        requires
            first.encoding() == second.encoding(),
        ensures
            first == second,
    {
        lemma_deposit_bytes_injective(
            Self::discriminator(),
            first.player,
            first.amount,
            first.timestamp,
            first.claimed,
            first.tier,
            first.bump,
            second.player,
            second.amount,
            second.timestamp,
            second.claimed,
            second.tier,
            second.bump,
        );
    }

    /// What was written is what is read: a reading of the stored form of
    /// `value` that is as `from_bytes` promises is `value` itself.
    pub proof fn lemma_written_is_read(value: Self, read: Option<Self>)
        requires
            match read {
                Some(other) => other.encoding() == value.encoding(),
                None => forall|other: Self| #[trigger] other.encoding() != value.encoding(),
            },
        ensures
            read == Some(value),
    {
        match read {
            Some(other) => {
                Self::lemma_encoding_injective(other, value);
            },
            None => {
                assert(value.encoding() == value.encoding());
            },
        }
    }
}

impl treasure_deposit::DepositRecord {
    /// The eight bytes that tell the kind: the first eight of the SHA-256
    /// hash of `account:DepositRecord`.
    pub open spec fn discriminator() -> Seq<u8> {
        seq![83, 232, 10, 31, 251, 49, 189, 167]
    }

    /// The stored form.
    pub open spec fn encoding(self) -> Seq<u8> {
        deposit_bytes(
            Self::discriminator(),
            self.player,
            self.amount,
            self.timestamp,
            self.claimed,
            self.tier,
            self.bump,
        )
    }

    /// The eight bytes that tell the kind.
    pub fn kind() -> (kind: [u8; 8])
        ensures
            kind@ == Self::discriminator(),
    {
        let kind: [u8; 8] = [83, 232, 10, 31, 251, 49, 189, 167];
        assert(kind@ =~= Self::discriminator());
        kind
    }

    /// Writes the stored form.
    pub fn to_bytes(&self) -> (stored: Vec<u8>)
        ensures
            stored@ == self.encoding(),
            stored@.len() == Self::LEN,
    {
        let kind = Self::kind();
        write_deposit(
            &kind,
            &self.player,
            self.amount,
            self.timestamp,
            self.claimed,
            self.tier,
            self.bump,
        )
    }

    /// Reads a stored form: the value where `bytes` is the stored form of
    /// one, and nothing where it is the stored form of none.
    pub fn from_bytes(bytes: &[u8]) -> (read: Option<Self>)
        ensures
            match read {
                Some(value) => value.encoding() == bytes@,
                None => forall|value: Self| #[trigger] value.encoding() != bytes@,
            },
    {
        let kind = Self::kind();
        match read_deposit(bytes, &kind) {
            Some((player, amount, timestamp, claimed, tier, bump)) => Some(
                Self { player, amount, timestamp, claimed, tier, bump },
            ),
            None => None,
        }
    }

    /// Two values with the same stored form are the same value, so that what
    /// was written is what is read.
    pub proof fn lemma_encoding_injective(first: Self, second: Self)
        requires
            first.encoding() == second.encoding(),
        ensures
            first == second,
    {
        lemma_deposit_bytes_injective(
            Self::discriminator(),
            first.player,
            first.amount,
            first.timestamp,
            first.claimed,
            first.tier,
            first.bump,
            second.player,
            second.amount,
            second.timestamp,
            second.claimed,
            second.tier,
            second.bump,
        );
    }

    /// What was written is what is read: a reading of the stored form of
    /// `value` that is as `from_bytes` promises is `value` itself.
    pub proof fn lemma_written_is_read(value: Self, read: Option<Self>)
        requires
            match read {
                Some(other) => other.encoding() == value.encoding(),
                None => forall|other: Self| #[trigger] other.encoding() != value.encoding(),
            },
        ensures
            read == Some(value),
    {
        match read {
            Some(other) => {
                Self::lemma_encoding_injective(other, value);
            },
            None => {
                assert(value.encoding() == value.encoding());
            },
        }
    }
}

impl game::TokenWhitelist {
    /// The eight bytes that tell the kind: the first eight of the SHA-256
    /// hash of `account:TokenWhitelist`.
    pub open spec fn discriminator() -> Seq<u8> {
        seq![105, 240, 104, 47, 95, 13, 48, 78]
    }

    /// The stored form.
    pub open spec fn encoding(self) -> Seq<u8> {
        whitelist_bytes(Self::discriminator(), self.token_mint, self.enabled, self.bump)
    }

    /// The eight bytes that tell the kind.
    pub fn kind() -> (kind: [u8; 8])
        ensures
            kind@ == Self::discriminator(),
    {
        let kind: [u8; 8] = [105, 240, 104, 47, 95, 13, 48, 78];
        assert(kind@ =~= Self::discriminator());
        kind
    }

    /// Writes the stored form.
    pub fn to_bytes(&self) -> (stored: Vec<u8>)
        ensures
            stored@ == self.encoding(),
            stored@.len() == Self::LEN,
    {
        let kind = Self::kind();
        write_whitelist(&kind, &self.token_mint, self.enabled, self.bump)
    }

    /// Reads a stored form: the value where `bytes` is the stored form of
    /// one, and nothing where it is the stored form of none.
    pub fn from_bytes(bytes: &[u8]) -> (read: Option<Self>)
        ensures
            match read {
                Some(value) => value.encoding() == bytes@,
                None => forall|value: Self| #[trigger] value.encoding() != bytes@,
            },
    {
        let kind = Self::kind();
        match read_whitelist(bytes, &kind) {
            Some((token_mint, enabled, bump)) => Some(
                Self { token_mint, enabled, bump },
            ),
            None => None,
        }
    }

    /// Two values with the same stored form are the same value, so that what
    /// was written is what is read.
    pub proof fn lemma_encoding_injective(first: Self, second: Self)
        requires
            first.encoding() == second.encoding(),
        ensures
            first == second,
    {
        lemma_whitelist_bytes_injective(
            Self::discriminator(),
            first.token_mint,
            first.enabled,
            first.bump,
            second.token_mint,
            second.enabled,
            second.bump,
        );
    }

    /// What was written is what is read: a reading of the stored form of
    /// `value` that is as `from_bytes` promises is `value` itself.
    pub proof fn lemma_written_is_read(value: Self, read: Option<Self>)
        requires
            match read {
                Some(other) => other.encoding() == value.encoding(),
                None => forall|other: Self| #[trigger] other.encoding() != value.encoding(),
            },
        ensures
            read == Some(value),
    {
        match read {
            Some(other) => {
                Self::lemma_encoding_injective(other, value);
            },
            None => {
                assert(value.encoding() == value.encoding());
            },
        }
    }
}

impl treasure_deposit::TokenWhitelist {
    /// The eight bytes that tell the kind: the first eight of the SHA-256
    /// hash of `account:TokenWhitelist`.
    pub open spec fn discriminator() -> Seq<u8> {
        seq![105, 240, 104, 47, 95, 13, 48, 78]
    }

    /// The stored form.
    pub open spec fn encoding(self) -> Seq<u8> {
        whitelist_bytes(Self::discriminator(), self.token_mint, self.enabled, self.bump)
    }

    /// The eight bytes that tell the kind.
    pub fn kind() -> (kind: [u8; 8])
        ensures
            kind@ == Self::discriminator(),
    {
        let kind: [u8; 8] = [105, 240, 104, 47, 95, 13, 48, 78];
        assert(kind@ =~= Self::discriminator());
        kind
    }

    /// Writes the stored form.
    pub fn to_bytes(&self) -> (stored: Vec<u8>)
        ensures
            stored@ == self.encoding(),
            stored@.len() == Self::LEN,
    {
        let kind = Self::kind();
        write_whitelist(&kind, &self.token_mint, self.enabled, self.bump)
    }

    /// Reads a stored form: the value where `bytes` is the stored form of
    /// one, and nothing where it is the stored form of none.
    pub fn from_bytes(bytes: &[u8]) -> (read: Option<Self>)
        ensures
            match read {
                Some(value) => value.encoding() == bytes@,
                None => forall|value: Self| #[trigger] value.encoding() != bytes@,
            },
    {
        let kind = Self::kind();
        match read_whitelist(bytes, &kind) {
            Some((token_mint, enabled, bump)) => Some(
                Self { token_mint, enabled, bump },
            ),
            None => None,
        }
    }

    /// Two values with the same stored form are the same value, so that what
    /// was written is what is read.
    pub proof fn lemma_encoding_injective(first: Self, second: Self)
        requires
            first.encoding() == second.encoding(),
        ensures
            first == second,
    {
        lemma_whitelist_bytes_injective(
            Self::discriminator(),
            first.token_mint,
            first.enabled,
            first.bump,
            second.token_mint,
            second.enabled,
            second.bump,
        );
    }

    /// What was written is what is read: a reading of the stored form of
    /// `value` that is as `from_bytes` promises is `value` itself.
    pub proof fn lemma_written_is_read(value: Self, read: Option<Self>)
        requires
            match read {
                Some(other) => other.encoding() == value.encoding(),
                None => forall|other: Self| #[trigger] other.encoding() != value.encoding(),
            },
        ensures
            read == Some(value),
    {
        match read {
            Some(other) => {
                Self::lemma_encoding_injective(other, value);
            },
            None => {
                assert(value.encoding() == value.encoding());
            },
        }
    }
}

impl game::SearchRecord {
    /// The eight bytes that tell the kind: the first eight of the SHA-256
    /// hash of `account:SearchRecord`.
    pub open spec fn discriminator() -> Seq<u8> {
        seq![44, 229, 211, 14, 199, 72, 107, 6]
    }

    /// The stored form.
    pub open spec fn encoding(self) -> Seq<u8> {
        search_bytes(
            Self::discriminator(),
            self.player,
            self.x,
            self.y,
            self.timestamp,
            self.found,
            self.bump,
        )
    }

    /// The eight bytes that tell the kind.
    pub fn kind() -> (kind: [u8; 8])
        ensures
            kind@ == Self::discriminator(),
    {
        let kind: [u8; 8] = [44, 229, 211, 14, 199, 72, 107, 6];
        assert(kind@ =~= Self::discriminator());
        kind
    }

    /// Writes the stored form.
    pub fn to_bytes(&self) -> (stored: Vec<u8>)
        ensures
            stored@ == self.encoding(),
            stored@.len() == Self::LEN,
    {
        let kind = Self::kind();
        write_search(&kind, &self.player, self.x, self.y, self.timestamp, self.found, self.bump)
    }

    /// Reads a stored form: the value where `bytes` is the stored form of
    /// one, and nothing where it is the stored form of none.
    pub fn from_bytes(bytes: &[u8]) -> (read: Option<Self>)
        ensures
            match read {
                Some(value) => value.encoding() == bytes@,
                None => forall|value: Self| #[trigger] value.encoding() != bytes@,
            },
    {
        let kind = Self::kind();
        match read_search(bytes, &kind) {
            Some((player, x, y, timestamp, found, bump)) => Some(
                Self { player, x, y, timestamp, found, bump },
            ),
            None => None,
        }
    }

    /// Two values with the same stored form are the same value, so that what
    /// was written is what is read.
    pub proof fn lemma_encoding_injective(first: Self, second: Self)
        requires
            first.encoding() == second.encoding(),
        ensures
            first == second,
    {
        lemma_search_bytes_injective(
            Self::discriminator(),
            first.player,
            first.x,
            first.y,
            first.timestamp,
            first.found,
            first.bump,
            second.player,
            second.x,
            second.y,
            second.timestamp,
            second.found,
            second.bump,
        );
    }

    /// What was written is what is read: a reading of the stored form of
    /// `value` that is as `from_bytes` promises is `value` itself.
    pub proof fn lemma_written_is_read(value: Self, read: Option<Self>)
        requires
            match read {
                Some(other) => other.encoding() == value.encoding(),
                None => forall|other: Self| #[trigger] other.encoding() != value.encoding(),
            },
        ensures
            read == Some(value),
    {
        match read {
            Some(other) => {
                Self::lemma_encoding_injective(other, value);
            },
            None => {
                assert(value.encoding() == value.encoding());
            },
        }
    }
}

} // verus!
