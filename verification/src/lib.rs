//! The accounting core of a treasure-hunt game economy: a capped reward-token
//! supply, a deposit-and-claim vault, a token whitelist, a search ledger and
//! the issuing of collectibles, as transitions on plain account values.
//!
//! Each of the four programs has a module of its own: `booty`, `dotty_nft`,
//! `game` and `treasure_deposit`. An instruction's handler takes the accounts
//! of the instruction as plain values and changes them as the instruction
//! does, or refuses and changes nothing. What a handler does is stated by a
//! specification function beside it, and what holds across several
//! instructions by the lemmas that follow.
//!
//! A handler that needs another program says so and is run again with what
//! came of it (`cpi`). Accounts are found at addresses derived from seeds
//! (`pubkey`), kept by address (`ledger`), and stored as bytes (`layout`,
//! `stored`).

pub mod booty;
pub mod collectible;
pub mod cpi;
pub mod dotty_nft;
pub mod error;
pub mod game;
pub mod layout;
pub mod ledger;
pub mod pubkey;
pub mod stored;
pub mod supply;
pub mod treasure_deposit;
