//! Wallet core of Dannesk: PIN records, asset tables, amount conversion,
//! XRP Ledger address derivation and the decisions taken on the messages
//! exchanged with the wallet backend.

pub mod text;
pub mod numbers;
pub mod amounts;
pub mod crypto;
pub mod pin;
pub mod pin_screen;
pub mod assets;
pub mod json;
pub mod rates;
pub mod ws;
pub mod state;
pub mod wallet;
pub mod bridge;
pub mod create_flow;
pub mod seed_entry;
pub mod signing;
pub mod codec;
pub mod progress;
pub mod screens;
pub mod timestamps;
pub mod tx_cards;
