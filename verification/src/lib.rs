pub mod asset;
pub mod burn;
pub mod errors;
pub mod keys;
pub mod mint;
pub mod pda;
pub mod transfer;
pub mod tree;
pub mod vault;
pub mod whitelist;
