pub mod account;
pub mod address;
pub mod block;
pub mod bytes;
pub mod config;
pub mod ecdsa;
pub mod evm;
pub mod executor;
pub mod hashing;
pub mod kvmap;
pub mod operation;
pub mod parser;
pub mod rlp;
pub mod state;
pub mod storage;
pub mod transaction;
pub mod u256;
pub mod wallet;

pub use u256::U256;
