//! Fixed-point ledger balances built on the `FixedU128` primitive of
//! `sp_arithmetic`.

pub mod balance;
pub mod codec;
pub mod convert;
pub mod laws;
pub mod ops;
pub mod order;
pub mod primitive;
pub mod text;
pub mod wide;

pub use balance::Balance;
pub use convert::ConvertError;
pub use text::ParseError;
pub use wide::Uint256;
