pub mod bignum;
pub mod fp;
pub mod tower;
pub mod trace;
pub mod constraints;
