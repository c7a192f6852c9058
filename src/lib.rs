//! A safe, verified object model over the SoLoud audio engine: error codes,
//! native code tables, owned engine handles, and the decisions each engine
//! call makes before and after it crosses the boundary.
pub mod codes;
pub mod error;
pub mod filter;
pub mod handle;
pub mod load;
pub mod slots;
