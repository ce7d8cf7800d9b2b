//! What callers can rely on, said of the functions themselves.
//!
//! Each law speaks of what a function may return: `call_ensures(f, args, r)` holds of
//! every result `r` that `f` can give for `args`. The statements are over the inputs
//! and results alone: what is found under a key, what one call makes of another's
//! result, how two calls compare.
pub mod admission;
pub mod containers;
pub mod documents;
pub mod exchange;
pub mod instants;
pub mod jobs;
pub mod market;
pub mod minting;
pub mod numbers;
pub mod pods;
pub mod providers;
pub mod receipts;
pub mod replies;
pub mod serverless;
pub mod texts;
pub mod tokens;
