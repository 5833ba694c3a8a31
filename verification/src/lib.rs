use vstd::prelude::*;

pub mod balance;
pub mod desktop;
pub mod error;
pub mod http;
pub mod keyed;
pub mod monitor;
pub mod text;

verus! {

} // verus!
