use vstd::prelude::*;

pub mod server;
pub mod store;
pub mod text;
pub mod utils;

verus! {

} // verus!
