//! The `type` oneof of an `Event`.

use vstd::prelude::*;
use crate::uniswap::{Burn, Mint, Swap};

verus! {

/// Which kind of pool event an `Event` carries.
#[derive(Clone, Debug)]
pub enum Type {
    Swap(Swap),
    Burn(Burn),
    Mint(Mint),
}

} // verus!
