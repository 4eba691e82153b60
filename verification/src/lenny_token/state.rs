//! What the second taxed token remembers beside the first one's state.

use crate::cremation_token::state::State as TokenState;
use vstd::prelude::*;

verus! {

/// The token's whole state: that of a taxed token, and the token that
/// collected tax is meant to be swapped to.
#[derive(Debug)]
pub struct State {
    pub token: TokenState,
    pub swap_tax_to_token: String,
}

impl State {
    /// Whether the state is one that the token's own functions produce.
    pub open spec fn wf(self) -> bool {
        self.token.wf()
    }
}

} // verus!
