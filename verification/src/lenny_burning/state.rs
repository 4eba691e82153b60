//! What the token burner remembers between messages.

use crate::book::AddrMap;
use crate::lenny_burning::msg::{BurnLimit, BurnedToday, RewardInfo};
use vstd::prelude::*;

verus! {

/// The burner's whole state.
#[derive(Debug)]
pub struct State {
    /// Who may change the configuration.
    pub owner: String,
    /// Who receives the reward share.
    pub reward_address: String,
    /// The refund and reward shares.
    pub reward_info: RewardInfo,
    /// The running figure reported as burned. Every burn adds the figure to
    /// itself, so that a figure of zero stays zero.
    pub burned_amount: u128,
    /// The limits and the length of a window.
    pub burn_limit: BurnLimit,
    /// The window of all burns.
    pub total_burned_today: BurnedToday,
    /// The window of each address that has burned.
    pub burned_today_by_address: AddrMap<BurnedToday>,
}

impl State {
    /// Whether the state is one that the burner's own functions produce.
    pub open spec fn wf(self) -> bool {
        self.burned_today_by_address.wf()
    }

    /// The window of `addr`: the one on file, or an empty one beginning at
    /// the second `now` where none is.
    pub open spec fn window_of(self, addr: Seq<char>, now: u64) -> BurnedToday {
        if self.burned_today_by_address.model().contains_key(addr) {
            self.burned_today_by_address.model()[addr]
        } else {
            BurnedToday { amount: 0, latest_burned: now }
        }
    }
}

} // verus!
