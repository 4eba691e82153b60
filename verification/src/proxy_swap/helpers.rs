//! Building the hop list of a routed swap.

use crate::cremation_token::msg::{AssetInfo, RouterExecuteMsg, SwapOperation};
use vstd::prelude::*;

verus! {

/// The hops that lead from `offer` through each asset of `paths` in turn to
/// `ask`: one more hop than there are intermediate assets.
pub open spec fn swap_route(offer: AssetInfo, ask: AssetInfo, paths: Seq<AssetInfo>) -> Seq<
    SwapOperation,
> {
    Seq::new(
        paths.len() + 1,
        |i: int|
            SwapOperation::TerraPort {
                offer_asset_info: if i == 0 {
                    offer
                } else {
                    paths[i - 1]
                },
                ask_asset_info: if i == paths.len() {
                    ask
                } else {
                    paths[i]
                },
            },
    )
}

/// The router request that swaps `offer_asset` to `ask_asset` by way of
/// `swap_paths`, with no recipient, floor or deadline set.
pub fn create_swap_operations(
    offer_asset: AssetInfo,
    ask_asset: AssetInfo,
    swap_paths: Vec<AssetInfo>,
) -> (r: RouterExecuteMsg)
    ensures
        r.operations() == swap_route(offer_asset, ask_asset, swap_paths@),
        r.is_plain(),
{
    let mut operations: Vec<SwapOperation> = Vec::new();
    let n = swap_paths.len();
    let mut i: usize = 0;
    while i < n
        invariant
            n == swap_paths@.len(),
            i <= n,
            operations@.len() == i,
            forall|k: int|
                0 <= k < i ==> operations@[k] == swap_route(offer_asset, ask_asset, swap_paths@)[k],
        decreases n - i,
    {
        let offer_asset_info = if i == 0 {
            offer_asset.clone()
        } else {
            swap_paths[i - 1].clone()
        };
        let ask_asset_info = swap_paths[i].clone();
        operations.push(SwapOperation::TerraPort { offer_asset_info, ask_asset_info });
        i += 1;
    }
    let offer_asset_info = if n == 0 {
        offer_asset
    } else {
        swap_paths[n - 1].clone()
    };
    operations.push(SwapOperation::TerraPort { offer_asset_info, ask_asset_info: ask_asset });
    proof {
        assert(operations@ =~= swap_route(offer_asset, ask_asset, swap_paths@));
    }
    RouterExecuteMsg::ExecuteSwapOperations {
        operations,
        to: None,
        minimum_receive: None,
        deadline: None,
    }
}

} // verus!
