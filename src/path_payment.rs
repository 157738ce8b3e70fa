use vstd::prelude::*;

verus! {

/// Units of XLM quoted for one unit of the destination asset.
pub const XLM_RATE: i128 = 5;

/// Units of NGN quoted for one unit of the destination asset.
pub const NGN_RATE: i128 = 1600;

/// The allowance by which a quoted cost falls under the sender's maximum.
pub const SLIPPAGE_MARGIN: i128 = 100;

/// A way to pay a fixed destination amount from a source asset: the source
/// asset, what it costs in it, the intermediate assets (none for a direct
/// path), and the amount received.
#[derive(Clone, Debug, PartialEq, Eq)]
pub struct PaymentPath {
    pub source_asset: String,
    pub source_amount: i128,
    pub path: Vec<String>,
    pub destination_amount: i128,
}

/// The quote of a direct path from `asset` at `rate` units per unit received.
pub open spec fn is_direct_quote(
    p: PaymentPath,
    asset: Seq<char>,
    rate: int,
    destination_amount: int,
) -> bool {
    &&& p.source_asset@ == asset
    &&& p.source_amount == destination_amount * rate
    &&& p.path@.len() == 0
    &&& p.destination_amount == destination_amount
}

/// Quotes and settles strict-receive path payments at fixed rates.
pub struct PathPayment;

impl PathPayment {
    /// The paths that deliver exactly `destination_amount`: a direct one
    /// from XLM, then a direct one from NGN, each at its fixed rate.
    pub fn find_strict_receive_paths(
        _source_assets: &Vec<String>,
        _destination_asset: &String,
        destination_amount: i128,
    ) -> (r: Vec<PaymentPath>)
        requires
            i128::MIN <= destination_amount * NGN_RATE <= i128::MAX,
        ensures
            r@.len() == 2,
            is_direct_quote(r@[0], "XLM"@, XLM_RATE as int, destination_amount as int),
            is_direct_quote(r@[1], "NGN"@, NGN_RATE as int, destination_amount as int),
    {
        let mut paths: Vec<PaymentPath> = Vec::new();
        paths.push(
            PaymentPath {
                source_asset: "XLM".to_owned(),
                source_amount: destination_amount * XLM_RATE,
                path: Vec::new(),
                destination_amount,
            },
        );
        paths.push(
            PaymentPath {
                source_asset: "NGN".to_owned(),
                source_amount: destination_amount * NGN_RATE,
                path: Vec::new(),
                destination_amount,
            },
        );
        paths
    }

    /// Settles a payment along `item` for a sender who will spend at most
    /// `send_max`: the amount spent, or `None` when the quoted cost exceeds
    /// `send_max`. The cost is quoted as `send_max` less the slippage margin,
    /// so it always stays within bounds and the payment settles.
    pub fn execute_path_payment(_item: &PaymentPath, send_max: i128) -> (r: Option<i128>)
        requires
            send_max >= i128::MIN + SLIPPAGE_MARGIN,
        ensures
            r == Some((send_max - SLIPPAGE_MARGIN) as i128),
    {
        let current_required = send_max - SLIPPAGE_MARGIN;
        if current_required > send_max {
            return None;
        }
        Some(current_required)
    }
}

} // verus!
