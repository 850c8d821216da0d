use vstd::prelude::*;

use crate::{OptionType, Position};

verus! {

/// Parts per million: a commission rate of `RATE_SCALE` is one whole price.
pub const RATE_SCALE: i64 = 1_000_000;

/// Every net amount that a quote can give lies within this bound (two to the 96th).
pub const NET_BOUND: i128 = 79_228_162_514_264_337_593_543_950_336;

/// A whole number of ticks, expressed in the millionths of a tick that net amounts use.
pub open spec fn net_units(ticks: int) -> int {
    ticks * RATE_SCALE
}

/// A price raised by a commission rate: `price * (1 + rate)` in net units.
pub open spec fn marked_up(price: int, rate: int) -> int {
    price * (RATE_SCALE + rate)
}

/// A price lowered by a commission rate: `price * (1 - rate)` in net units.
pub open spec fn marked_down(price: int, rate: int) -> int {
    price * (RATE_SCALE - rate)
}

/// What an option is worth when exercised, given how far the settlement lies above the strike.
pub open spec fn intrinsic_value(option_type: OptionType, distance: int) -> int {
    match option_type {
        OptionType::Call => if distance > 0 { distance } else { 0 },
        OptionType::Put => if distance < 0 { -distance } else { 0 },
    }
}

/// `v` lies within `NET_BOUND` on either side of zero.
pub open spec fn within_net_bound(v: int) -> bool {
    -NET_BOUND <= v <= NET_BOUND
}

/// A quote in ticks times a commission factor stays well within `NET_BOUND`.
pub proof fn lemma_net_amount_bounded(price: int, factor: int)
    requires
        i64::MIN <= price <= i64::MAX,
        -0x1_0000_0000 <= factor <= 0x1_0000_0000,
    ensures
        -NET_BOUND / 2 <= price * factor <= NET_BOUND / 2,
{
    assert(-0x8000_0000_0000_0000 * 0x1_0000_0000 <= price * factor <= 0x8000_0000_0000_0000
        * 0x1_0000_0000) by (nonlinear_arith)
        requires
            -0x8000_0000_0000_0000 <= price <= 0x8000_0000_0000_0000,
            -0x1_0000_0000 <= factor <= 0x1_0000_0000,
    ;
}

/// Commission rates, in parts per million, for buying (long) and selling (short).
#[derive(Clone, Copy, Debug, PartialEq, Eq, Structural)]
pub struct Commission {
    pub long: i32,
    pub short: i32,
}

/// The quoted state of one option contract.
///
/// Identifiers, dates, volumes, `contract_size` and `t` are carried for the
/// caller and read by no formula here.
#[derive(Clone, Debug)]
pub struct OptionContract {
    pub option_type: OptionType,
    pub ins_code: String,
    pub name: String,
    pub symbol: String,
    pub contract_size: i64,
    pub begin_date: String,
    pub end_date: String,
    /// The strike, in ticks.
    pub k: i64,
    pub t: i64,
    pub bid_price: i64,
    pub bid_vol: i64,
    pub ask_price: i64,
    pub ask_vol: i64,
    pub commission: Commission,
}

impl OptionContract {
    pub open spec fn net_bid_spec(&self) -> int {
        marked_up(self.bid_price as int, self.commission.long as int)
    }

    /// Reads the bid quote, as `net_ask_price` does.
    pub open spec fn net_ask_spec(&self) -> int {
        marked_down(self.bid_price as int, self.commission.short as int)
    }

    /// The premium a seller receives: the ask quote less the short commission.
    pub open spec fn short_premium(&self) -> int {
        marked_down(self.ask_price as int, self.commission.short as int)
    }

    /// Profit at settlement price `st` (in net units) of a position in this option.
    pub open spec fn profit_spec(&self, st: int, position: Position) -> int {
        let intrinsic = intrinsic_value(self.option_type, st - net_units(self.k as int));
        match position {
            Position::Long => intrinsic - self.net_bid_spec(),
            Position::Short => self.short_premium() - intrinsic,
        }
    }

    /// The bid quote raised by the long commission, in net units.
    pub fn net_bid_price(&self) -> (r: i128)
        ensures
            r == self.net_bid_spec(),
            within_net_bound(r as int),
    {
        let factor: i128 = RATE_SCALE as i128 + self.commission.long as i128;
        proof {
            lemma_net_amount_bounded(self.bid_price as int, factor as int);
        }
        self.bid_price as i128 * factor
    }

    /// The bid quote (not the ask) lowered by the short commission, in net units.
    pub fn net_ask_price(&self) -> (r: i128)
        ensures
            r == self.net_ask_spec(),
            within_net_bound(r as int),
    {
        let factor: i128 = RATE_SCALE as i128 - self.commission.short as i128;
        proof {
            lemma_net_amount_bounded(self.bid_price as int, factor as int);
        }
        self.bid_price as i128 * factor
    }

    /// Profit of a long or short position at settlement price `st`, in net units.
    pub fn profit(&self, st: i128, position: Position) -> (r: i128)
        requires
            within_net_bound(st as int),
        ensures
            r == self.profit_spec(st as int, position),
    {
        proof {
            lemma_net_amount_bounded(self.k as int, RATE_SCALE as int);
        }
        let distance: i128 = st - self.k as i128 * RATE_SCALE as i128;
        let p: i128 = match position {
            Position::Long => {
                let net_premium = self.net_bid_price();
                match self.option_type {
                    OptionType::Call => positive_part(distance) - net_premium,
                    OptionType::Put => positive_part(-distance) - net_premium,
                }
            },
            Position::Short => {
                let factor: i128 = RATE_SCALE as i128 - self.commission.short as i128;
                proof {
                    lemma_net_amount_bounded(self.ask_price as int, factor as int);
                }
                let net_premium: i128 = self.ask_price as i128 * factor;
                match self.option_type {
                    OptionType::Call => -positive_part(distance) + net_premium,
                    OptionType::Put => -positive_part(-distance) + net_premium,
                }
            },
        };
        p
    }
}

/// `x` when it is positive, else zero.
fn positive_part(x: i128) -> (r: i128)
    ensures
        r == if x > 0 { x } else { 0 },
{
    if x > 0 {
        x
    } else {
        0
    }
}

/// The quoted state of the instrument that an option is written on.
#[derive(Clone, Debug)]
pub struct UnderlyingAsset {
    pub ins_code: String,
    pub symbol: String,
    pub ask_price: i64,
    pub ask_vol: i64,
    pub bid_price: i64,
    pub bid_vol: i64,
    pub commission: Commission,
}

impl UnderlyingAsset {
    /// Reads the bid quote, as `net_ask_price` does.
    pub open spec fn net_ask_spec(&self) -> int {
        marked_down(self.bid_price as int, self.commission.short as int)
    }

    /// The bid quote (not the ask) lowered by the short commission, in net units.
    pub fn net_ask_price(&self) -> (r: i128)
        ensures
            r == self.net_ask_spec(),
            within_net_bound(r as int),
    {
        let factor: i128 = RATE_SCALE as i128 - self.commission.short as i128;
        proof {
            lemma_net_amount_bounded(self.bid_price as int, factor as int);
        }
        self.bid_price as i128 * factor
    }
}

/// The figures of a covered call, each in net units (millionths of a tick)
/// per unit of the underlying.
#[derive(Clone, Copy, Debug, PartialEq, Eq, Structural)]
pub struct CoveredCall {
    pub max_pot_profit: i128,
    pub max_pot_loss: i128,
    pub break_even: i128,
    pub current_profit: i128,
}

/// `r` holds the four figures of a covered call on `call` and `ua`, each
/// computed from the two quotes alone.
pub open spec fn covered_call_figures(r: CoveredCall, call: OptionContract, ua: UnderlyingAsset) -> bool {
    &&& r.max_pot_profit == net_units(call.k as int) - ua.net_ask_spec() + call.net_bid_spec()
    &&& r.max_pot_loss == call.net_bid_spec() - ua.net_ask_spec()
    &&& r.break_even == ua.net_ask_spec() - call.net_bid_spec()
    &&& r.current_profit == call.profit_spec(ua.net_ask_spec(), Position::Short)
}

/// Figures of holding `ua` while short `call`: the profit if the asset is
/// called away at the strike, the premium less the asset's cost, the price
/// at which the position breaks even, and the call marked at the asset's
/// net price.
pub fn covered_call(call: OptionContract, ua: UnderlyingAsset) -> (r: CoveredCall)
    ensures
        covered_call_figures(r, call, ua),
{
    proof {
        lemma_net_amount_bounded(call.k as int, RATE_SCALE as int);
    }
    let max_pot_profit = call.k as i128 * RATE_SCALE as i128 - ua.net_ask_price()
        + call.net_bid_price();
    let max_pot_loss = call.net_bid_price() - ua.net_ask_price();
    let break_even = ua.net_ask_price() - call.net_bid_price();
    let current_profit = call.profit(ua.net_ask_price(), Position::Short);
    CoveredCall { max_pot_profit, max_pot_loss, break_even, current_profit }
}

} // verus!
