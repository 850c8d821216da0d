//! Properties of the profit model and of the covered-call figures, proved
//! over the spec functions that the executable functions' contracts use.

use vstd::prelude::*;

use crate::strategy::{covered_call_figures, net_units, CoveredCall, OptionContract, UnderlyingAsset};
use crate::{OptionType, Position};

verus! {

/// How much profit rises per net unit of settlement price above the strike.
pub open spec fn slope_above(option_type: OptionType, position: Position) -> int {
    match option_type {
        OptionType::Call => match position {
            Position::Long => 1,
            Position::Short => -1,
        },
        OptionType::Put => 0,
    }
}

/// How much profit rises per net unit of settlement price below the strike.
pub open spec fn slope_below(option_type: OptionType, position: Position) -> int {
    match option_type {
        OptionType::Call => 0,
        OptionType::Put => match position {
            Position::Long => -1,
            Position::Short => 1,
        },
    }
}

/// With no long commission, the net bid price is the bid quote itself.
pub proof fn lemma_net_bid_at_zero_commission(o: OptionContract)
    requires
        o.commission.long == 0,
    ensures
        o.net_bid_spec() == net_units(o.bid_price as int),
{
}

/// With no short commission, the option's net ask price is its bid quote
/// (the bid, not the ask).
pub proof fn lemma_net_ask_at_zero_commission(o: OptionContract)
    requires
        o.commission.short == 0,
    ensures
        o.net_ask_spec() == net_units(o.bid_price as int),
{
}

/// Profit is continuous and piecewise linear in the settlement price, with
/// one slope above the strike and another below it, so that its only bend
/// lies at the strike.
pub proof fn lemma_profit_piecewise_linear(o: OptionContract, position: Position, st: int)
    ensures
        st >= net_units(o.k as int) ==> o.profit_spec(st, position) == o.profit_spec(
            net_units(o.k as int),
            position,
        ) + slope_above(o.option_type, position) * (st - net_units(o.k as int)),
        st <= net_units(o.k as int) ==> o.profit_spec(st, position) == o.profit_spec(
            net_units(o.k as int),
            position,
        ) + slope_below(o.option_type, position) * (st - net_units(o.k as int)),
        slope_above(o.option_type, position) != slope_below(o.option_type, position),
{
}

/// A long call gains exactly what the settlement price gains above the strike.
pub proof fn lemma_long_call_slope_above_strike(o: OptionContract, x: int)
    requires
        o.option_type == OptionType::Call,
        x >= 0,
    ensures
        o.profit_spec(net_units(o.k as int) + x, Position::Long) - o.profit_spec(
            net_units(o.k as int),
            Position::Long,
        ) == x,
{
}

/// A short position's profit is the long position's profit negated, shifted
/// by the gap between the premium a seller receives (ask less the short
/// commission) and the premium a buyer pays (bid plus the long commission).
pub proof fn lemma_short_against_long(o: OptionContract, st: int)
    ensures
        o.profit_spec(st, Position::Short) == -o.profit_spec(st, Position::Long) + (
        o.short_premium() - o.net_bid_spec()),
{
}

/// The figures of a covered call are fixed by its two inputs: two results
/// for the same option and asset are identical.
pub proof fn lemma_covered_call_determined(
    r1: CoveredCall,
    r2: CoveredCall,
    call: OptionContract,
    ua: UnderlyingAsset,
)
    requires
        covered_call_figures(r1, call, ua),
        covered_call_figures(r2, call, ua),
    ensures
        r1 == r2,
{
}

} // verus!
