//! Valuation helpers for European-style vanilla options: break-even points
//! and expiry payoffs for long or short call and put positions.
//!
//! Monetary amounts (strike, spot, premium, results) are integer multiples of
//! a fixed currency unit, so the validated arithmetic here is exact. Each
//! helper checks its inputs in a fixed order (strike, then stock, then
//! premium) and reports the first violated check as a [`MathError`].

use vstd::prelude::*;

verus! {

/// Validation failures of the valuation helpers. Each helper rejects a
/// negative amount and names the first offending input.
#[derive(Clone, Copy, Debug, PartialEq, Eq, Structural)]
pub enum MathError {
    NonPositiveStrike,
    NonPositiveStock,
    NonPositivePremium,
}

/// A valuation outcome: a monetary amount in currency units per share, or the
/// first violated input check.
pub type MathResult = Result<i64, MathError>;

/// The two kinds of vanilla option contracts.
#[derive(Clone, Copy, Debug, PartialEq, Eq, Structural)]
pub enum OptionKind {
    Call,
    Put,
}

/// The side of an option position.
#[derive(Clone, Copy, Debug, PartialEq, Eq, Structural)]
pub enum Position {
    Long,
    Short,
}

/// The premium a computation uses: an absent premium counts as zero.
pub open spec fn premium_or_zero(premium: Option<i64>) -> int {
    match premium {
        Some(p) => p as int,
        None => 0,
    }
}

/// Spot price at which a position entered at the given premium neither gains
/// nor loses: above the strike for a call, below it for a put.
pub open spec fn break_even_spec(opt: OptionKind, strike: int, premium: int) -> int {
    match opt {
        OptionKind::Call => strike + premium,
        OptionKind::Put => strike - premium,
    }
}

/// Everything [`break_even_point`] promises of its result: the first negative
/// input is reported, in the order strike then premium, and otherwise the
/// result is exactly [`break_even_spec`].
pub open spec fn break_even_post(
    opt: OptionKind,
    strike: i64,
    premium: Option<i64>,
    r: MathResult,
) -> bool {
    if strike < 0 {
        r == MathResult::Err(MathError::NonPositiveStrike)
    } else if premium_or_zero(premium) < 0 {
        r == MathResult::Err(MathError::NonPositivePremium)
    } else {
        r matches Ok(v) && v == break_even_spec(opt, strike as int, premium_or_zero(premium))
    }
}

/// Price of the underlying at which the contract can be exercised or disposed
/// of without a loss. Takes the strike price and the premium, both in
/// currency units per share; an absent premium counts as zero.
pub fn break_even_point(opt: OptionKind, strike: i64, premium: Option<i64>) -> (r: MathResult)
    requires
        strike >= 0 && premium_or_zero(premium) >= 0 ==> i64::MIN
            <= break_even_spec(opt, strike as int, premium_or_zero(premium)) <= i64::MAX,
    ensures
        break_even_post(opt, strike, premium, r),
{
    if strike < 0 {
        return Err(MathError::NonPositiveStrike);
    }
    let premium: i64 = premium.unwrap_or(0);
    if premium < 0 {
        return Err(MathError::NonPositivePremium);
    }
    match opt {
        OptionKind::Call => Ok(strike + premium),
        OptionKind::Put => Ok(strike - premium),
    }
}

/// What exercising the option at the given spot price is worth: the gain over
/// the strike for a call, under it for a put, and never less than zero.
pub open spec fn intrinsic_value(opt: OptionKind, strike: int, stock: int) -> int {
    match opt {
        OptionKind::Call => if stock - strike > 0 {
            stock - strike
        } else {
            0
        },
        OptionKind::Put => if strike - stock > 0 {
            strike - stock
        } else {
            0
        },
    }
}

/// Profit or loss of a position at a given spot price: the holder of a long
/// position earns the intrinsic value, the writer of a short position keeps
/// the premium less the intrinsic value.
pub open spec fn payoff_spec(
    pos: Position,
    opt: OptionKind,
    strike: int,
    stock: int,
    premium: int,
) -> int {
    match pos {
        Position::Long => intrinsic_value(opt, strike, stock),
        Position::Short => premium - intrinsic_value(opt, strike, stock),
    }
}

/// Everything [`payoff`] promises of its result: the first negative input is
/// reported, in the order strike, then stock, then premium, and otherwise the
/// result is exactly [`payoff_spec`].
pub open spec fn payoff_post(
    pos: Position,
    opt: OptionKind,
    strike: i64,
    stock: i64,
    premium: Option<i64>,
    r: MathResult,
) -> bool {
    if strike < 0 {
        r == MathResult::Err(MathError::NonPositiveStrike)
    } else if stock < 0 {
        r == MathResult::Err(MathError::NonPositiveStock)
    } else if premium_or_zero(premium) < 0 {
        r == MathResult::Err(MathError::NonPositivePremium)
    } else {
        r matches Ok(v) && v == payoff_spec(
            pos,
            opt,
            strike as int,
            stock as int,
            premium_or_zero(premium),
        )
    }
}

/// Profit or loss from holding (long) or writing (short) the option, at the
/// given strike and spot prices and for the given premium, all in currency
/// units per share; an absent premium counts as zero.
pub fn payoff(
    pos: Position,
    opt: OptionKind,
    strike: i64,
    stock: i64,
    premium: Option<i64>,
) -> (r: MathResult)
    ensures
        payoff_post(pos, opt, strike, stock, premium, r),
{
    if strike < 0 {
        return Err(MathError::NonPositiveStrike);
    }
    if stock < 0 {
        return Err(MathError::NonPositiveStock);
    }
    let premium: i64 = premium.unwrap_or(0);
    if premium < 0 {
        return Err(MathError::NonPositivePremium);
    }

    let diff: i64 = match opt {
        OptionKind::Call => stock - strike,
        OptionKind::Put => strike - stock,
    };
    let gain: i64 = if diff > 0 {
        diff
    } else {
        0
    };
    match pos {
        Position::Long => Ok(gain),
        Position::Short => Ok(premium - gain),
    }
}

/// Slope of the payoff in the spot price while the spot is below the strike:
/// there a call is worthless, so only a put position moves with the spot.
pub open spec fn slope_below_strike(pos: Position, opt: OptionKind) -> int {
    match opt {
        OptionKind::Call => 0,
        OptionKind::Put => match pos {
            Position::Long => -1,
            Position::Short => 1,
        },
    }
}

/// Slope of the payoff in the spot price while the spot is above the strike:
/// there a put is worthless, so only a call position moves with the spot.
pub open spec fn slope_above_strike(pos: Position, opt: OptionKind) -> int {
    match opt {
        OptionKind::Call => match pos {
            Position::Long => 1,
            Position::Short => -1,
        },
        OptionKind::Put => 0,
    }
}

/// For every position and option kind, the payoff is a piecewise-linear,
/// continuous function of the spot price with a single kink at
/// spot == strike: on each closed side of the strike it is affine in the spot
/// with that side's slope (so the two pieces agree at the strike itself), and
/// the two slopes always differ, so the kink is real and unique.
pub proof fn lemma_payoff_piecewise_linear(
    pos: Position,
    opt: OptionKind,
    strike: int,
    premium: int,
    spot1: int,
    spot2: int,
)
    requires
        strike >= 0,
        premium >= 0,
        spot1 >= 0,
        spot2 >= 0,
    ensures
        spot1 <= strike && spot2 <= strike ==> payoff_spec(pos, opt, strike, spot2, premium)
            - payoff_spec(pos, opt, strike, spot1, premium) == slope_below_strike(pos, opt) * (
        spot2 - spot1),
        spot1 >= strike && spot2 >= strike ==> payoff_spec(pos, opt, strike, spot2, premium)
            - payoff_spec(pos, opt, strike, spot1, premium) == slope_above_strike(pos, opt) * (
        spot2 - spot1),
        slope_below_strike(pos, opt) != slope_above_strike(pos, opt),
{
}

/// A break-even point is determined by the inputs alone: any two results that
/// the contract of [`break_even_point`] admits for the same inputs are equal,
/// so repeated calls return identical outcomes.
pub proof fn lemma_break_even_deterministic(
    opt: OptionKind,
    strike: i64,
    premium: Option<i64>,
    r1: MathResult,
    r2: MathResult,
)
    requires
        break_even_post(opt, strike, premium, r1),
        break_even_post(opt, strike, premium, r2),
    ensures
        r1 == r2,
{
}

/// A payoff is determined by the inputs alone: any two results that the
/// contract of [`payoff`] admits for the same inputs are equal, so repeated
/// calls return identical outcomes.
pub proof fn lemma_payoff_deterministic(
    pos: Position,
    opt: OptionKind,
    strike: i64,
    stock: i64,
    premium: Option<i64>,
    r1: MathResult,
    r2: MathResult,
)
    requires
        payoff_post(pos, opt, strike, stock, premium, r1),
        payoff_post(pos, opt, strike, stock, premium, r2),
    ensures
        r1 == r2,
{
}

} // verus!
