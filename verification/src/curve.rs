use vstd::arithmetic::div_mod::lemma_fundamental_div_mod;
use vstd::arithmetic::div_mod::lemma_mod_bound;
use vstd::prelude::*;

verus! {

/// Why the curve refused a calculation.
#[derive(Clone, Copy, Debug, PartialEq, Eq, Structural)]
pub enum CurveError {
    /// The trading fee is above 100%.
    InvalidFeeAmount,
    /// A reserve or the share supply that the calculation divides by is zero.
    ZeroBalance,
    /// A result does not fit in 64 bits.
    Overflow,
    /// More shares are to be burned than exist.
    InsufficientBalance,
    /// The output is below the least that the caller accepts.
    SlippageLimitExceeded,
}

/// The side of the pool that a swap pays into.
#[derive(Clone, Copy, Debug, PartialEq, Eq, Structural)]
pub enum LiquidityPair {
    X,
    Y,
}

/// An amount of each of the two tokens.
#[derive(Clone, Copy, Debug, PartialEq, Eq, Structural)]
pub struct XYAmounts {
    pub x: u64,
    pub y: u64,
}

/// What a swap moves: the amount paid in, the amount paid out, and the part of the amount
/// paid in that is the trading fee.
#[derive(Clone, Copy, Debug, PartialEq, Eq, Structural)]
pub struct SwapResult {
    pub deposit: u64,
    pub withdraw: u64,
    pub fee: u64,
}

/// A constant-product pool: the reserves of both tokens, the share supply and the trading
/// fee in basis points.
#[derive(Clone, Copy, Debug, PartialEq, Eq, Structural)]
pub struct ConstantProduct {
    pub x: u64,
    pub y: u64,
    pub l: u64,
    pub fee: u16,
}

/// The part of `reserve` that `shares` out of `supply` shares stand for, rounded down.
pub open spec fn spec_share_of(shares: int, reserve: int, supply: int) -> int {
    shares * reserve / supply
}

/// The trading fee on `amount`, rounded down.
pub open spec fn spec_trading_fee(amount: int, fee: int) -> int {
    amount * fee / 10_000
}

/// The output that keeps the product of the reserves when `amount` joins `reserve_in`,
/// rounded down.
pub open spec fn spec_swap_output(reserve_in: int, reserve_out: int, amount: int) -> int {
    reserve_out * amount / (reserve_in + amount)
}

/// The amounts of both tokens to deposit for `a` new shares.
pub open spec fn spec_deposit_amounts(x: int, y: int, l: int, a: int) -> Result<
    XYAmounts,
    CurveError,
> {
    if l == 0 {
        Err(CurveError::ZeroBalance)
    } else if spec_share_of(a, x, l) > u64::MAX || spec_share_of(a, y, l) > u64::MAX {
        Err(CurveError::Overflow)
    } else {
        Ok(XYAmounts { x: spec_share_of(a, x, l) as u64, y: spec_share_of(a, y, l) as u64 })
    }
}

/// The amounts of both tokens that `a` burned shares release.
pub open spec fn spec_withdraw_amounts(x: int, y: int, l: int, a: int) -> Result<
    XYAmounts,
    CurveError,
> {
    if l == 0 {
        Err(CurveError::ZeroBalance)
    } else if a > l {
        Err(CurveError::InsufficientBalance)
    } else {
        Ok(XYAmounts { x: spec_share_of(a, x, l) as u64, y: spec_share_of(a, y, l) as u64 })
    }
}

/// `shares * reserve / supply`, where the supply is not zero and the result fits.
fn share_of(shares: u64, reserve: u64, supply: u64) -> (part: Option<u64>)
    requires
        supply > 0,
    ensures
        part is Some <==> spec_share_of(shares as int, reserve as int, supply as int) <= u64::MAX,
        part matches Some(p) ==> p == spec_share_of(shares as int, reserve as int, supply as int),
{
    assert(shares * reserve <= 0xffff_ffff_ffff_ffff * 0xffff_ffff_ffff_ffff)
        by (nonlinear_arith)
        requires
            shares <= 0xffff_ffff_ffff_ffff,
            reserve <= 0xffff_ffff_ffff_ffff,
    ;
    let part: u128 = (shares as u128) * (reserve as u128) / (supply as u128);
    if part > u64::MAX as u128 {
        None
    } else {
        Some(part as u64)
    }
}

/// A part of a reserve that stands for no more shares than exist is no more than the
/// reserve.
pub proof fn lemma_share_within_reserve(shares: int, reserve: int, supply: int)
    requires
        0 <= shares <= supply,
        0 < supply,
        0 <= reserve,
    ensures
        0 <= spec_share_of(shares, reserve, supply) <= reserve,
{
    let top = shares * reserve;
    lemma_fundamental_div_mod(top, supply);
    lemma_mod_bound(top, supply);
    let q = top / supply;
    assert(0 <= q <= reserve) by (nonlinear_arith)
        requires
            top == supply * q + top % supply,
            0 <= top % supply < supply,
            top == shares * reserve,
            0 <= shares <= supply,
            0 < supply,
            0 <= reserve,
    ;
}

impl ConstantProduct {
    /// The reserves are not empty and the fee is at most 100%.
    pub open spec fn wf(&self) -> bool {
        &&& self.x > 0
        &&& self.y > 0
        &&& self.fee <= 10_000
    }

    /// The reserve that a swap on side `p` pays into.
    pub open spec fn reserve_in(&self, p: LiquidityPair) -> int {
        match p {
            LiquidityPair::X => self.x as int,
            LiquidityPair::Y => self.y as int,
        }
    }

    /// The reserve that a swap on side `p` pays out of.
    pub open spec fn reserve_out(&self, p: LiquidityPair) -> int {
        match p {
            LiquidityPair::X => self.y as int,
            LiquidityPair::Y => self.x as int,
        }
    }

    /// The product of the two reserves.
    pub open spec fn k(&self) -> int {
        self.x * self.y
    }

    /// What a swap of `a` on side `p` pays out: the fee is taken from `a`, and the rest
    /// buys along the curve.
    pub open spec fn spec_swap_withdraw(&self, p: LiquidityPair, a: int) -> int {
        spec_swap_output(
            self.reserve_in(p),
            self.reserve_out(p),
            a - spec_trading_fee(a, self.fee as int),
        )
    }

    /// The pool after a swap of `a` on side `p`: all of `a` joins one reserve, and the
    /// output leaves the other.
    pub open spec fn spec_after_swap(&self, p: LiquidityPair, a: int) -> ConstantProduct {
        match p {
            LiquidityPair::X => ConstantProduct {
                x: (self.x + a) as u64,
                y: (self.y - self.spec_swap_withdraw(p, a)) as u64,
                l: self.l,
                fee: self.fee,
            },
            LiquidityPair::Y => ConstantProduct {
                x: (self.x - self.spec_swap_withdraw(p, a)) as u64,
                y: (self.y + a) as u64,
                l: self.l,
                fee: self.fee,
            },
        }
    }

    /// The outcome of a swap of `a` on side `p` that must pay out at least `min`.
    pub open spec fn spec_swap(&self, p: LiquidityPair, a: int, min: int) -> Result<
        SwapResult,
        CurveError,
    > {
        if self.reserve_in(p) + a > u64::MAX {
            Err(CurveError::Overflow)
        } else if self.spec_swap_withdraw(p, a) < min {
            Err(CurveError::SlippageLimitExceeded)
        } else {
            Ok(
                SwapResult {
                    deposit: a as u64,
                    withdraw: self.spec_swap_withdraw(p, a) as u64,
                    fee: spec_trading_fee(a, self.fee as int) as u64,
                },
            )
        }
    }

    /// A pool with the given reserves, share supply and trading fee. Both reserves must
    /// hold something, and the fee cannot exceed 100%.
    pub fn init(x: u64, y: u64, l: u64, fee: u16) -> (curve: Result<ConstantProduct, CurveError>)
        ensures
            curve == (if x == 0 || y == 0 {
                Err::<ConstantProduct, CurveError>(CurveError::ZeroBalance)
            } else if fee > 10_000 {
                Err::<ConstantProduct, CurveError>(CurveError::InvalidFeeAmount)
            } else {
                Ok::<ConstantProduct, CurveError>(ConstantProduct { x, y, l, fee })
            }),
            curve matches Ok(c) ==> c.wf(),
    {
        if x == 0 || y == 0 {
            Err(CurveError::ZeroBalance)
        } else if fee > 10_000 {
            Err(CurveError::InvalidFeeAmount)
        } else {
            Ok(ConstantProduct { x, y, l, fee })
        }
    }

    /// The amounts of X and Y to deposit for `a` new shares, in proportion to the
    /// reserves `x` and `y` behind the `l` shares that exist, each rounded down.
    pub fn xy_deposit_amounts_from_l(x: u64, y: u64, l: u64, a: u64) -> (amounts: Result<
        XYAmounts,
        CurveError,
    >)
        ensures
            amounts == spec_deposit_amounts(x as int, y as int, l as int, a as int),
    {
        if l == 0 {
            return Err(CurveError::ZeroBalance);
        }
        match (share_of(a, x, l), share_of(a, y, l)) {
            (Some(deposit_x), Some(deposit_y)) => Ok(XYAmounts { x: deposit_x, y: deposit_y }),
            _ => Err(CurveError::Overflow),
        }
    }

    /// The amounts of X and Y that burning `a` of the `l` shares releases from the
    /// reserves `x` and `y`, each rounded down. Neither exceeds its reserve.
    pub fn xy_withdraw_amounts_from_l(x: u64, y: u64, l: u64, a: u64) -> (amounts: Result<
        XYAmounts,
        CurveError,
    >)
        ensures
            amounts == spec_withdraw_amounts(x as int, y as int, l as int, a as int),
            amounts matches Ok(w) ==> w.x <= x && w.y <= y && w.x == spec_share_of(
                a as int,
                x as int,
                l as int,
            ) && w.y == spec_share_of(a as int, y as int, l as int),
    {
        if l == 0 {
            return Err(CurveError::ZeroBalance);
        }
        if a > l {
            return Err(CurveError::InsufficientBalance);
        }
        proof {
            lemma_share_within_reserve(a as int, x as int, l as int);
            lemma_share_within_reserve(a as int, y as int, l as int);
        }
        match (share_of(a, x, l), share_of(a, y, l)) {
            (Some(withdraw_x), Some(withdraw_y)) => Ok(XYAmounts { x: withdraw_x, y: withdraw_y }),
            _ => vstd::pervasive::unreached(),
        }
    }

    /// Swaps `a` of the token on side `p` for the other token. The fee is taken from `a`;
    /// the rest buys along the curve, rounded down; the whole of `a` stays in the pool.
    /// Fails, and leaves the pool as it was, where the reserve would not fit in 64 bits
    /// or the output is below `min`.
    pub fn swap(&mut self, p: LiquidityPair, a: u64, min: u64) -> (result: Result<
        SwapResult,
        CurveError,
    >)
        requires
            old(self).wf(),
        ensures
            result == old(self).spec_swap(p, a as int, min as int),
            result is Ok ==> *final(self) == old(self).spec_after_swap(p, a as int),
            result is Err ==> *final(self) == *old(self),
            final(self).wf(),
            final(self).k() >= old(self).k(),
            result matches Ok(r) ==> final(self).reserve_in(p) == old(self).reserve_in(p) + a
                && final(self).reserve_out(p) == old(self).reserve_out(p) - r.withdraw,
    {
        let ghost before = *self;
        let (reserve_in, reserve_out) = match p {
            LiquidityPair::X => (self.x, self.y),
            LiquidityPair::Y => (self.y, self.x),
        };
        if a > u64::MAX - reserve_in {
            return Err(CurveError::Overflow);
        }
        proof {
            lemma_swap_facts(reserve_in as int, reserve_out as int, self.fee as int, a as int);
        }
        assert(a * self.fee <= 0xffff_ffff_ffff_ffff * 10_000) by (nonlinear_arith)
            requires
                a <= 0xffff_ffff_ffff_ffff,
                self.fee <= 10_000,
        ;
        let fee: u64 = ((a as u128) * (self.fee as u128) / 10_000) as u64;
        let paid: u64 = a - fee;
        assert(reserve_out * paid <= 0xffff_ffff_ffff_ffff * 0xffff_ffff_ffff_ffff)
            by (nonlinear_arith)
            requires
                reserve_out <= 0xffff_ffff_ffff_ffff,
                paid <= 0xffff_ffff_ffff_ffff,
        ;
        let withdraw: u64 = ((reserve_out as u128) * (paid as u128) / (reserve_in as u128
            + paid as u128)) as u64;
        if withdraw < min {
            return Err(CurveError::SlippageLimitExceeded);
        }
        match p {
            LiquidityPair::X => {
                self.x = reserve_in + a;
                self.y = reserve_out - withdraw;
            },
            LiquidityPair::Y => {
                self.y = reserve_in + a;
                self.x = reserve_out - withdraw;
            },
        }
        proof {
            lemma_swap_keeps_product(before, p, a, min);
        }
        Ok(SwapResult { deposit: a, withdraw, fee })
    }
}

/// The arithmetic of one swap: the fee is within the amount, the output is less than the
/// reserve it leaves, and the product of the reserves does not fall.
pub proof fn lemma_swap_facts(reserve_in: int, reserve_out: int, fee: int, a: int)
    requires
        0 < reserve_in,
        0 < reserve_out,
        0 <= fee <= 10_000,
        0 <= a,
    ensures
        0 <= spec_trading_fee(a, fee) <= a,
        0 <= spec_swap_output(reserve_in, reserve_out, a - spec_trading_fee(a, fee)) < reserve_out,
        (reserve_in + a) * (reserve_out - spec_swap_output(
            reserve_in,
            reserve_out,
            a - spec_trading_fee(a, fee),
        )) >= reserve_in * reserve_out,
        spec_trading_fee(a, fee) > 0 ==> (reserve_in + a) * (reserve_out - spec_swap_output(
            reserve_in,
            reserve_out,
            a - spec_trading_fee(a, fee),
        )) > reserve_in * reserve_out,
{
    let taken = spec_trading_fee(a, fee);
    assert(0 <= a * fee <= a * 10_000) by (nonlinear_arith)
        requires
            0 <= a,
            0 <= fee <= 10_000,
    ;
    let paid = a - taken;
    let d = reserve_in + paid;
    let top = reserve_out * paid;
    lemma_fundamental_div_mod(top, d);
    lemma_mod_bound(top, d);
    let out = top / d;
    assert(0 <= out < reserve_out && (reserve_in + paid) * (reserve_out - out) >= reserve_in
        * reserve_out) by (nonlinear_arith)
        requires
            top == d * out + top % d,
            0 <= top % d < d,
            top == reserve_out * paid,
            d == reserve_in + paid,
            0 < reserve_in,
            0 < reserve_out,
            0 <= paid,
    ;
    assert((reserve_in + a) * (reserve_out - out) == (reserve_in + paid) * (reserve_out - out)
        + taken * (reserve_out - out) && (taken > 0 ==> taken * (reserve_out - out) > 0) && taken
        * (reserve_out - out) >= 0) by (nonlinear_arith)
        requires
            a == paid + taken,
            0 <= taken,
            0 <= out < reserve_out,
    ;
}

/// A swap that succeeds never lowers the product of the reserves, and raises it where a
/// trading fee is taken.
pub proof fn lemma_swap_keeps_product(curve: ConstantProduct, p: LiquidityPair, a: u64, min: u64)
    requires
        curve.wf(),
        curve.spec_swap(p, a as int, min as int) is Ok,
    ensures
        curve.spec_after_swap(p, a as int).k() >= curve.k(),
        spec_trading_fee(a as int, curve.fee as int) > 0 ==> curve.spec_after_swap(
            p,
            a as int,
        ).k() > curve.k(),
        curve.spec_after_swap(p, a as int).wf(),
{
    lemma_swap_facts(curve.reserve_in(p), curve.reserve_out(p), curve.fee as int, a as int);
    let out = curve.spec_swap_withdraw(p, a as int);
    let rin = curve.reserve_in(p);
    let rout = curve.reserve_out(p);
    let after = curve.spec_after_swap(p, a as int);
    assert(after.k() == (rin + a) * (rout - out)) by (nonlinear_arith)
        requires
            after.k() == after.x * after.y,
            (after.x == rin + a && after.y == rout - out) || (after.y == rin + a && after.x
                == rout - out),
    ;
    assert(curve.k() == rin * rout) by (nonlinear_arith)
        requires
            curve.k() == curve.x * curve.y,
            (curve.x == rin && curve.y == rout) || (curve.y == rin && curve.x == rout),
    ;
}

/// Shares that are minted and burned at once give back what was paid for them, and
/// never more: the amount that `a` shares release from a reserve that has just taken the
/// deposit for `a` shares is that deposit.
pub proof fn lemma_deposit_then_withdraw(reserve: int, l: int, a: int)
    requires
        0 <= reserve,
        0 < l,
        0 <= a,
    ensures
        spec_share_of(a, reserve + spec_share_of(a, reserve, l), l + a) == spec_share_of(
            a,
            reserve,
            l,
        ),
{
    let top = a * reserve;
    lemma_fundamental_div_mod(top, l);
    lemma_mod_bound(top, l);
    let paid = top / l;
    let top2 = a * (reserve + paid);
    let l2 = l + a;
    lemma_fundamental_div_mod(top2, l2);
    lemma_mod_bound(top2, l2);
    let back = top2 / l2;
    assert(back == paid) by (nonlinear_arith)
        requires
            top == l * paid + top % l,
            0 <= top % l < l,
            top == a * reserve,
            top2 == l2 * back + top2 % l2,
            0 <= top2 % l2 < l2,
            top2 == a * (reserve + paid),
            l2 == l + a,
            0 < l,
            0 <= a,
            0 <= reserve,
    ;
}

} // verus!
