//! Coins and purses.

use vstd::prelude::*;

verus! {

/// The worth of `amount` coins of a denomination worth `per_coin` copper each,
/// capped at `u32::MAX`.
pub open spec fn capped_worth(amount: u32, per_coin: u32) -> u32 {
    if amount * per_coin <= u32::MAX {
        (amount * per_coin) as u32
    } else {
        u32::MAX
    }
}

/// `amount * per_coin`, saturating at `u32::MAX`.
fn worth(amount: u32, per_coin: u32) -> (res: u32)
    ensures
        res == capped_worth(amount, per_coin),
{
    match amount.checked_mul(per_coin) {
        Some(v) => v,
        None => u32::MAX,
    }
}

/// A denomination of coin.
pub trait Coin: Sized {
    /// Copper pieces one coin is worth.
    spec fn per_coin() -> u32;

    /// The number of coins held.
    spec fn count(&self) -> u32;

    /// The worth of these coins in copper (capped at `u32::MAX`).
    fn value(&self) -> (res: CP)
        ensures
            res.0 == capped_worth(self.count(), Self::per_coin()),
    ;

    /// The number of coins.
    fn amount(&self) -> (res: u32)
        ensures
            res == self.count(),
    ;

    /// This denomination's field of a purse.
    spec fn pile(currency: Currency) -> Self;

    /// This denomination's pile in a purse.
    fn currency(currency: &Currency) -> (res: &Self)
        ensures
            *res == Self::pile(*currency),
    ;
}

/// Copper Piece (CP)
#[derive(Debug, Clone, Copy)]
pub struct CP(pub u32);

/// Silver Piece (SP)
#[derive(Debug, Clone, Copy)]
pub struct SP(pub u32);

/// Electrum Piece (EP)
#[derive(Debug, Clone, Copy)]
pub struct EP(pub u32);

/// Gold Piece (GP)
#[derive(Debug, Clone, Copy)]
pub struct GP(pub u32);

/// Platinum Piece (PP)
#[derive(Debug, Clone, Copy)]
pub struct PP(pub u32);

/// Collection of all the currency a creature has in its possession.
#[derive(Debug, Clone, Copy)]
pub struct Currency {
    pub cp: CP,
    pub sp: SP,
    pub ep: EP,
    pub gp: GP,
    pub pp: PP,
}

impl Coin for CP {
    open spec fn per_coin() -> u32 { 1 }
    open spec fn count(&self) -> u32 { self.0 }
    fn value(&self) -> (res: CP) { CP(worth(self.0, 1)) }
    fn amount(&self) -> (res: u32) { self.0 }
    open spec fn pile(currency: Currency) -> Self { currency.cp }
    fn currency(currency: &Currency) -> (res: &Self) { &currency.cp }
}

impl Coin for SP {
    open spec fn per_coin() -> u32 { 10 }
    open spec fn count(&self) -> u32 { self.0 }
    fn value(&self) -> (res: CP) { CP(worth(self.0, 10)) }
    fn amount(&self) -> (res: u32) { self.0 }
    open spec fn pile(currency: Currency) -> Self { currency.sp }
    fn currency(currency: &Currency) -> (res: &Self) { &currency.sp }
}

impl Coin for EP {
    open spec fn per_coin() -> u32 { 50 }
    open spec fn count(&self) -> u32 { self.0 }
    fn value(&self) -> (res: CP) { CP(worth(self.0, 50)) }
    fn amount(&self) -> (res: u32) { self.0 }
    open spec fn pile(currency: Currency) -> Self { currency.ep }
    fn currency(currency: &Currency) -> (res: &Self) { &currency.ep }
}

impl Coin for GP {
    open spec fn per_coin() -> u32 { 100 }
    open spec fn count(&self) -> u32 { self.0 }
    fn value(&self) -> (res: CP) { CP(worth(self.0, 100)) }
    fn amount(&self) -> (res: u32) { self.0 }
    open spec fn pile(currency: Currency) -> Self { currency.gp }
    fn currency(currency: &Currency) -> (res: &Self) { &currency.gp }
}

impl Coin for PP {
    open spec fn per_coin() -> u32 { 1000 }
    open spec fn count(&self) -> u32 { self.0 }
    fn value(&self) -> (res: CP) { CP(worth(self.0, 1000)) }
    fn amount(&self) -> (res: u32) { self.0 }
    open spec fn pile(currency: Currency) -> Self { currency.pp }
    fn currency(currency: &Currency) -> (res: &Self) { &currency.pp }
}

} // verus!
