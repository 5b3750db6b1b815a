//! The pricing rule and the volume-credit rule for one performance.

use vstd::prelude::*;
use crate::model::{Performance, Play, PlayGenre};

verus! {

/// The charge, in cents, for one performance of a play of the given genre
/// before the given audience.
pub open spec fn charge(genre: PlayGenre, audience: nat) -> int {
    match genre {
        PlayGenre::Tragedy => 40000 + if audience > 30 {
            1000 * (audience - 30)
        } else {
            0
        },
        PlayGenre::Comedy => 30000 + if audience > 20 {
            10000 + 500 * (audience - 20)
        } else {
            0
        } + 300 * audience,
    }
}

/// The credit every performance earns: one for each seat beyond thirty,
/// and nothing below that.
pub open spec fn base_credits(audience: nat) -> int {
    if audience > 30 {
        audience - 30
    } else {
        0
    }
}

/// The volume credits that one performance contributes to its invoice.
pub open spec fn volume_credits(genre: PlayGenre, audience: nat) -> int {
    base_credits(audience) + match genre {
        PlayGenre::Tragedy => 0,
        PlayGenre::Comedy => (audience / 5) as int,
    }
}

/// No performance earns a negative number of credits, however small its
/// audience.
pub proof fn lemma_volume_credits_nonnegative(genre: PlayGenre, audience: nat)
    ensures
        base_credits(audience) >= 0,
        volume_credits(genre, audience) >= 0,
{
}

/// A comedy earns one credit for every five seats on top of what a tragedy
/// with the same audience earns; a tragedy earns the base credit alone.
pub proof fn lemma_comedy_bonus(audience: nat)
    ensures
        volume_credits(PlayGenre::Comedy, audience) == volume_credits(
            PlayGenre::Tragedy,
            audience,
        ) + audience / 5,
        volume_credits(PlayGenre::Tragedy, audience) == base_credits(audience),
{
}

/// Every charge is a whole number of currency units: a multiple of one
/// hundred cents.
pub proof fn lemma_charge_in_whole_units(genre: PlayGenre, audience: nat)
    ensures
        charge(genre, audience) % 100 == 0,
{
}

/// Computes the charge for `performance`, given the play it refers to.
pub fn amount_for(performance: &Performance, play: &Play) -> (amount: u64)
    ensures
        amount == charge(play@.genre, performance@.audience),
        play@.genre == PlayGenre::Tragedy && performance@.audience <= 30
            ==> amount == 40000,
        play@.genre == PlayGenre::Tragedy && performance@.audience > 30
            ==> amount == 40000 + 1000 * (performance@.audience - 30),
        play@.genre == PlayGenre::Comedy && performance@.audience <= 20
            ==> amount == 30000 + 300 * performance@.audience,
        play@.genre == PlayGenre::Comedy && performance@.audience > 20
            ==> amount == 30000 + 10000 + 500 * (performance@.audience - 20)
                + 300 * performance@.audience,
{
    let audience: u64 = performance.audience() as u64;
    match play.genre() {
        PlayGenre::Tragedy => {
            let mut amount: u64 = 40000;
            if audience > 30 {
                amount += 1000 * (audience - 30);
            }
            amount
        },
        PlayGenre::Comedy => {
            let mut amount: u64 = 30000;
            if audience > 20 {
                amount += 10000 + 500 * (audience - 20);
            }
            amount += 300 * audience;
            amount
        },
    }
}

/// Computes the volume credits that `performance` earns, given the play it
/// refers to: the base credit, and for a comedy one more for every five
/// seats.
pub fn volume_credits_for(performance: &Performance, play: &Play) -> (credits: u64)
    ensures
        credits == volume_credits(play@.genre, performance@.audience),
        play@.genre == PlayGenre::Tragedy ==> credits == base_credits(performance@.audience),
        play@.genre == PlayGenre::Comedy
            ==> credits == base_credits(performance@.audience) + performance@.audience / 5,
{
    let audience: u64 = performance.audience() as u64;
    let mut credits: u64 = if audience > 30 {
        audience - 30
    } else {
        0
    };
    match play.genre() {
        PlayGenre::Tragedy => {},
        PlayGenre::Comedy => {
            credits += audience / 5;
        },
    }
    credits
}

} // verus!
