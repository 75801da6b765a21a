//! The filter register: the decimation word that sets the conversion rate.

use vstd::prelude::*;

use super::{Register, RegisterValue};

verus! {

/// Frequency of the sigma-delta modulator, in Hz.
pub const MODULATOR_FREQUENCY: u32 = 32_768;

/// Divisor of the update rate with chopping enabled, and the filter words allowed then.
pub const CHOPPING_DIVISOR: u32 = 24;
pub const CHOPPING_MIN_WORD: u32 = 13;
pub const CHOPPING_MAX_WORD: u32 = 255;

/// Divisor of the update rate with chopping disabled, and the filter words allowed then.
pub const NON_CHOPPING_DIVISOR: u32 = 8;
pub const NON_CHOPPING_MIN_WORD: u32 = 3;
pub const NON_CHOPPING_MAX_WORD: u32 = 255;

/// The filter register (address 0x03, one byte).
pub type Filter = RegisterValue<0x03, 1>;

/// Divisor of the update rate formula.
pub open spec fn divisor(chopping: bool) -> u32 {
    if chopping { CHOPPING_DIVISOR } else { NON_CHOPPING_DIVISOR }
}

/// Smallest filter word allowed (the fastest rate).
pub open spec fn min_word(chopping: bool) -> u32 {
    if chopping { CHOPPING_MIN_WORD } else { NON_CHOPPING_MIN_WORD }
}

/// Largest filter word allowed (the slowest rate).
pub open spec fn max_word(chopping: bool) -> u32 {
    if chopping { CHOPPING_MAX_WORD } else { NON_CHOPPING_MAX_WORD }
}

/// Update rate in Hz a filter word gives, rounded down (the datasheet's formula).
pub open spec fn rate_of_word(word: u32, chopping: bool) -> int {
    MODULATOR_FREQUENCY as int / (divisor(chopping) * word)
}

/// Filter word the datasheet's inverse formula gives for `update_rate` Hz, before clamping:
/// the modulator frequency over the divisor times the rate (at least 1), that product
/// saturating at `u32::MAX`.
pub open spec fn unclamped_word(update_rate: u32, chopping: bool) -> int {
    let rate = if update_rate < 1 { 1 } else { update_rate as int };
    let denominator = if divisor(chopping) * rate > u32::MAX {
        u32::MAX as int
    } else {
        divisor(chopping) * rate
    };
    MODULATOR_FREQUENCY as int / denominator
}

/// The filter word the inverse formula gives for `update_rate` Hz, clamped to the allowed
/// words: the slowest word still converting at least that fast, where there is one.
pub open spec fn clamped_word(update_rate: u32, chopping: bool) -> int {
    let word = unclamped_word(update_rate, chopping);
    if word < min_word(chopping) {
        min_word(chopping) as int
    } else if word > max_word(chopping) {
        max_word(chopping) as int
    } else {
        word
    }
}

/// How far the rate of filter word `word` is from `update_rate` Hz.
pub open spec fn rate_distance(word: int, update_rate: u32, chopping: bool) -> int {
    let rate = rate_of_word(word as u32, chopping);
    if rate >= update_rate {
        rate - update_rate
    } else {
        update_rate - rate
    }
}

/// The filter word whose rate is nearest `update_rate` Hz: of the clamped word of the
/// inverse formula and the next slower one, the closer, the faster on a tie.
pub open spec fn word_for_rate(update_rate: u32, chopping: bool) -> int {
    let word = clamped_word(update_rate, chopping);
    if word < max_word(chopping) && rate_distance(word + 1, update_rate, chopping)
        < rate_distance(word, update_rate, chopping) {
        word + 1
    } else {
        word
    }
}

impl Filter {
    /// The filter word whose update rate is nearest `update_rate` Hz among the words allowed,
    /// the faster one when two are equally near.
    pub fn from_update_rate(update_rate: u32, chopping: bool) -> (r: Self)
        ensures
            r@ == word_for_rate(update_rate, chopping),
            min_word(chopping) <= r@ <= max_word(chopping),
            forall|word: int|
                min_word(chopping) <= word <= max_word(chopping) ==> rate_distance(
                    r@ as int,
                    update_rate,
                    chopping,
                ) <= #[trigger] rate_distance(word, update_rate, chopping),
    {
        // Inverse update rate formula from datasheet
        let divisor = if chopping { CHOPPING_DIVISOR } else { NON_CHOPPING_DIVISOR };
        let rate = if update_rate < 1 { 1 } else { update_rate };
        let product = divisor as u64 * rate as u64;
        proof {
            assert(product >= 1) by (nonlinear_arith)
                requires
                    divisor >= 1,
                    rate >= 1,
                    product == divisor * rate,
            ;
        }
        let denominator = if product > u32::MAX as u64 { u32::MAX } else { product as u32 };
        let value = MODULATOR_FREQUENCY / denominator;

        // Clamp to the valid range
        let (min, max) = if chopping {
            (CHOPPING_MIN_WORD, CHOPPING_MAX_WORD)
        } else {
            (NON_CHOPPING_MIN_WORD, NON_CHOPPING_MAX_WORD)
        };
        let word = if value < min {
            min
        } else if value > max {
            max
        } else {
            value
        };

        // The next slower word may still be nearer the requested rate.
        let nearest = if word < max {
            proof {
                assert(divisor * (word + 1) <= 24 * 255) by (nonlinear_arith)
                    requires
                        divisor <= 24,
                        word + 1 <= 255,
                ;
                assert(1 <= divisor * word <= 24 * 255) by (nonlinear_arith)
                    requires
                        1 <= divisor <= 24,
                        1 <= word <= 255,
                ;
            }
            let faster = MODULATOR_FREQUENCY / (divisor * word);
            let slower = MODULATOR_FREQUENCY / (divisor * (word + 1));
            let faster_distance = if faster >= update_rate {
                faster - update_rate
            } else {
                update_rate - faster
            };
            let slower_distance = if slower >= update_rate {
                slower - update_rate
            } else {
                update_rate - slower
            };
            if slower_distance < faster_distance {
                word + 1
            } else {
                word
            }
        } else {
            word
        };
        proof {
            lemma_word_for_rate_is_nearest(update_rate, chopping);
        }
        Self::from_bits(nearest)
    }

    pub fn update_rate(&self, chopping: bool) -> (r: u32)
        requires
            1 <= self@ <= u32::MAX / 24,
        ensures
            r == rate_of_word(self@, chopping),
    {
        // Update rate formula from datasheet
        let divisor = if chopping { CHOPPING_DIVISOR } else { NON_CHOPPING_DIVISOR };
        proof {
            assert(divisor * self@ <= 24 * self@) by (nonlinear_arith)
                requires
                    divisor <= 24,
            ;
            assert(divisor * self@ >= 1) by (nonlinear_arith)
                requires
                    divisor >= 1,
                    self@ >= 1,
            ;
        }
        MODULATOR_FREQUENCY / (divisor * self.bits())
    }

    /// The fastest filter word.
    pub fn best_speed(chopping: bool) -> (r: Self)
        ensures
            r@ == min_word(chopping),
    {
        Self::from_bits(if chopping { CHOPPING_MIN_WORD } else { NON_CHOPPING_MIN_WORD })
    }

    /// The slowest, most accurate filter word.
    pub fn best_accuracy(chopping: bool) -> (r: Self)
        ensures
            r@ == max_word(chopping),
    {
        Self::from_bits(if chopping { CHOPPING_MAX_WORD } else { NON_CHOPPING_MAX_WORD })
    }
}

/// Slower filter words never convert faster: the update rate falls as the word grows.
pub proof fn lemma_rate_falls_with_word(word: int, slower: int, chopping: bool)
    requires
        1 <= word <= slower <= u32::MAX,
    ensures
        rate_of_word(word as u32, chopping) >= rate_of_word(slower as u32, chopping),
{
    let d = divisor(chopping) as int;
    assert(1 <= d * word <= d * slower) by (nonlinear_arith)
        requires
            d >= 1,
            1 <= word <= slower,
    ;
    vstd::arithmetic::div_mod::lemma_div_is_ordered_by_denominator(32768, d * word, d * slower);
}

/// The inverse formula's word sits where the rates cross the request: unless clamped, its
/// rate is at least the request and the next slower word's below it; clamped to the fastest
/// word, even that one is too slow; clamped to the slowest, even that one is fast enough.
proof fn lemma_clamped_word_brackets_rate(update_rate: u32, chopping: bool)
    requires
        update_rate >= 1,
    ensures
        ({
            let word = clamped_word(update_rate, chopping);
            let u = unclamped_word(update_rate, chopping);
            &&& u < min_word(chopping) ==> rate_of_word(word as u32, chopping) < update_rate
            &&& u >= min_word(chopping) ==> rate_of_word(word as u32, chopping) >= update_rate
            &&& min_word(chopping) <= u <= max_word(chopping) && word < max_word(chopping)
                ==> rate_of_word((word + 1) as u32, chopping) < update_rate
        }),
{
    let d = divisor(chopping) as int;
    let r = update_rate as int;
    let u = unclamped_word(update_rate, chopping);
    let word = clamped_word(update_rate, chopping);
    let product = d * r;
    assert(product > 0) by (nonlinear_arith)
        requires
            d >= 1,
            r >= 1,
            product == d * r,
    ;
    // A saturated denominator leaves no word at all.
    if product > u32::MAX {
        assert(32768int / (u32::MAX as int) == 0);
        assert(32768int / product == 0) by (nonlinear_arith)
            requires
                product > 32768,
        ;
    }
    assert(u == 32768int / product);
    assert(u * product <= 32768int && 32768int < (u + 1) * product) by (nonlinear_arith)
        requires
            product > 0,
            u == 32768int / product,
    ;
    if u < min_word(chopping) {
        assert(32768int / (d * word) < r) by (nonlinear_arith)
            requires
                d >= 1,
                word >= u + 1,
                u >= 0,
                32768int < (u + 1) * product,
                product == d * r,
        ;
    } else {
        assert(32768int / (d * word) >= r) by (nonlinear_arith)
            requires
                d >= 1,
                1 <= word <= u,
                u * product <= 32768int,
                product == d * r,
        ;
        if u <= max_word(chopping) && word < max_word(chopping) {
            assert(32768int / (d * (word + 1)) < r) by (nonlinear_arith)
                requires
                    d >= 1,
                    word == u,
                    u >= 0,
                    32768int < (u + 1) * product,
                    product == d * r,
            ;
        }
    }
}

/// The word chosen for a rate is the nearest one: no allowed filter word's rate is closer
/// to the request.
pub proof fn lemma_word_for_rate_is_nearest(update_rate: u32, chopping: bool)
    ensures
        min_word(chopping) <= word_for_rate(update_rate, chopping) <= max_word(chopping),
        forall|word: int|
            min_word(chopping) <= word <= max_word(chopping) ==> rate_distance(
                word_for_rate(update_rate, chopping),
                update_rate,
                chopping,
            ) <= #[trigger] rate_distance(word, update_rate, chopping),
{
    let chosen = word_for_rate(update_rate, chopping);
    let clamped = clamped_word(update_rate, chopping);
    let min = min_word(chopping) as int;
    let max = max_word(chopping) as int;
    let u = unclamped_word(update_rate, chopping);
    if update_rate == 0 {
        // Every rate is above the request, the slowest word's nearest; and the inverse
        // formula, taking the request as 1 Hz, gives a word beyond the slowest.
        assert(32768int / (divisor(chopping) as int) > 255);
        assert(clamped == max);
        assert forall|word: int| min <= word <= max implies rate_distance(
            chosen,
            update_rate,
            chopping,
        ) <= #[trigger] rate_distance(word, update_rate, chopping) by {
            lemma_rate_falls_with_word(word, max, chopping);
        }
        return;
    }
    lemma_clamped_word_brackets_rate(update_rate, chopping);
    if u < min {
        // Even the fastest word is too slow, so every word is further off the slower it is.
        lemma_rate_falls_with_word(clamped, clamped + 1, chopping);
        assert(chosen == clamped);
        assert forall|word: int| min <= word <= max implies rate_distance(
            chosen,
            update_rate,
            chopping,
        ) <= #[trigger] rate_distance(word, update_rate, chopping) by {
            lemma_rate_falls_with_word(clamped, word, chopping);
        }
    } else if u > max {
        // Even the slowest word is fast enough, so every word is further off the faster it is.
        assert(chosen == clamped);
        assert forall|word: int| min <= word <= max implies rate_distance(
            chosen,
            update_rate,
            chopping,
        ) <= #[trigger] rate_distance(word, update_rate, chopping) by {
            lemma_rate_falls_with_word(word, clamped, chopping);
        }
    } else {
        // Faster words than the clamped one are further above the request, slower words than
        // the next one further below it.
        assert forall|word: int| min <= word <= max implies rate_distance(
            chosen,
            update_rate,
            chopping,
        ) <= #[trigger] rate_distance(word, update_rate, chopping) by {
            if word <= clamped {
                lemma_rate_falls_with_word(word, clamped, chopping);
            } else {
                lemma_rate_falls_with_word(clamped + 1, word, chopping);
            }
        }
    }
}

} // verus!
