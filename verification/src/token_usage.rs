//! Token counts and what of them is charged.

use vstd::prelude::*;

verus! {

/// Cumulative token counts of a session.
#[derive(Clone, Copy, Debug, PartialEq, Eq, Structural)]
pub struct TokenUsage {
    pub input_tokens: i64,
    pub cached_input_tokens: i64,
    pub output_tokens: i64,
    pub reasoning_output_tokens: i64,
    pub total_tokens: i64,
}

/// The usage of a session that has used nothing.
pub open spec fn zero_usage() -> TokenUsage {
    TokenUsage {
        input_tokens: 0,
        cached_input_tokens: 0,
        output_tokens: 0,
        reasoning_output_tokens: 0,
        total_tokens: 0,
    }
}

impl Default for TokenUsage {
    fn default() -> (result: Self)
        ensures
            result == zero_usage(),
    {
        TokenUsage {
            input_tokens: 0,
            cached_input_tokens: 0,
            output_tokens: 0,
            reasoning_output_tokens: 0,
            total_tokens: 0,
        }
    }
}

/// The nearest 64-bit number.
pub open spec fn saturated(n: int) -> int {
    if n < i64::MIN {
        i64::MIN as int
    } else if n > i64::MAX {
        i64::MAX as int
    } else {
        n
    }
}

/// `n`, or zero where it is negative.
pub open spec fn non_negative(n: int) -> int {
    if n < 0 {
        0
    } else {
        n
    }
}

/// `a + b`, at the nearest 64-bit number.
pub fn saturating_sum(a: i64, b: i64) -> (result: i64)
    ensures
        result == saturated(a + b),
{
    let sum: i128 = a as i128 + b as i128;
    if sum < i64::MIN as i128 {
        i64::MIN
    } else if sum > i64::MAX as i128 {
        i64::MAX
    } else {
        sum as i64
    }
}

/// `a - b`, at the nearest 64-bit number.
pub fn saturating_difference(a: i64, b: i64) -> (result: i64)
    ensures
        result == saturated(a - b),
{
    let difference: i128 = a as i128 - b as i128;
    if difference < i64::MIN as i128 {
        i64::MIN
    } else if difference > i64::MAX as i128 {
        i64::MAX
    } else {
        difference as i64
    }
}

/// `n`, or zero where it is negative.
pub fn at_least_zero(n: i64) -> (result: i64)
    ensures
        result == non_negative(n as int),
{
    if n < 0 {
        0
    } else {
        n
    }
}

impl TokenUsage {
    /// The input tokens that did not come from a cache.
    pub open spec fn spec_non_cached_input(&self) -> int {
        non_negative(self.input_tokens - non_negative(self.cached_input_tokens as int))
    }

    /// The input tokens that did not come from a cache.
    pub fn non_cached_input(&self) -> (result: i64)
        ensures
            result == self.spec_non_cached_input(),
    {
        at_least_zero(
            saturating_difference(self.input_tokens, at_least_zero(self.cached_input_tokens)),
        )
    }
}

/// The tokens that a goal is charged: fresh input and output. Cached input is free, and
/// reasoning is part of the output already.
pub open spec fn goal_tokens(usage: TokenUsage) -> int {
    saturated(usage.spec_non_cached_input() + non_negative(usage.output_tokens as int))
}

/// The tokens that a goal is charged for a usage.
pub fn goal_token_delta_for_usage(usage: &TokenUsage) -> (result: i64)
    ensures
        result == goal_tokens(*usage),
        result >= 0,
{
    saturating_sum(usage.non_cached_input(), at_least_zero(usage.output_tokens))
}

} // verus!
