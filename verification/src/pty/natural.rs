//! Whole numbers of any size, as far as the backoff needs them: the exact
//! product and quotient of a number by small factors.

use vstd::arithmetic::div_mod::{lemma_fundamental_div_mod, lemma_fundamental_div_mod_converse};
use vstd::prelude::*;

verus! {

/// The number that `limbs` stand for: each limb counts 2^32 times as much
/// as the one before it.
pub open spec fn value_of(limbs: Seq<u32>) -> nat
    decreases limbs.len(),
{
    if limbs.len() == 0 {
        0
    } else {
        limbs[0] as nat + 0x1_0000_0000 * value_of(limbs.drop_first())
    }
}

/// The value of the limbs from `at` on is the limb at `at` plus 2^32 times
/// the value of the limbs after it.
pub proof fn lemma_value_unfolds(limbs: Seq<u32>, at: int)
    requires
        0 <= at < limbs.len(),
    ensures
        value_of(limbs.skip(at)) == limbs[at] + 0x1_0000_0000 * value_of(limbs.skip(at + 1)),
{
    assert(limbs.skip(at).drop_first() =~= limbs.skip(at + 1));
}

/// The limbs past the end stand for 0, and the limbs from 0 on for the
/// whole number.
pub proof fn lemma_value_ends(limbs: Seq<u32>)
    ensures
        value_of(limbs.skip(limbs.len() as int)) == 0,
        value_of(limbs.skip(0)) == value_of(limbs),
{
    assert(limbs.skip(0) =~= limbs);
}

/// The limbs of `value`.
pub fn from_u64(value: u64) -> (limbs: Vec<u32>)
    ensures
        value_of(limbs@) == value,
{
    let low: u32 = (value % 0x1_0000_0000) as u32;
    let high: u32 = (value / 0x1_0000_0000) as u32;
    let mut limbs: Vec<u32> = Vec::new();
    limbs.push(low);
    limbs.push(high);
    proof {
        lemma_value_unfolds(limbs@, 0);
        lemma_value_unfolds(limbs@, 1);
        lemma_value_ends(limbs@);
    }
    limbs
}

/// When every limb of `product` with the carry that leaves it is the limb
/// of `number` times `factor` with the carry that enters it, the limbs of
/// `product` from `at` on stand for `factor` times those of `number` plus
/// the carry that enters there.
proof fn lemma_product_of_limbs(
    number: Seq<u32>,
    product: Seq<u32>,
    factor: nat,
    carries: Seq<nat>,
    at: int,
)
    requires
        product.len() == number.len() + 1,
        carries.len() == number.len() + 1,
        forall|j: int|
            0 <= j < number.len() ==> #[trigger] product[j] + 0x1_0000_0000 * carries[j + 1]
                == factor * number[j] + carries[j],
        product[number.len() as int] == carries[number.len() as int],
        0 <= at <= number.len(),
    ensures
        value_of(product.skip(at)) == factor * value_of(number.skip(at)) + carries[at],
    decreases number.len() - at,
{
    if at == number.len() {
        lemma_value_unfolds(product, at);
        lemma_value_ends(product);
        lemma_value_ends(number);
        assert(factor * 0 == 0) by (nonlinear_arith);
    } else {
        lemma_product_of_limbs(number, product, factor, carries, at + 1);
        lemma_value_unfolds(product, at);
        lemma_value_unfolds(number, at);
        let rest = value_of(number.skip(at + 1));
        let limb = number[at] as nat;
        assert(product[at] + 0x1_0000_0000 * carries[at + 1] == factor * number[at] + carries[at]);
        assert(factor * (limb + 0x1_0000_0000 * rest) == factor * limb + 0x1_0000_0000 * (factor
            * rest)) by (nonlinear_arith);
    }
}

/// `number` times `factor`.
pub fn times(number: &Vec<u32>, factor: u32) -> (product: Vec<u32>)
    ensures
        value_of(product@) == value_of(number@) * factor,
{
    let count: usize = number.len();
    let mut product: Vec<u32> = Vec::new();
    let mut carry: u32 = 0;
    let ghost mut carries: Seq<nat> = seq![0nat];
    let mut at: usize = 0;
    while at < count
        invariant
            at <= count,
            count == number@.len(),
            product@.len() == at,
            carries.len() == at + 1,
            carries[0] == 0,
            carries[at as int] == carry,
            forall|j: int|
                0 <= j < at ==> #[trigger] product@[j] + 0x1_0000_0000 * carries[j + 1] == factor
                    * number@[j] + carries[j],
        decreases count - at,
    {
        let limb: u32 = number[at];
        assert(limb as u64 * factor as u64 + carry as u64 <= 0xffff_ffff_0000_0000)
            by (nonlinear_arith)
            requires
                limb <= 0xffff_ffff,
                factor <= 0xffff_ffff,
                carry <= 0xffff_ffff,
        ;
        let whole: u64 = limb as u64 * factor as u64 + carry as u64;
        let low: u32 = (whole % 0x1_0000_0000) as u32;
        let high: u32 = (whole / 0x1_0000_0000) as u32;
        let ghost before = product@;
        product.push(low);
        proof {
            carries = carries.push(high as nat);
            assert(factor * limb == limb * factor) by (nonlinear_arith);
            assert forall|j: int| 0 <= j < at + 1 implies #[trigger] product@[j] + 0x1_0000_0000
                * carries[j + 1] == factor * number@[j] + carries[j] by {
                if j < at {
                    assert(product@[j] == before[j]);
                }
            }
        }
        carry = high;
        at += 1;
    }
    product.push(carry);
    proof {
        lemma_product_of_limbs(number@, product@, factor as nat, carries, 0);
        lemma_value_ends(product@);
        lemma_value_ends(number@);
        assert(factor * value_of(number@) == value_of(number@) * factor) by (nonlinear_arith);
    }
    product
}

/// `number` divided by `divisor`, rounded down.
pub fn divided(number: &Vec<u32>, divisor: u32) -> (quotient: Vec<u32>)
    requires
        divisor >= 1,
    ensures
        value_of(quotient@) == value_of(number@) / (divisor as nat),
{
    let count: usize = number.len();
    let mut quotient: Vec<u32> = vec![0u32; count];
    let mut rest: u32 = 0;
    let mut at: usize = count;
    proof {
        lemma_value_ends(number@);
        lemma_value_ends(quotient@);
        assert(divisor * 0 == 0) by (nonlinear_arith);
    }
    while at > 0
        invariant
            at <= count,
            count == number@.len(),
            quotient@.len() == count,
            divisor >= 1,
            rest < divisor,
            value_of(number@.skip(at as int)) == divisor * value_of(quotient@.skip(at as int))
                + rest,
        decreases at,
    {
        let place: usize = at - 1;
        let whole: u64 = rest as u64 * 0x1_0000_0000 + number[place] as u64;
        let digit: u64 = whole / divisor as u64;
        let left: u64 = whole % divisor as u64;
        proof {
            lemma_fundamental_div_mod(whole as int, divisor as int);
            assert(digit < 0x1_0000_0000) by (nonlinear_arith)
                requires
                    whole == divisor * digit + left,
                    0 <= left,
                    whole < divisor * 0x1_0000_0000,
                    divisor >= 1,
            ;
        }
        let ghost above = value_of(quotient@.skip(at as int));
        let ghost before = quotient@;
        quotient[place] = digit as u32;
        proof {
            assert(quotient@.skip(at as int) =~= before.skip(at as int));
            lemma_value_unfolds(quotient@, place as int);
            lemma_value_unfolds(number@, place as int);
            assert(divisor * (digit + 0x1_0000_0000 * above) + left == 0x1_0000_0000 * (divisor
                * above + rest) + number@[place as int]) by (nonlinear_arith)
                requires
                    whole == divisor * digit + left,
                    whole == rest * 0x1_0000_0000 + number@[place as int],
            ;
        }
        rest = left as u32;
        at = place;
    }
    proof {
        lemma_value_ends(number@);
        lemma_value_ends(quotient@);
        let all = value_of(number@) as int;
        let found = value_of(quotient@) as int;
        assert(all == found * divisor + rest) by (nonlinear_arith)
            requires
                all == divisor * found + rest,
        ;
        lemma_fundamental_div_mod_converse(all, divisor as int, found, rest as int);
    }
    quotient
}

/// `number`, or `cap` when the number is greater.
pub fn at_most_u64(number: &Vec<u32>, cap: u64) -> (least: u64)
    ensures
        least == (if value_of(number@) <= cap {
            value_of(number@)
        } else {
            cap as nat
        }),
{
    let count: usize = number.len();
    let mut sum: u64 = 0;
    let mut over: bool = false;
    let mut at: usize = count;
    proof {
        lemma_value_ends(number@);
    }
    while at > 0
        invariant
            at <= count,
            count == number@.len(),
            over ==> value_of(number@.skip(at as int)) > cap,
            !over ==> sum == value_of(number@.skip(at as int)) && sum <= cap,
        decreases at,
    {
        let place: usize = at - 1;
        proof {
            lemma_value_unfolds(number@, place as int);
        }
        if !over {
            let whole: u128 = number[place] as u128 + 0x1_0000_0000 * (sum as u128);
            if whole > cap as u128 {
                over = true;
            } else {
                sum = whole as u64;
            }
        }
        at = place;
    }
    proof {
        lemma_value_ends(number@);
    }
    if over {
        cap
    } else {
        sum
    }
}

} // verus!
