use vstd::prelude::*;

verus! {

/// The IEEE-754 bit pattern of the largest finite 64-bit floating-point
/// value. A fold over no arguments answers with this sentinel, for the
/// smallest and for the largest element alike: callers of the built-in
/// functions rely on that exact quirk.
pub const MAX_FINITE_BITS: u64 = 0x7FEF_FFFF_FFFF_FFFF;

/// Whether the 64-bit pattern encodes an IEEE-754 not-a-number: all exponent
/// bits set and a non-zero fraction.
pub open spec fn is_nan_bits(a: u64) -> bool {
    (a >> 52) & 0x7FF == 0x7FF && a & 0xF_FFFF_FFFF_FFFF != 0
}

/// The sign bit of a 64-bit IEEE-754 pattern.
pub open spec fn sign_bit(a: u64) -> u64 {
    a >> 63
}

/// The magnitude of a 64-bit IEEE-754 pattern: everything but the sign.
pub open spec fn magnitude_bits(a: u64) -> u64 {
    a & 0x7FFF_FFFF_FFFF_FFFF
}

/// The IEEE-754 strict `<` on the numbers the two bit patterns encode.
/// A comparison against a not-a-number is false, and the two zeroes are
/// equal to one another, exactly as the floating-point unit answers.
pub open spec fn float_lt(a: u64, b: u64) -> bool {
    if is_nan_bits(a) || is_nan_bits(b) {
        false
    } else if sign_bit(a) == 0 && sign_bit(b) == 0 {
        magnitude_bits(a) < magnitude_bits(b)
    } else if sign_bit(a) == 1 && sign_bit(b) == 1 {
        magnitude_bits(b) < magnitude_bits(a)
    } else if sign_bit(a) == 1 {
        !(magnitude_bits(a) == 0 && magnitude_bits(b) == 0)
    } else {
        false
    }
}

/// Decides IEEE-754 `<` on two 64-bit patterns with integer operations only.
pub fn float_lt_exec(a: u64, b: u64) -> (r: bool)
    ensures
        r == float_lt(a, b),
{
    let a_nan: bool = (a >> 52) & 0x7FF == 0x7FF && a & 0xF_FFFF_FFFF_FFFF != 0;
    let b_nan: bool = (b >> 52) & 0x7FF == 0x7FF && b & 0xF_FFFF_FFFF_FFFF != 0;
    if a_nan || b_nan {
        false
    } else {
        let sa: u64 = a >> 63;
        let sb: u64 = b >> 63;
        let ma: u64 = a & 0x7FFF_FFFF_FFFF_FFFF;
        let mb: u64 = b & 0x7FFF_FFFF_FFFF_FFFF;
        if sa == 0 && sb == 0 {
            ma < mb
        } else if sa == 1 && sb == 1 {
            mb < ma
        } else if sa == 1 {
            !(ma == 0 && mb == 0)
        } else {
            false
        }
    }
}

/// The running smallest element: one fold step keeps the accumulator unless
/// the next argument compares strictly below it, so a not-a-number argument
/// never displaces the accumulator.
pub open spec fn min_step(acc: u64, x: u64) -> u64 {
    if float_lt(x, acc) {
        x
    } else {
        acc
    }
}

/// The running largest element: one fold step takes the next argument
/// whenever it does not compare strictly below the accumulator, so a
/// not-a-number argument displaces the accumulator.
pub open spec fn max_step(acc: u64, x: u64) -> u64 {
    if float_lt(x, acc) {
        acc
    } else {
        x
    }
}

/// The smallest of `s` under `min_step`, starting from `acc`.
pub open spec fn min_fold(s: Seq<u64>, acc: u64) -> u64
    decreases s.len(),
{
    if s.len() == 0 {
        acc
    } else {
        min_fold(s.drop_first(), min_step(acc, s[0]))
    }
}

/// The largest of `s` under `max_step`, starting from `acc`.
pub open spec fn max_fold(s: Seq<u64>, acc: u64) -> u64
    decreases s.len(),
{
    if s.len() == 0 {
        acc
    } else {
        max_fold(s.drop_first(), max_step(acc, s[0]))
    }
}

/// The largest element of `s`, folded from its first element; the sentinel
/// when there is none.
pub open spec fn max_of(s: Seq<u64>) -> u64 {
    if s.len() == 0 {
        MAX_FINITE_BITS
    } else {
        max_fold(s.drop_first(), s[0])
    }
}

/// The smallest argument of a call, as a bit pattern; the sentinel when
/// there is no argument.
pub fn fold_min_bits(args: &Vec<u64>) -> (r: u64)
    ensures
        r == min_fold(args@, MAX_FINITE_BITS),
{
    let mut acc: u64 = MAX_FINITE_BITS;
    let mut i: usize = 0;
    proof {
        assert(args@.skip(0) =~= args@);
    }
    while i < args.len()
        invariant
            i <= args@.len(),
            min_fold(args@, MAX_FINITE_BITS) == min_fold(args@.skip(i as int), acc),
        decreases args@.len() - i,
    {
        proof {
            assert(args@.skip(i as int).drop_first() =~= args@.skip(i as int + 1));
            assert(args@.skip(i as int)[0] == args@[i as int]);
        }
        if float_lt_exec(args[i], acc) {
            acc = args[i];
        }
        i = i + 1;
    }
    proof {
        assert(args@.skip(args@.len() as int) =~= Seq::<u64>::empty());
    }
    acc
}

/// The largest argument of a call, folded from the first argument, as a bit
/// pattern; the sentinel when there is no argument.
pub fn fold_max_bits(args: &Vec<u64>) -> (r: u64)
    ensures
        r == max_of(args@),
{
    if args.len() == 0 {
        return MAX_FINITE_BITS;
    }
    let mut acc: u64 = args[0];
    let mut i: usize = 1;
    proof {
        assert(args@.drop_first() =~= args@.skip(1));
    }
    while i < args.len()
        invariant
            1 <= i <= args@.len(),
            max_of(args@) == max_fold(args@.skip(i as int), acc),
        decreases args@.len() - i,
    {
        proof {
            assert(args@.skip(i as int).drop_first() =~= args@.skip(i as int + 1));
            assert(args@.skip(i as int)[0] == args@[i as int]);
        }
        if float_lt_exec(args[i], acc) {
        } else {
            acc = args[i];
        }
        i = i + 1;
    }
    proof {
        assert(args@.skip(args@.len() as int) =~= Seq::<u64>::empty());
    }
    acc
}

/// The signed-magnitude reading of a bit pattern: the integer key under
/// which every pattern that is not a not-a-number orders exactly as the
/// number it encodes, the two zeroes sharing the key zero.
pub open spec fn order_key(a: u64) -> int {
    if sign_bit(a) == 0 {
        magnitude_bits(a) as int
    } else {
        -(magnitude_bits(a) as int)
    }
}

/// Law: on patterns that are not not-a-numbers, the bit-level comparison is
/// exactly the strict order of their integer keys.
pub proof fn lemma_float_lt_is_key_order(a: u64, b: u64)
    requires
        !is_nan_bits(a),
        !is_nan_bits(b),
    ensures
        float_lt(a, b) <==> order_key(a) < order_key(b),
{
    assert(a >> 63 == 0 || a >> 63 == 1) by (bit_vector);
    assert(b >> 63 == 0 || b >> 63 == 1) by (bit_vector);
}

/// Law: the smallest-element fold starts from a pattern that is not a
/// not-a-number and stays that way; no argument — not even a not-a-number —
/// compares strictly below its answer, the start value does not either, and
/// the answer is the start value or one of the arguments.
pub proof fn lemma_min_fold_is_least(s: Seq<u64>, acc: u64)
    requires
        !is_nan_bits(acc),
    ensures
        !is_nan_bits(min_fold(s, acc)),
        !float_lt(acc, min_fold(s, acc)),
        forall|i: int| 0 <= i < s.len() ==> !float_lt(s[i], min_fold(s, acc)),
        min_fold(s, acc) == acc || exists|i: int| 0 <= i < s.len() && s[i] == min_fold(s, acc),
    decreases s.len(),
{
    if s.len() > 0 {
        let step = min_step(acc, s[0]);
        let rest = s.drop_first();
        let r = min_fold(s, acc);
        assert(!is_nan_bits(step));
        lemma_min_fold_is_least(rest, step);
        assert(r == min_fold(rest, step));
        if float_lt(s[0], acc) {
            lemma_float_lt_is_key_order(s[0], acc);
            lemma_float_lt_is_key_order(step, r);
            lemma_float_lt_is_key_order(acc, r);
        } else {
            lemma_float_lt_is_key_order(step, r);
            if !is_nan_bits(s[0]) {
                lemma_float_lt_is_key_order(s[0], acc);
                lemma_float_lt_is_key_order(s[0], r);
            }
        }
        assert forall|i: int| 0 <= i < s.len() implies !float_lt(s[i], r) by {
            if i > 0 {
                assert(rest[i - 1] == s[i]);
            }
        }
        if r != acc {
            if r == step {
                assert(s[0] == r);
            } else {
                let j = choose|j: int| 0 <= j < rest.len() && rest[j] == r;
                assert(s[j + 1] == r);
            }
        }
    }
}

/// Law: over arguments none of which is a not-a-number, the largest-element
/// fold answers a pattern no argument compares strictly above, the start
/// value does not either, and the answer is the start value or one of the
/// arguments.
pub proof fn lemma_max_fold_is_greatest(s: Seq<u64>, acc: u64)
    requires
        !is_nan_bits(acc),
        forall|i: int| 0 <= i < s.len() ==> !is_nan_bits(s[i]),
    ensures
        !is_nan_bits(max_fold(s, acc)),
        !float_lt(max_fold(s, acc), acc),
        forall|i: int| 0 <= i < s.len() ==> !float_lt(max_fold(s, acc), s[i]),
        max_fold(s, acc) == acc || exists|i: int| 0 <= i < s.len() && s[i] == max_fold(s, acc),
    decreases s.len(),
{
    if s.len() > 0 {
        let step = max_step(acc, s[0]);
        let rest = s.drop_first();
        let r = max_fold(s, acc);
        assert(!is_nan_bits(s[0]));
        assert(!is_nan_bits(step));
        assert(forall|i: int| 0 <= i < rest.len() ==> rest[i] == s[i + 1]);
        lemma_max_fold_is_greatest(rest, step);
        assert(r == max_fold(rest, step));
        lemma_float_lt_is_key_order(r, step);
        lemma_float_lt_is_key_order(r, acc);
        lemma_float_lt_is_key_order(r, s[0]);
        lemma_float_lt_is_key_order(s[0], acc);
        assert forall|i: int| 0 <= i < s.len() implies !float_lt(r, s[i]) by {
            if i > 0 {
                assert(rest[i - 1] == s[i]);
                lemma_float_lt_is_key_order(r, s[i]);
            }
        }
        if r != acc {
            if r == step {
                assert(s[0] == r);
            } else {
                let j = choose|j: int| 0 <= j < rest.len() && rest[j] == r;
                assert(s[j + 1] == r);
            }
        }
    }
}

} // verus!
