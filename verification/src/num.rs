use vstd::prelude::*;
use vstd::arithmetic::power2::pow2;
use vstd::arithmetic::power2::lemma_pow2_unfold;
use vstd::arithmetic::power2::lemma_pow2_pos;

verus! {

/// The numeric reading of a float's bit pattern, shared by the binary32
/// and binary64 kinds.
///
/// A finite nonzero value is `sign * m * 2^p` with `1 <= m`; decoding a
/// binary64 keeps `m < 2^53` and `-1074 <= p <= 971`, a binary32 keeps
/// `m < 2^24` and `-149 <= p <= 104`.  The sign of a zero matters for
/// re-encoding but never for comparison.
#[derive(Debug, Clone, Copy)]
pub enum FloatRep {
    NotANumber,
    Infinite { neg: bool },
    Zero { neg: bool },
    Finite { neg: bool, m: u64, p: i64 },
}

// --- Decoding bit patterns ---

pub open spec fn spec_decode64(b: u64) -> FloatRep {
    let neg = b >> 63 == 1u64;
    let e = (b >> 52) & 0x7ff;
    let f = b & 0xf_ffff_ffff_ffff;
    if e == 2047 {
        if f == 0 {
            FloatRep::Infinite { neg }
        } else {
            FloatRep::NotANumber
        }
    } else if e == 0 {
        if f == 0 {
            FloatRep::Zero { neg }
        } else {
            FloatRep::Finite { neg, m: f, p: -1074i64 }
        }
    } else {
        FloatRep::Finite { neg, m: f | 0x10_0000_0000_0000, p: (e - 1075) as i64 }
    }
}

/// Reads the sign, exponent and fraction fields of a binary64 pattern.
pub fn decode64(b: u64) -> (r: FloatRep)
    ensures
        r == spec_decode64(b),
        r matches FloatRep::Finite { m, p, .. } ==> 1 <= m < 0x20_0000_0000_0000 && -1074 <= p
            <= 971,
{
    let neg = b >> 63 == 1u64;
    let e = (b >> 52) & 0x7ff;
    let f = b & 0xf_ffff_ffff_ffff;
    proof {
        assert(e <= 0x7ff && f <= 0xf_ffff_ffff_ffff && (f | 0x10_0000_0000_0000)
            >= 0x10_0000_0000_0000 && (f | 0x10_0000_0000_0000) < 0x20_0000_0000_0000) by (
        bit_vector)
            requires
                e == (b >> 52) & 0x7ff,
                f == b & 0xf_ffff_ffff_ffff,
        ;
    }
    if e == 2047 {
        if f == 0 {
            FloatRep::Infinite { neg }
        } else {
            FloatRep::NotANumber
        }
    } else if e == 0 {
        if f == 0 {
            FloatRep::Zero { neg }
        } else {
            FloatRep::Finite { neg, m: f, p: -1074i64 }
        }
    } else {
        FloatRep::Finite { neg, m: f | 0x10_0000_0000_0000, p: (e as i64) - 1075 }
    }
}

pub open spec fn spec_decode32(b: u32) -> FloatRep {
    let neg = b >> 31 == 1u32;
    let e = (b >> 23) & 0xff;
    let f = (b & 0x7f_ffff) as u64;
    if e == 255 {
        if f == 0 {
            FloatRep::Infinite { neg }
        } else {
            FloatRep::NotANumber
        }
    } else if e == 0 {
        if f == 0 {
            FloatRep::Zero { neg }
        } else {
            FloatRep::Finite { neg, m: f, p: -149i64 }
        }
    } else {
        FloatRep::Finite { neg, m: f | 0x80_0000, p: (e - 150) as i64 }
    }
}

/// Reads the sign, exponent and fraction fields of a binary32 pattern.
pub fn decode32(b: u32) -> (r: FloatRep)
    ensures
        r == spec_decode32(b),
        r matches FloatRep::Finite { m, p, .. } ==> 1 <= m < 0x100_0000 && -149 <= p <= 104,
{
    let neg = b >> 31 == 1u32;
    let e = (b >> 23) & 0xff;
    let f = (b & 0x7f_ffff) as u64;
    proof {
        assert(e <= 0xff && f <= 0x7f_ffff && (f | 0x80_0000) >= 0x80_0000 && (f | 0x80_0000)
            < 0x100_0000) by (bit_vector)
            requires
                e == (b >> 23) & 0xff,
                f == (b & 0x7f_ffff) as u64,
        ;
    }
    if e == 255 {
        if f == 0 {
            FloatRep::Infinite { neg }
        } else {
            FloatRep::NotANumber
        }
    } else if e == 0 {
        if f == 0 {
            FloatRep::Zero { neg }
        } else {
            FloatRep::Finite { neg, m: f, p: -149i64 }
        }
    } else {
        FloatRep::Finite { neg, m: f | 0x80_0000, p: (e as i64) - 150 }
    }
}

/// The numeric reading of a 64-bit integer.
pub open spec fn spec_rep_of_i64(n: i64) -> FloatRep {
    if n == 0 {
        FloatRep::Zero { neg: false }
    } else if n > 0 {
        FloatRep::Finite { neg: false, m: n as u64, p: 0 }
    } else {
        FloatRep::Finite { neg: true, m: (-(n as int)) as u64, p: 0 }
    }
}

pub fn rep_of_i64(n: i64) -> (r: FloatRep)
    ensures
        r == spec_rep_of_i64(n),
{
    if n == 0 {
        FloatRep::Zero { neg: false }
    } else if n > 0 {
        FloatRep::Finite { neg: false, m: n as u64, p: 0 }
    } else {
        let m: u64 = (-(n as i128)) as u64;
        proof {
            assert(m == -(n as int)) by (bit_vector)
                requires
                    n < 0,
                    m == (-(n as i128)) as u64,
            ;
        }
        FloatRep::Finite { neg: true, m, p: 0 }
    }
}

// --- Comparing numeric readings ---

/// Sign of the comparison of two magnitudes `ma * 2^pa` and `mb * 2^pb`
/// with `ma, mb >= 1`, computed with shifts so that every intermediate
/// stays in 64 bits: after aligning exponents, either one side
/// certainly exceeds the other's 64-bit range, or the lower-aligned
/// magnitude splits into quotient and remainder.
pub open spec fn spec_mag_cmp(ma: u64, pa: int, mb: u64, pb: int) -> int
    decreases (if pa >= pb { 0int } else { 1int }),
{
    if pa >= pb {
        let d = pa - pb;
        if d >= 64 {
            1int
        } else {
            let q = mb >> (d as u64);
            let rem = mb & (((1u64 << (d as u64)) - 1) as u64);
            if ma > q {
                1int
            } else if ma < q {
                -1int
            } else if rem == 0 {
                0int
            } else {
                -1int
            }
        }
    } else {
        -spec_mag_cmp(mb, pb, ma, pa)
    }
}

/// Sign of the numeric comparison of two float readings, or `None` when
/// either operand is not a number.  Zeros compare equal regardless of
/// sign; infinities sit beyond every finite value of their sign.
pub open spec fn spec_rep_cmp(a: FloatRep, b: FloatRep) -> Option<int> {
    match (a, b) {
        (FloatRep::NotANumber, _) => None,
        (_, FloatRep::NotANumber) => None,
        (FloatRep::Zero { .. }, FloatRep::Zero { .. }) => Some(0int),
        (FloatRep::Zero { .. }, FloatRep::Infinite { neg }) => Some(if neg { 1int } else { -1int }),
        (FloatRep::Zero { .. }, FloatRep::Finite { neg, .. }) => Some(
            if neg {
                1int
            } else {
                -1int
            },
        ),
        (FloatRep::Infinite { neg }, FloatRep::Zero { .. }) => Some(if neg { -1int } else { 1int }),
        (FloatRep::Finite { neg, .. }, FloatRep::Zero { .. }) => Some(
            if neg {
                -1int
            } else {
                1int
            },
        ),
        (FloatRep::Infinite { neg: na }, FloatRep::Infinite { neg: nb }) => Some(
            if na == nb {
                0int
            } else if na {
                -1int
            } else {
                1int
            },
        ),
        (FloatRep::Infinite { neg: na }, FloatRep::Finite { .. }) => Some(
            if na {
                -1int
            } else {
                1int
            },
        ),
        (FloatRep::Finite { .. }, FloatRep::Infinite { neg: nb }) => Some(
            if nb {
                1int
            } else {
                -1int
            },
        ),
        (
            FloatRep::Finite { neg: na, m: ma, p: pa },
            FloatRep::Finite { neg: nb, m: mb, p: pb },
        ) => {
            if na != nb {
                Some(if na { -1int } else { 1int })
            } else if na {
                Some(-spec_mag_cmp(ma, pa as int, mb, pb as int))
            } else {
                Some(spec_mag_cmp(ma, pa as int, mb, pb as int))
            }
        },
    }
}

/// Runtime form of [`spec_mag_cmp`]; the exponents of decoded floats
/// and integers stay far inside `i64`, so the difference cannot
/// overflow.
pub fn mag_cmp(ma: u64, pa: i64, mb: u64, pb: i64) -> (r: i8)
    requires
        -1100 <= pa <= 1100,
        -1100 <= pb <= 1100,
    ensures
        r as int == spec_mag_cmp(ma, pa as int, mb, pb as int),
        -1 <= r as int <= 1,
    decreases (if pa >= pb { 0int } else { 1int }),
{
    if pa >= pb {
        let d = pa - pb;
        if d >= 64 {
            1
        } else {
            let du = d as u64;
            proof {
                assert(1u64 << du >= 1) by (bit_vector)
                    requires
                        du < 64,
                ;
            }
            let q = mb >> du;
            let rem = mb & ((1u64 << du) - 1);
            if ma > q {
                1
            } else if ma < q {
                -1
            } else if rem == 0 {
                0
            } else {
                -1
            }
        }
    } else {
        let inner = mag_cmp(mb, pb, ma, pa);
        -inner
    }
}

/// Runtime form of [`spec_rep_cmp`].
pub fn rep_cmp(a: FloatRep, b: FloatRep) -> (r: Option<i8>)
    requires
        rep_in_range(a),
        rep_in_range(b),
    ensures
        match r {
            Some(s) => spec_rep_cmp(a, b) == Some(s as int) && -1 <= s as int <= 1,
            None => spec_rep_cmp(a, b) is None,
        },
{
    match (a, b) {
        (FloatRep::NotANumber, _) => None,
        (_, FloatRep::NotANumber) => None,
        (FloatRep::Zero { .. }, FloatRep::Zero { .. }) => Some(0),
        (FloatRep::Zero { .. }, FloatRep::Infinite { neg }) => Some(if neg { 1 } else { -1 }),
        (FloatRep::Zero { .. }, FloatRep::Finite { neg, .. }) => Some(if neg { 1 } else { -1 }),
        (FloatRep::Infinite { neg }, FloatRep::Zero { .. }) => Some(if neg { -1 } else { 1 }),
        (FloatRep::Finite { neg, .. }, FloatRep::Zero { .. }) => Some(if neg { -1 } else { 1 }),
        (FloatRep::Infinite { neg: na }, FloatRep::Infinite { neg: nb }) => Some(
            if na == nb {
                0
            } else if na {
                -1
            } else {
                1
            },
        ),
        (FloatRep::Infinite { neg: na }, FloatRep::Finite { .. }) => Some(if na { -1 } else { 1 }),
        (FloatRep::Finite { .. }, FloatRep::Infinite { neg: nb }) => Some(if nb { 1 } else { -1 }),
        (
            FloatRep::Finite { neg: na, m: ma, p: pa },
            FloatRep::Finite { neg: nb, m: mb, p: pb },
        ) => {
            if na != nb {
                Some(if na { -1 } else { 1 })
            } else {
                let s = mag_cmp(ma, pa, mb, pb);
                if na {
                    Some(-s)
                } else {
                    Some(s)
                }
            }
        },
    }
}

/// The exponent bounds every decoded float and integer reading obeys.
pub open spec fn rep_in_range(r: FloatRep) -> bool {
    match r {
        FloatRep::Finite { p, .. } => -1100 <= p <= 1100,
        _ => true,
    }
}

// --- Bit length and trailing-zero normalization ---

/// The number of binary digits of `x`; zero for zero.
pub open spec fn spec_bit_len(x: u64) -> nat
    decreases x,
{
    if x == 0 {
        0
    } else {
        (1 + spec_bit_len(x / 2)) as nat
    }
}

/// Runtime form of [`spec_bit_len`].
pub fn bit_len(x: u64) -> (r: u64)
    ensures
        r as nat == spec_bit_len(x),
        r <= 64,
    decreases x,
{
    if x == 0 {
        0
    } else {
        proof {
            lemma_bit_len_le_64(x);
        }
        1 + bit_len(x / 2)
    }
}

/// A 64-bit value has at most 64 binary digits.
proof fn lemma_bit_len_le_64(x: u64)
    ensures
        spec_bit_len(x) <= 64,
    decreases x,
{
    lemma_bit_len_bound(x, 64);
    assert(x < pow2(64)) by {
        vstd::arithmetic::power2::lemma2_to64_rest();
    }
}

/// `x` fits in `k` binary digits exactly when `x < 2^k`.
pub proof fn lemma_bit_len_bound(x: u64, k: nat)
    ensures
        (spec_bit_len(x) <= k) == ((x as nat) < pow2(k)),
    decreases k,
{
    lemma_pow2_pos(k);
    if k == 0 {
        assert(pow2(0) == 1) by {
            vstd::arithmetic::power2::lemma2_to64();
        }
    } else {
        lemma_bit_len_bound(x / 2, (k - 1) as nat);
        lemma_pow2_unfold(k);
        lemma_pow2_pos((k - 1) as nat);
    }
}

/// Strips the trailing zero bits: the odd core of `x` and how many bits
/// were stripped.  Zero stays zero.
pub open spec fn spec_strip(x: u64) -> (u64, nat)
    decreases x,
{
    if x == 0 || x % 2 == 1 {
        (x, 0)
    } else {
        let inner = spec_strip(x / 2);
        (inner.0, inner.1 + 1)
    }
}

/// Runtime form of [`spec_strip`].
pub fn strip_trailing_zeros(x: u64) -> (r: (u64, u64))
    ensures
        r.0 == spec_strip(x).0,
        r.1 as nat == spec_strip(x).1,
        r.1 <= 64,
    decreases x,
{
    if x == 0 || x % 2 == 1 {
        (x, 0)
    } else {
        proof {
            lemma_strip_rounds(x);
        }
        let inner = strip_trailing_zeros(x / 2);
        (inner.0, inner.1 + 1)
    }
}

/// Stripping splits the binary digits: the stripped zeros plus the odd
/// core's digits make up the whole, and the core of a positive value
/// stays positive.
proof fn lemma_strip_split(m: u64)
    requires
        m >= 1,
    ensures
        spec_strip(m).0 >= 1,
        spec_strip(m).1 + spec_bit_len(spec_strip(m).0) == spec_bit_len(m),
    decreases m,
{
    if m % 2 == 0 {
        lemma_strip_split(m / 2);
    }
}

// --- Encoding exact values back into bit patterns ---

/// The binary64 pattern of a numeric reading, when the reading is
/// exactly representable at that width; `None` otherwise.  A reading
/// that is not a number encodes to the canonical quiet NaN.
pub open spec fn spec_encode64(r: FloatRep) -> Option<u64> {
    match r {
        FloatRep::NotANumber => Some(0x7ff8_0000_0000_0000u64),
        FloatRep::Infinite { neg } => Some(
            if neg {
                0xfff0_0000_0000_0000u64
            } else {
                0x7ff0_0000_0000_0000u64
            },
        ),
        FloatRep::Zero { neg } => Some(
            if neg {
                0x8000_0000_0000_0000u64
            } else {
                0u64
            },
        ),
        FloatRep::Finite { neg, m, p } => {
            if m == 0 {
                Some(if neg { 0x8000_0000_0000_0000u64 } else { 0u64 })
            } else {
                let sign = if neg { 0x8000_0000_0000_0000u64 } else { 0u64 };
                let core = spec_strip(m).0;
                let stripped = spec_strip(m).1;
                let len = spec_bit_len(core);
                let e_val = p + stripped + len - 1;
                if len > 53 {
                    None
                } else if e_val > 1023 {
                    None
                } else if e_val >= -1022 {
                    Some(
                        sign | (((e_val + 1023) as u64) << 52u64) | ((core << ((53 - len) as u64))
                            & 0xf_ffff_ffff_ffff),
                    )
                } else if p + stripped >= -1074 {
                    Some(sign | (core << ((p + stripped + 1074) as u64)))
                } else {
                    None
                }
            }
        },
    }
}

/// The binary32 pattern of a numeric reading, when the reading is
/// exactly representable at that width; `None` otherwise.
pub open spec fn spec_encode32(r: FloatRep) -> Option<u32> {
    match r {
        FloatRep::NotANumber => Some(0x7fc0_0000u32),
        FloatRep::Infinite { neg } => Some(
            if neg {
                0xff80_0000u32
            } else {
                0x7f80_0000u32
            },
        ),
        FloatRep::Zero { neg } => Some(
            if neg {
                0x8000_0000u32
            } else {
                0u32
            },
        ),
        FloatRep::Finite { neg, m, p } => {
            if m == 0 {
                Some(if neg { 0x8000_0000u32 } else { 0u32 })
            } else {
                let sign = if neg { 0x8000_0000u32 } else { 0u32 };
                let core = spec_strip(m).0;
                let stripped = spec_strip(m).1;
                let len = spec_bit_len(core);
                let e_val = p + stripped + len - 1;
                if len > 24 {
                    None
                } else if e_val > 127 {
                    None
                } else if e_val >= -126 {
                    Some(
                        sign | (((e_val + 127) as u32) << 23u32) | (((core as u32) << ((24
                            - len) as u32)) & 0x7f_ffff),
                    )
                } else if p + stripped >= -149 {
                    Some(sign | ((core as u32) << ((p + stripped + 149) as u32)))
                } else {
                    None
                }
            }
        },
    }
}

/// Runtime form of [`spec_encode64`].
pub fn encode64(r: FloatRep) -> (res: Option<u64>)
    requires
        rep_in_range(r),
    ensures
        res == spec_encode64(r),
{
    match r {
        FloatRep::NotANumber => Some(0x7ff8_0000_0000_0000u64),
        FloatRep::Infinite { neg } => Some(
            if neg {
                0xfff0_0000_0000_0000u64
            } else {
                0x7ff0_0000_0000_0000u64
            },
        ),
        FloatRep::Zero { neg } => Some(
            if neg {
                0x8000_0000_0000_0000u64
            } else {
                0u64
            },
        ),
        FloatRep::Finite { neg, m, p } => {
            if m == 0 {
                Some(if neg { 0x8000_0000_0000_0000u64 } else { 0u64 })
            } else {
                let sign: u64 = if neg { 0x8000_0000_0000_0000u64 } else { 0u64 };
                let (core, stripped) = strip_trailing_zeros(m);
                let len = bit_len(core);
                proof {
                    lemma_strip_split(m);
                }
                let e_val: i64 = p + (stripped as i64) + (len as i64) - 1;
                if len > 53 {
                    None
                } else if e_val > 1023 {
                    None
                } else if e_val >= -1022 {
                    proof {
                        lemma_bit_len_bound(core, spec_bit_len(core));
                        assert(core << ((53 - len) as u64) == core << ((53 - len) as u64));
                    }
                    Some(
                        sign | (((e_val + 1023) as u64) << 52u64) | ((core << ((53 - len) as u64))
                            & 0xf_ffff_ffff_ffff),
                    )
                } else if p + (stripped as i64) >= -1074 {
                    Some(sign | (core << ((p + (stripped as i64) + 1074) as u64)))
                } else {
                    None
                }
            }
        },
    }
}

/// Runtime form of [`spec_encode32`].
pub fn encode32(r: FloatRep) -> (res: Option<u32>)
    requires
        rep_in_range(r),
    ensures
        res == spec_encode32(r),
{
    match r {
        FloatRep::NotANumber => Some(0x7fc0_0000u32),
        FloatRep::Infinite { neg } => Some(
            if neg {
                0xff80_0000u32
            } else {
                0x7f80_0000u32
            },
        ),
        FloatRep::Zero { neg } => Some(
            if neg {
                0x8000_0000u32
            } else {
                0u32
            },
        ),
        FloatRep::Finite { neg, m, p } => {
            if m == 0 {
                Some(if neg { 0x8000_0000u32 } else { 0u32 })
            } else {
                let sign: u32 = if neg { 0x8000_0000u32 } else { 0u32 };
                let (core, stripped) = strip_trailing_zeros(m);
                let len = bit_len(core);
                proof {
                    lemma_strip_split(m);
                }
                let e_val: i64 = p + (stripped as i64) + (len as i64) - 1;
                if len > 24 {
                    None
                } else if e_val > 127 {
                    None
                } else if e_val >= -126 {
                    Some(
                        sign | (((e_val + 127) as u32) << 23u32) | (((core as u32) << ((24
                            - len) as u32)) & 0x7f_ffff),
                    )
                } else if p + (stripped as i64) >= -149 {
                    Some(sign | ((core as u32) << ((p + (stripped as i64) + 149) as u32)))
                } else {
                    None
                }
            }
        },
    }
}

/// A finite reading with at most 53 significant digits and a moderate
/// exponent always has a binary64 pattern.
pub proof fn lemma_encode64_some(neg: bool, m: u64, p: i64)
    requires
        1 <= m,
        spec_bit_len(m) <= 53,
        -1022 <= p,
        p + spec_bit_len(m) <= 1024,
    ensures
        spec_encode64(FloatRep::Finite { neg, m, p }) is Some,
{
    lemma_strip_split(m);
}

/// The binary64 pattern carrying the same numeric reading as a binary32
/// pattern.  Every binary32 value widens exactly; a binary32 NaN widens
/// to the canonical quiet binary64 NaN.
pub open spec fn spec_widen_f32(b: u32) -> u64 {
    match spec_encode64(spec_decode32(b)) {
        Some(x) => x,
        None => 0u64,
    }
}

/// Runtime form of [`spec_widen_f32`]: decode at 32 bits, re-encode at
/// 64 bits, which cannot fail because every binary32 reading fits.
pub fn widen_f32_bits(b: u32) -> (r: u64)
    ensures
        r == spec_widen_f32(b),
{
    let rep = decode32(b);
    proof {
        if let FloatRep::Finite { neg, m, p } = rep {
            lemma_bit_len_bound(m, 24);
            assert(pow2(24) == 0x100_0000) by {
                vstd::arithmetic::power2::lemma2_to64();
            }
            lemma_encode64_some(neg, m, p);
        }
    }
    match encode64(rep) {
        Some(x) => x,
        None => {
            proof {
                assert(false);
            }
            0
        },
    }
}

/// A 32-bit integer always widens exactly to a binary64 pattern.
pub proof fn lemma_i32_widens(n: i32)
    ensures
        spec_encode64(spec_rep_of_i64(n as i64)) is Some,
{
    let rep = spec_rep_of_i64(n as i64);
    if let FloatRep::Finite { neg, m, p } = rep {
        assert(m <= 0x8000_0000);
        assert(pow2(32) == 0x1_0000_0000) by {
            vstd::arithmetic::power2::lemma2_to64();
        }
        lemma_bit_len_bound(m, 32);
        lemma_encode64_some(neg, m, p);
    }
}

/// Stripping takes at most as many rounds as there are binary digits.
proof fn lemma_strip_rounds(x: u64)
    ensures
        spec_strip(x).1 <= spec_bit_len(x),
        spec_bit_len(x) <= 64,
    decreases x,
{
    lemma_bit_len_le_64(x);
    if !(x == 0 || x % 2 == 1) {
        lemma_strip_rounds(x / 2);
    }
}

} // verus!
