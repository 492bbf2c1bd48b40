use vstd::prelude::*;

verus! {

/// Relies on `String::push`: appends exactly the given character.
#[verifier::external_body]
pub(crate) fn push_char(s: &mut String, c: char)
    ensures
        final(s)@ == old(s)@.push(c),
{
    s.push(c);
}

/// The decimal digit character for a value below ten.
pub open spec fn spec_dec_digit(n: int) -> char {
    if n == 0 { '0' }
    else if n == 1 { '1' }
    else if n == 2 { '2' }
    else if n == 3 { '3' }
    else if n == 4 { '4' }
    else if n == 5 { '5' }
    else if n == 6 { '6' }
    else if n == 7 { '7' }
    else if n == 8 { '8' }
    else { '9' }
}

/// The decimal rendering of a nonnegative integer, most significant
/// digit first, with no leading zeros (a lone `0` for zero).
pub open spec fn spec_dec_str(n: nat) -> Seq<char>
    decreases n,
{
    if n < 10 {
        seq![spec_dec_digit(n as int)]
    } else {
        spec_dec_str(n / 10) + seq![spec_dec_digit(n as int % 10)]
    }
}

/// The decimal rendering of a signed integer: a minus sign before the
/// magnitude when negative.
pub open spec fn spec_dec_str_signed(n: int) -> Seq<char> {
    if n < 0 {
        seq!['-'] + spec_dec_str((-n) as nat)
    } else {
        spec_dec_str(n as nat)
    }
}

/// The decimal rendering of a nonnegative integer left-padded with
/// zeros to a width (dates and times use widths 2, 3 and 4).
pub open spec fn spec_dec_str_pad(n: nat, width: nat) -> Seq<char>
    decreases width,
{
    if width <= 1 {
        seq![spec_dec_digit(n as int % 10)]
    } else {
        spec_dec_str_pad(n / 10, (width - 1) as nat) + seq![spec_dec_digit(n as int % 10)]
    }
}

/// The runtime decimal digit for a value below ten.
pub fn dec_digit(n: u64) -> (r: char)
    requires
        n < 10,
    ensures
        r == spec_dec_digit(n as int),
{
    if n == 0 { '0' }
    else if n == 1 { '1' }
    else if n == 2 { '2' }
    else if n == 3 { '3' }
    else if n == 4 { '4' }
    else if n == 5 { '5' }
    else if n == 6 { '6' }
    else if n == 7 { '7' }
    else if n == 8 { '8' }
    else { '9' }
}

/// Appends the decimal rendering of `n` to `out`.
pub fn append_u64(out: &mut String, n: u64)
    ensures
        final(out)@ == old(out)@ + spec_dec_str(n as nat),
    decreases n,
{
    if n >= 10 {
        append_u64(out, n / 10);
    }
    push_char(out, dec_digit(n % 10));
}

/// Appends the decimal rendering of a signed integer to `out`.
pub fn append_i64(out: &mut String, n: i64)
    ensures
        final(out)@ == old(out)@ + spec_dec_str_signed(n as int),
{
    if n < 0 {
        push_char(out, '-');
        let m: u64 = (-(n as i128)) as u64;
        append_u64(out, m);
    } else {
        append_u64(out, n as u64);
    }
}

/// Appends `n` left-padded with zeros to the given width.
pub fn append_padded(out: &mut String, n: u64, width: u64)
    requires
        1 <= width <= 10,
    ensures
        final(out)@ == old(out)@ + spec_dec_str_pad(n as nat, width as nat),
    decreases width,
{
    if width <= 1 {
        push_char(out, dec_digit(n % 10));
    } else {
        append_padded(out, n / 10, width - 1);
        push_char(out, dec_digit(n % 10));
    }
}

/// Character-for-character equality of two string slices.
pub fn str_eq(a: &str, b: &str) -> (r: bool)
    ensures
        r == (a@ == b@),
{
    let sa = String::from_str(a);
    let sb = String::from_str(b);
    sa == sb
}

/// Sign of the lexicographic comparison of two character sequences by
/// code point, the order `str` itself sorts in.
pub open spec fn spec_str_cmp(a: Seq<char>, b: Seq<char>) -> int
    decreases a.len(),
{
    if a.len() == 0 && b.len() == 0 {
        0int
    } else if a.len() == 0 {
        -1int
    } else if b.len() == 0 {
        1int
    } else if (a[0] as u32) < (b[0] as u32) {
        -1int
    } else if (a[0] as u32) > (b[0] as u32) {
        1int
    } else {
        spec_str_cmp(a.drop_first(), b.drop_first())
    }
}

/// Runtime form of [`spec_str_cmp`].
pub fn str_compare(a: &str, b: &str) -> (r: i8)
    ensures
        r as int == spec_str_cmp(a@, b@),
{
    let alen = a.unicode_len();
    let blen = b.unicode_len();
    let mut i: usize = 0;
    proof {
        assert(a@.skip(0) =~= a@);
        assert(b@.skip(0) =~= b@);
    }
    while i < alen && i < blen
        invariant
            i <= alen,
            i <= blen,
            alen == a@.len(),
            blen == b@.len(),
            spec_str_cmp(a@, b@) == spec_str_cmp(a@.skip(i as int), b@.skip(i as int)),
        decreases alen - i,
    {
        let ca = a.get_char(i);
        let cb = b.get_char(i);
        proof {
            assert(a@.skip(i as int)[0] == a@[i as int]);
            assert(b@.skip(i as int)[0] == b@[i as int]);
            assert(a@.skip(i as int).drop_first() =~= a@.skip(i as int + 1));
            assert(b@.skip(i as int).drop_first() =~= b@.skip(i as int + 1));
        }
        if (ca as u32) < (cb as u32) {
            return -1;
        }
        if (ca as u32) > (cb as u32) {
            return 1;
        }
        i += 1;
    }
    proof {
        assert(a@.skip(i as int).len() == a@.len() - i);
        assert(b@.skip(i as int).len() == b@.len() - i);
    }
    if alen == blen {
        0
    } else if alen < blen {
        -1
    } else {
        1
    }
}

/// Swapping the operands flips the comparison's sign.
pub proof fn lemma_str_cmp_flip(a: Seq<char>, b: Seq<char>)
    ensures
        spec_str_cmp(a, b) == -spec_str_cmp(b, a),
    decreases a.len(),
{
    if a.len() != 0 && b.len() != 0 && (a[0] as u32) == (b[0] as u32) {
        lemma_str_cmp_flip(a.drop_first(), b.drop_first());
    }
}

/// The comparison is transitive on its non-strict side.
pub proof fn lemma_str_cmp_trans(a: Seq<char>, b: Seq<char>, c: Seq<char>)
    requires
        spec_str_cmp(a, b) <= 0,
        spec_str_cmp(b, c) <= 0,
    ensures
        spec_str_cmp(a, c) <= 0,
    decreases a.len(),
{
    if a.len() == 0 {
    } else if b.len() == 0 {
    } else if c.len() == 0 {
    } else {
        if (a[0] as u32) == (b[0] as u32) && (b[0] as u32) == (c[0] as u32) {
            lemma_str_cmp_trans(a.drop_first(), b.drop_first(), c.drop_first());
        }
    }
}

} // verus!
