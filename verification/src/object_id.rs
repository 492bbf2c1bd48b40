use vstd::prelude::*;

verus! {

/// An opaque 12-byte object identifier, the shape BSON gives it.
///
/// The crate treats it as plain bytes; its canonical text form is the
/// 24-digit lowercase hexadecimal rendering.
#[derive(Debug, Clone, Copy)]
pub struct ObjectIdValue {
    pub bytes: [u8; 12],
}

impl ObjectIdValue {
    /// Byte-for-byte equality of two identifiers.
    pub fn same_as(&self, other: &ObjectIdValue) -> (r: bool)
        ensures
            r == (self.bytes@ == other.bytes@),
    {
        let mut i: usize = 0;
        while i < 12
            invariant
                i <= 12,
                forall|j: int| 0 <= j < i ==> self.bytes@[j] == other.bytes@[j],
            decreases 12 - i,
        {
            if self.bytes[i] != other.bytes[i] {
                assert(self.bytes@[i as int] != other.bytes@[i as int]);
                return false;
            }
            i += 1;
        }
        proof {
            assert(self.bytes@ =~= other.bytes@);
        }
        true
    }
}

/// The lowercase hexadecimal digit for a value below sixteen.
pub open spec fn spec_hex_digit(n: int) -> char {
    if n == 0 { '0' }
    else if n == 1 { '1' }
    else if n == 2 { '2' }
    else if n == 3 { '3' }
    else if n == 4 { '4' }
    else if n == 5 { '5' }
    else if n == 6 { '6' }
    else if n == 7 { '7' }
    else if n == 8 { '8' }
    else if n == 9 { '9' }
    else if n == 10 { 'a' }
    else if n == 11 { 'b' }
    else if n == 12 { 'c' }
    else if n == 13 { 'd' }
    else if n == 14 { 'e' }
    else { 'f' }
}

/// The lowercase hexadecimal rendering of a byte sequence, two digits a
/// byte, high digit first.
pub open spec fn spec_hex_of(bytes: Seq<u8>) -> Seq<char>
    decreases bytes.len(),
{
    if bytes.len() == 0 {
        Seq::<char>::empty()
    } else {
        seq![
            spec_hex_digit(bytes[0] as int / 16),
            spec_hex_digit(bytes[0] as int % 16),
        ] + spec_hex_of(bytes.drop_first())
    }
}

/// The runtime hexadecimal digit for a value below sixteen.
pub fn hex_digit(n: u8) -> (r: char)
    requires
        n < 16,
    ensures
        r == spec_hex_digit(n as int),
{
    if n == 0 { '0' }
    else if n == 1 { '1' }
    else if n == 2 { '2' }
    else if n == 3 { '3' }
    else if n == 4 { '4' }
    else if n == 5 { '5' }
    else if n == 6 { '6' }
    else if n == 7 { '7' }
    else if n == 8 { '8' }
    else if n == 9 { '9' }
    else if n == 10 { 'a' }
    else if n == 11 { 'b' }
    else if n == 12 { 'c' }
    else if n == 13 { 'd' }
    else if n == 14 { 'e' }
    else { 'f' }
}

impl ObjectIdValue {
    pub fn new(bytes: [u8; 12]) -> (r: ObjectIdValue)
        ensures
            r.bytes == bytes,
    {
        ObjectIdValue { bytes }
    }

    /// The 24-digit lowercase hexadecimal form of the identifier.
    pub fn to_hex(&self) -> (r: String)
        ensures
            r@ == spec_hex_of(self.bytes@),
    {
        let mut out = String::new();
        let mut i: usize = 0;
        while i < 12
            invariant
                i <= 12,
                out@ == spec_hex_of(self.bytes@.take(i as int)),
            decreases 12 - i,
        {
            let b = self.bytes[i];
            crate::strings::push_char(&mut out, hex_digit(b / 16));
            crate::strings::push_char(&mut out, hex_digit(b % 16));
            proof {
                lemma_hex_step(self.bytes@, i as int);
            }
            i += 1;
        }
        proof {
            assert(self.bytes@.take(12) =~= self.bytes@);
        }
        out
    }
}

/// Appending one byte to a prefix extends its hexadecimal rendering by
/// that byte's two digits.
proof fn lemma_hex_step(bytes: Seq<u8>, i: int)
    requires
        0 <= i < bytes.len(),
    ensures
        spec_hex_of(bytes.take(i + 1)) == spec_hex_of(bytes.take(i)) + seq![
            spec_hex_digit(bytes[i] as int / 16),
            spec_hex_digit(bytes[i] as int % 16),
        ],
    decreases i,
{
    if i == 0 {
        assert(bytes.take(1)[0] == bytes[0]);
        assert(bytes.take(1).drop_first() =~= Seq::<u8>::empty());
        assert(spec_hex_of(Seq::<u8>::empty()) =~= Seq::<char>::empty());
        assert(spec_hex_of(bytes.take(0)) =~= Seq::<char>::empty());
        assert(spec_hex_of(bytes.take(1)) =~= seq![
            spec_hex_digit(bytes[0] as int / 16),
            spec_hex_digit(bytes[0] as int % 16),
        ] + spec_hex_of(bytes.take(1).drop_first()));
        assert(spec_hex_of(bytes.take(1)) =~= seq![
            spec_hex_digit(bytes[0] as int / 16),
            spec_hex_digit(bytes[0] as int % 16),
        ]);
    } else {
        lemma_hex_step(bytes.drop_first(), i - 1);
        assert(bytes.take(i + 1).drop_first() =~= bytes.drop_first().take(i));
        assert(bytes.take(i).drop_first() =~= bytes.drop_first().take(i - 1));
        assert(bytes.drop_first()[i - 1] == bytes[i]);
    }
}

} // verus!
