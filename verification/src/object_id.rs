//! Store-assigned object identifiers and their hexadecimal string form.

use vstd::prelude::*;

verus! {

/// A store-assigned object identifier: twelve raw bytes, as the document
/// store hands them out. It is never chosen by a client of this library.
#[derive(Clone, Copy, PartialEq, Eq, Debug)]
pub struct ItemId {
    pub bytes: [u8; 12],
}

/// The lower-case hexadecimal digit for a value below sixteen.
pub open spec fn hex_digit(n: int) -> char {
    if n == 0 {
        '0'
    } else if n == 1 {
        '1'
    } else if n == 2 {
        '2'
    } else if n == 3 {
        '3'
    } else if n == 4 {
        '4'
    } else if n == 5 {
        '5'
    } else if n == 6 {
        '6'
    } else if n == 7 {
        '7'
    } else if n == 8 {
        '8'
    } else if n == 9 {
        '9'
    } else if n == 10 {
        'a'
    } else if n == 11 {
        'b'
    } else if n == 12 {
        'c'
    } else if n == 13 {
        'd'
    } else if n == 14 {
        'e'
    } else {
        'f'
    }
}

/// The two hexadecimal digits of one byte, high digit first.
pub open spec fn hex_of_byte(b: u8) -> Seq<char> {
    seq![hex_digit(b as int / 16), hex_digit(b as int % 16)]
}

/// The lower-case hexadecimal rendering of a byte sequence.
pub open spec fn hex_of(bytes: Seq<u8>) -> Seq<char>
    decreases bytes.len(),
{
    if bytes.len() == 0 {
        Seq::empty()
    } else {
        hex_of_byte(bytes[0]) + hex_of(bytes.drop_first())
    }
}

pub proof fn lemma_hex_of_push(s: Seq<u8>, b: u8)
    ensures
        hex_of(s.push(b)) == hex_of(s) + hex_of_byte(b),
    decreases s.len(),
{
    if s.len() == 0 {
        let t = s.push(b);
        assert(t[0] == b);
        assert(t.drop_first() =~= Seq::<u8>::empty());
        assert(hex_of(t.drop_first()) == Seq::<char>::empty());
        assert(hex_of(t) == hex_of_byte(b) + Seq::<char>::empty());
        assert(hex_of(t) =~= hex_of(s) + hex_of_byte(b));
    } else {
        assert(s.push(b)[0] == s[0]);
        assert(s.push(b).drop_first() =~= s.drop_first().push(b));
        lemma_hex_of_push(s.drop_first(), b);
        assert(hex_of(s.push(b)) =~= hex_of(s) + hex_of_byte(b));
    }
}

fn hex_digit_exec(n: u8) -> (c: char)
    requires
        n < 16,
    ensures
        c == hex_digit(n as int),
{
    if n == 0 {
        '0'
    } else if n == 1 {
        '1'
    } else if n == 2 {
        '2'
    } else if n == 3 {
        '3'
    } else if n == 4 {
        '4'
    } else if n == 5 {
        '5'
    } else if n == 6 {
        '6'
    } else if n == 7 {
        '7'
    } else if n == 8 {
        '8'
    } else if n == 9 {
        '9'
    } else if n == 10 {
        'a'
    } else if n == 11 {
        'b'
    } else if n == 12 {
        'c'
    } else if n == 13 {
        'd'
    } else if n == 14 {
        'e'
    } else {
        'f'
    }
}

/// Relies on std's String::push: appends exactly the given character.
#[verifier::external_body]
fn push_char(s: &mut String, c: char)
    ensures
        final(s)@ == old(s)@ + seq![c],
{
    s.push(c);
}

impl ItemId {
    /// The identifier in its external-facing string form: twenty-four
    /// lower-case hexadecimal digits.
    pub fn to_hex(&self) -> (r: String)
        ensures
            r@ == hex_of(self.bytes@),
            r@.len() == 24,
    {
        let mut r = String::new();
        let mut i: usize = 0;
        while i < 12
            invariant
                i <= 12,
                r@ == hex_of(self.bytes@.take(i as int)),
                r@.len() == 2 * i,
            decreases 12 - i,
        {
            let b = self.bytes[i];
            let hi = hex_digit_exec(b / 16);
            let lo = hex_digit_exec(b % 16);
            push_char(&mut r, hi);
            push_char(&mut r, lo);
            proof {
                let prefix = self.bytes@.take(i as int);
                assert(self.bytes@.take(i as int + 1) =~= prefix.push(self.bytes@[i as int]));
                lemma_hex_of_push(prefix, self.bytes@[i as int]);
            }
            i += 1;
        }
        proof {
            assert(self.bytes@.take(12) =~= self.bytes@);
        }
        r
    }
}

} // verus!
