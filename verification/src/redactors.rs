//! Ready-to-use redaction strategies.

use vstd::prelude::*;

use crate::Redactor;
use core::marker::PhantomData;

verus! {

/// Strategy that redacts every value to the fixed placeholder `<redacted>`.
///
/// This is the default strategy of [`crate::Redacted`].
pub struct Simple;

impl<T> Redactor<T> for Simple {
    open spec fn spec_redact(v: T) -> Seq<char> {
        "<redacted>"@
    }

    fn redact(v: &T) -> (s: String) {
        String::from_str("<redacted>")
    }
}

/// The placeholder never depends on the value: any two values of any type
/// are rendered identically by [`Simple`].
pub proof fn lemma_simple_is_value_blind<T>(v1: T, v2: T)
    ensures
        Simple::spec_redact(v1) == "<redacted>"@,
        Simple::spec_redact(v1) == Simple::spec_redact(v2),
{
}

/// A compile-time masking character for [`Custom`].
///
/// The character is supplied by a zero-size tag type, so a strategy built
/// from it stays a pure type-level choice with no runtime state.
pub trait Symbol {
    /// The masking character itself.
    spec fn spec_symbol() -> char;

    /// The masking character as a one-character string slice.
    fn symbol_text() -> (s: &'static str)
        ensures
            s@ == seq![Self::spec_symbol()],
    ;
}

/// The password-style dot `●`, the conventional masking character.
pub struct Dot;

impl Symbol for Dot {
    open spec fn spec_symbol() -> char {
        '\u{25CF}'
    }

    fn symbol_text() -> (s: &'static str) {
        let s = "\u{25CF}";
        proof {
            reveal_strlit("\u{25CF}");
            assert(s@ =~= seq!['\u{25CF}']);
        }
        s
    }
}

/// The skull `☠`, for a more emphatic masking character.
pub struct Skull;

impl Symbol for Skull {
    open spec fn spec_symbol() -> char {
        '\u{2620}'
    }

    fn symbol_text() -> (s: &'static str) {
        let s = "\u{2620}";
        proof {
            reveal_strlit("\u{2620}");
            assert(s@ =~= seq!['\u{2620}']);
        }
        s
    }
}

/// Configurable strategy: a masking character repeated a fixed number of
/// times, both chosen at compile time. `Custom<Dot, 8>` gives the
/// password-style `●●●●●●●●`.
pub struct Custom<S, const REP: usize> {
    _symbol: PhantomData<S>,
}

impl<T, S: Symbol, const REP: usize> Redactor<T> for Custom<S, REP> {
    open spec fn spec_redact(v: T) -> Seq<char> {
        Seq::new(REP as nat, |i: int| S::spec_symbol())
    }

    fn redact(v: &T) -> (s: String) {
        let mut s = String::new();
        let mut i: usize = 0;
        while i < REP
            invariant
                i <= REP,
                s@ == Seq::new(i as nat, |j: int| S::spec_symbol()),
            decreases REP - i,
        {
            s.append(S::symbol_text());
            i = i + 1;
            proof {
                assert(s@ =~= Seq::new(i as nat, |j: int| S::spec_symbol()));
            }
        }
        s
    }
}

/// The repeated mask never depends on the value: any two values of any
/// type are rendered identically by [`Custom`].
pub proof fn lemma_custom_is_value_blind<T, S: Symbol, const REP: usize>(v1: T, v2: T)
    ensures
        Custom::<S, REP>::spec_redact(v1) == Seq::new(REP as nat, |i: int| S::spec_symbol()),
        Custom::<S, REP>::spec_redact(v1) == Custom::<S, REP>::spec_redact(v2),
{
}

/// A value whose content can be measured as a byte count, for the
/// size-revealing strategy.
pub trait AsBytes {
    /// The number of bytes of this value's content.
    spec fn spec_byte_len(&self) -> nat;

    /// Count the bytes of this value's content.
    fn byte_len(&self) -> (n: usize)
        ensures
            n == self.spec_byte_len(),
    ;
}

impl AsBytes for String {
    /// A string's content measures as the length of its UTF-8 encoding.
    open spec fn spec_byte_len(&self) -> nat {
        vstd::utf8::encode_utf8(self@).len()
    }

    fn byte_len(&self) -> (n: usize) {
        proof {
            broadcast use vstd::slice::axiom_spec_len;

        }
        self.as_str().as_bytes().len()
    }
}

impl AsBytes for &str {
    /// A string slice's content measures as the length of its UTF-8
    /// encoding.
    open spec fn spec_byte_len(&self) -> nat {
        vstd::utf8::encode_utf8((*self)@).len()
    }

    fn byte_len(&self) -> (n: usize) {
        proof {
            broadcast use vstd::slice::axiom_spec_len;

        }
        (*self).as_bytes().len()
    }
}

impl AsBytes for Vec<u8> {
    open spec fn spec_byte_len(&self) -> nat {
        self@.len()
    }

    fn byte_len(&self) -> (n: usize) {
        self.len()
    }
}

/// The decimal digit for `d`.
pub open spec fn spec_digit(d: nat) -> char
    recommends
        d < 10,
{
    if d == 0 {
        '0'
    } else if d == 1 {
        '1'
    } else if d == 2 {
        '2'
    } else if d == 3 {
        '3'
    } else if d == 4 {
        '4'
    } else if d == 5 {
        '5'
    } else if d == 6 {
        '6'
    } else if d == 7 {
        '7'
    } else if d == 8 {
        '8'
    } else {
        '9'
    }
}

/// The usual decimal numeral for `n`: most significant digit first, no
/// leading zeros (except for `n == 0` itself).
pub open spec fn spec_decimal(n: nat) -> Seq<char>
    decreases n,
{
    if n < 10 {
        seq![spec_digit(n)]
    } else {
        spec_decimal(n / 10) + seq![spec_digit(n % 10)]
    }
}

fn digit_text(d: usize) -> (s: &'static str)
    requires
        d < 10,
    ensures
        s@ == seq![spec_digit(d as nat)],
{
    let s: &'static str = if d == 0 {
        "0"
    } else if d == 1 {
        "1"
    } else if d == 2 {
        "2"
    } else if d == 3 {
        "3"
    } else if d == 4 {
        "4"
    } else if d == 5 {
        "5"
    } else if d == 6 {
        "6"
    } else if d == 7 {
        "7"
    } else if d == 8 {
        "8"
    } else {
        "9"
    };
    proof {
        reveal_strlit("0");
        reveal_strlit("1");
        reveal_strlit("2");
        reveal_strlit("3");
        reveal_strlit("4");
        reveal_strlit("5");
        reveal_strlit("6");
        reveal_strlit("7");
        reveal_strlit("8");
        reveal_strlit("9");
        assert(s@ =~= seq![spec_digit(d as nat)]);
    }
    s
}

/// Appends the decimal numeral of `n` to `s`.
fn push_decimal(s: &mut String, n: usize)
    ensures
        final(s)@ == old(s)@ + spec_decimal(n as nat),
    decreases n,
{
    if n < 10 {
        s.append(digit_text(n));
        proof {
            assert(s@ =~= old(s)@ + spec_decimal(n as nat));
        }
    } else {
        push_decimal(s, n / 10);
        s.append(digit_text(n % 10));
        proof {
            assert(s@ =~= old(s)@ + spec_decimal(n as nat));
        }
    }
}

/// Strategy that reveals only how many bytes were redacted, as in
/// `<6 bytes redacted>`. It requires the wrapped value to be measurable
/// as bytes through [`AsBytes`]; none of the bytes themselves appear.
pub struct ByteSize;

/// The full message emitted for a content of `n` bytes.
pub open spec fn spec_byte_size_text(n: nat) -> Seq<char> {
    "<"@ + spec_decimal(n) + " bytes redacted>"@
}

impl<T: AsBytes> Redactor<T> for ByteSize {
    open spec fn spec_redact(v: T) -> Seq<char> {
        spec_byte_size_text(v.spec_byte_len())
    }

    fn redact(v: &T) -> (s: String) {
        let mut s = String::from_str("<");
        push_decimal(&mut s, v.byte_len());
        s.append(" bytes redacted>");
        s
    }
}

/// The size-revealing message depends on the byte count alone: two values
/// of equal byte length are rendered identically by [`ByteSize`], however
/// their contents differ.
pub proof fn lemma_byte_size_reveals_only_length<T: AsBytes>(v1: T, v2: T)
    requires
        v1.spec_byte_len() == v2.spec_byte_len(),
    ensures
        ByteSize::spec_redact(v1) == spec_byte_size_text(v1.spec_byte_len()),
        ByteSize::spec_redact(v1) == ByteSize::spec_redact(v2),
{
}

} // verus!
