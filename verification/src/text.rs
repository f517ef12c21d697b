//! Decimal display text for the primitive numeric types and booleans.
//!
//! Numbers render most-significant digit first with a leading minus sign for
//! negative values; booleans render as the two literals `true` and `false`
//! (both deliberately spelled as the usual words).

use vstd::prelude::*;
use crate::string::String;
use crate::vec::Vec;

verus! {

/// The decimal digits of `n >= 0`, most significant first.
pub open spec fn decDigits(n: int) -> Seq<u8>
    recommends
        n >= 0,
    decreases n,
{
    if n < 10 {
        seq![(48 + n) as u8]
    } else {
        decDigits(n / 10).push((48 + (n % 10)) as u8)
    }
}

/// The decimal rendering of `n`: the digits of its magnitude, preceded by a
/// minus sign when `n` is negative.
pub open spec fn decText(n: int) -> Seq<u8> {
    if n < 0 {
        seq![45u8] + decDigits(-n)
    } else {
        decDigits(n)
    }
}

/// Rendering a value as display text.
pub trait ToDisplayText {
    /// The exact bytes the rendering produces.
    spec fn displaySpec(&self) -> Seq<u8>;

    /// Renders the value as a byte string.
    fn toDisplayText(&self) -> (r: String)
        ensures
            r@ == self.displaySpec(),
            r.wf(),
    ;
}

proof fn lemma_reverse_push(s: Seq<u8>, d: u8)
    ensures
        s.push(d).reverse() == seq![d] + s.reverse(),
{
    assert(s.push(d).reverse() =~= seq![d] + s.reverse());
}

/// Appends the decimal digits of `v`, most significant first.
fn pushDecimal(v: u64, out: &mut String)
    requires
        old(out).wf(),
    ensures
        final(out)@ == old(out)@ + decDigits(v as int),
        final(out).wf(),
{
    let mut digits: Vec<u8> = Vec::new();
    let mut x: u64 = v;
    proof {
        assert(Seq::<u8>::empty().reverse() =~= Seq::<u8>::empty());
    }
    while x >= 10
        invariant
            digits.wf(),
            decDigits(v as int) == decDigits(x as int) + digits@.reverse(),
        decreases x,
    {
        let d: u8 = ((x % 10) as u8) + 48;
        proof {
            lemma_reverse_push(digits@, d);
        }
        digits.pushBack(d);
        x = x / 10;
    }
    proof {
        lemma_reverse_push(digits@, ((48 + (x as int % 10)) as u8));
    }
    digits.pushBack(((x % 10) as u8) + 48);

    let n = digits.len();
    let mut i: usize = 0;
    while i < n
        invariant
            n == digits@.len(),
            decDigits(v as int) == digits@.reverse(),
            i <= n,
            out@ == old(out)@ + digits@.reverse().take(i as int),
            out.wf(),
        decreases n - i,
    {
        out.add(*digits.get(n - 1 - i));
        proof {
            assert(digits@.reverse()[i as int] == digits@[n - 1 - i]);
            assert(out@ =~= old(out)@ + digits@.reverse().take(i as int + 1));
        }
        i += 1;
    }
    proof {
        assert(digits@.reverse().take(n as int) =~= digits@.reverse());
    }
}

impl ToDisplayText for u64 {
    open spec fn displaySpec(&self) -> Seq<u8> {
        decText(*self as int)
    }

    fn toDisplayText(&self) -> (r: String)
        ensures
            r@ == self.displaySpec(),
            r.wf(),
    {
        let mut s = String::new();
        pushDecimal(*self, &mut s);
        s
    }
}

impl ToDisplayText for u32 {
    open spec fn displaySpec(&self) -> Seq<u8> {
        decText(*self as int)
    }

    fn toDisplayText(&self) -> (r: String)
        ensures
            r@ == self.displaySpec(),
            r.wf(),
    {
        let mut s = String::new();
        pushDecimal(*self as u64, &mut s);
        s
    }
}

impl ToDisplayText for u16 {
    open spec fn displaySpec(&self) -> Seq<u8> {
        decText(*self as int)
    }

    fn toDisplayText(&self) -> (r: String)
        ensures
            r@ == self.displaySpec(),
            r.wf(),
    {
        let mut s = String::new();
        pushDecimal(*self as u64, &mut s);
        s
    }
}

impl ToDisplayText for u8 {
    open spec fn displaySpec(&self) -> Seq<u8> {
        decText(*self as int)
    }

    fn toDisplayText(&self) -> (r: String)
        ensures
            r@ == self.displaySpec(),
            r.wf(),
    {
        let mut s = String::new();
        pushDecimal(*self as u64, &mut s);
        s
    }
}

impl ToDisplayText for usize {
    open spec fn displaySpec(&self) -> Seq<u8> {
        decText(*self as int)
    }

    fn toDisplayText(&self) -> (r: String)
        ensures
            r@ == self.displaySpec(),
            r.wf(),
    {
        let mut s = String::new();
        pushDecimal(*self as u64, &mut s);
        s
    }
}

impl ToDisplayText for i64 {
    open spec fn displaySpec(&self) -> Seq<u8> {
        decText(*self as int)
    }

    fn toDisplayText(&self) -> (r: String)
        ensures
            r@ == self.displaySpec(),
            r.wf(),
    {
        let mut s = String::new();
        if *self < 0 {
            s.add(45);
            let mag: u64 = (-(*self as i128)) as u64;
            pushDecimal(mag, &mut s);
        } else {
            pushDecimal(*self as u64, &mut s);
        }
        s
    }
}

impl ToDisplayText for i32 {
    open spec fn displaySpec(&self) -> Seq<u8> {
        decText(*self as int)
    }

    fn toDisplayText(&self) -> (r: String)
        ensures
            r@ == self.displaySpec(),
            r.wf(),
    {
        (*self as i64).toDisplayText()
    }
}

impl ToDisplayText for i16 {
    open spec fn displaySpec(&self) -> Seq<u8> {
        decText(*self as int)
    }

    fn toDisplayText(&self) -> (r: String)
        ensures
            r@ == self.displaySpec(),
            r.wf(),
    {
        (*self as i64).toDisplayText()
    }
}

impl ToDisplayText for i8 {
    open spec fn displaySpec(&self) -> Seq<u8> {
        decText(*self as int)
    }

    fn toDisplayText(&self) -> (r: String)
        ensures
            r@ == self.displaySpec(),
            r.wf(),
    {
        (*self as i64).toDisplayText()
    }
}

impl ToDisplayText for isize {
    open spec fn displaySpec(&self) -> Seq<u8> {
        decText(*self as int)
    }

    fn toDisplayText(&self) -> (r: String)
        ensures
            r@ == self.displaySpec(),
            r.wf(),
    {
        (*self as i64).toDisplayText()
    }
}

impl ToDisplayText for bool {
    open spec fn displaySpec(&self) -> Seq<u8> {
        if *self {
            seq![116u8, 114u8, 117u8, 101u8]
        } else {
            seq![102u8, 97u8, 108u8, 115u8, 101u8]
        }
    }

    fn toDisplayText(&self) -> (r: String)
        ensures
            r@ == self.displaySpec(),
            r.wf(),
    {
        let mut s = String::new();
        if *self {
            s.add(116);
            s.add(114);
            s.add(117);
            s.add(101);
            proof {
                assert(s@ =~= seq![116u8, 114u8, 117u8, 101u8]);
            }
        } else {
            s.add(102);
            s.add(97);
            s.add(108);
            s.add(115);
            s.add(101);
            proof {
                assert(s@ =~= seq![102u8, 97u8, 108u8, 115u8, 101u8]);
            }
        }
        s
    }
}

} // verus!
