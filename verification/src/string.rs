//! A byte-oriented string: a sequence of raw bytes with byte-wise equality,
//! concatenation, and on-demand text decoding.
//!
//! The string holds no terminator and applies no normalization; its view is
//! the byte sequence itself. Interpreting the bytes as text is checked at the
//! point of use: `toStr` demands valid UTF-8 content up front rather than
//! truncating or degrading silently.

use vstd::prelude::*;
use vstd::pervasive::unreached;
use vstd::string::StringSliceAdditionalSpecFns;
use vstd::utf8::valid_utf8;
use crate::hash::{murmur64, murmurHash64A};
use crate::vec::Vec;

verus! {

/// A byte string built on the growable array.
pub struct String {
    data: Vec<u8>,
}

impl View for String {
    type V = Seq<u8>;

    closed spec fn view(&self) -> Seq<u8> {
        self.data@
    }
}

/// Relies on core::str::from_utf8: it returns `Ok` exactly on UTF-8-valid
/// input, and the returned slice views the same bytes it was given.
#[verifier::external_body]
fn tryDecode(b: &[u8]) -> (r: Option<&str>)
    ensures
        r is Some <==> valid_utf8(b@),
        r is Some ==> r.unwrap().spec_bytes() == b@,
{
    match core::str::from_utf8(b) {
        Ok(s) => Some(s),
        Err(_) => None,
    }
}

impl String {
    /// Validity of the underlying array.
    pub closed spec fn wf(&self) -> bool {
        self.data.wf()
    }

    /// The empty byte string.
    pub fn new() -> (r: Self)
        ensures
            r@ == Seq::<u8>::empty(),
            r.wf(),
    {
        String { data: Vec::new() }
    }

    /// Copies the bytes of `s` into a fresh byte string.
    pub fn from(s: &str) -> (r: Self)
        ensures
            r@ == s.spec_bytes(),
            r.wf(),
    {
        let mut st = Self::new();
        let b: &[u8] = s.as_bytes();
        let mut i: usize = 0;
        while i < b.len()
            invariant
                i <= b@.len(),
                st@ == b@.take(i as int),
                st.wf(),
        decreases b@.len() - i,
        {
            st.add(b[i]);
            proof {
                assert(st@ =~= b@.take(i as int + 1));
            }
            i += 1;
        }
        proof {
            assert(st@ =~= b@);
        }
        st
    }

    /// Decodes the content as text. The content must be valid UTF-8: invalid
    /// content is a programming error here, ruled out by the precondition
    /// rather than silently truncated.
    pub fn toStr(&self) -> (r: &str)
        requires
            valid_utf8(self@),
        ensures
            r.spec_bytes() == self@,
    {
        match tryDecode(self.data.asArray()) {
            Some(s) => s,
            None => unreached(),
        }
    }

    /// Appends one byte.
    pub fn add(&mut self, u: u8)
        requires
            old(self).wf(),
        ensures
            final(self)@ == old(self)@.push(u),
            final(self).wf(),
    {
        self.data.pushBack(u);
    }

    /// The raw byte content.
    pub fn asArray(&self) -> (r: &[u8])
        ensures
            r@ == self@,
    {
        self.data.asArray()
    }

    /// An independent byte string with the same content.
    pub fn clone(&self) -> (r: Self)
        ensures
            r@ == self@,
            r.wf(),
    {
        String { data: self.data.clone() }
    }
}

/// Appending the byte content of another text-like value.
pub trait Append<T>: View<V = Seq<u8>> {
    /// Validity of the receiver, as the implementing type defines it.
    spec fn appendOk(&self) -> bool;

    /// The bytes that appending `other` contributes.
    spec fn bytesOf(other: &T) -> Seq<u8>;

    /// Appends the byte content of `other` at the end of `self`.
    fn append(&mut self, other: T)
        requires
            old(self).appendOk(),
        ensures
            final(self)@ == old(self)@ + Self::bytesOf(&other),
            final(self).appendOk(),
    ;
}

impl<'a> Append<&'a str> for String {
    open spec fn appendOk(&self) -> bool {
        self.wf()
    }

    open spec fn bytesOf(other: &&'a str) -> Seq<u8> {
        (*other).spec_bytes()
    }

    fn append(&mut self, s: &'a str) {
        let b: &[u8] = s.as_bytes();
        let mut i: usize = 0;
        while i < b.len()
            invariant
                i <= b@.len(),
                self@ == old(self)@ + b@.take(i as int),
                self.wf(),
        decreases b@.len() - i,
        {
            self.add(b[i]);
            proof {
                assert(self@ =~= old(self)@ + b@.take(i as int + 1));
            }
            i += 1;
        }
        proof {
            assert(self@ =~= old(self)@ + b@);
        }
    }
}

impl<'a> Append<&'a String> for String {
    open spec fn appendOk(&self) -> bool {
        self.wf()
    }

    open spec fn bytesOf(other: &&'a String) -> Seq<u8> {
        (**other)@
    }

    /// Appends the other string's byte content, byte for byte.
    fn append(&mut self, s: &'a String) {
        let b: &[u8] = s.asArray();
        let mut i: usize = 0;
        while i < b.len()
            invariant
                i <= b@.len(),
                self@ == old(self)@ + b@.take(i as int),
                self.wf(),
        decreases b@.len() - i,
        {
            self.add(b[i]);
            proof {
                assert(self@ =~= old(self)@ + b@.take(i as int + 1));
            }
            i += 1;
        }
        proof {
            assert(self@ =~= old(self)@ + b@);
        }
    }
}

impl PartialEq for String {
    /// Byte-wise comparison: equal exactly when the lengths match and every
    /// byte matches.
    fn eq(&self, other: &String) -> (r: bool) {
        let ls = self.data.len();
        let lo = other.data.len();
        if ls != lo {
            return false;
        }
        let mut i: usize = 0;
        while i < ls
            invariant
                ls == self@.len(),
                ls == other@.len(),
                i <= ls,
                forall|k: int| 0 <= k < i ==> self@[k] == other@[k],
        decreases ls - i,
        {
            if *self.data.get(i) != *other.data.get(i) {
                return false;
            }
            i += 1;
        }
        proof {
            assert(self@ =~= other@);
        }
        true
    }
}

impl vstd::std_specs::cmp::PartialEqSpecImpl for String {
    open spec fn obeys_eq_spec() -> bool {
        true
    }

    open spec fn eq_spec(&self, other: &String) -> bool {
        self@ == other@
    }
}

impl<'a> PartialEq<&'a str> for String {
    /// Byte-wise comparison against the UTF-8 bytes of a text slice.
    fn eq(&self, other: &&'a str) -> (r: bool) {
        let ob: &[u8] = other.as_bytes();
        let ls = self.data.len();
        let lo = ob.len();
        if ls != lo {
            return false;
        }
        let mut i: usize = 0;
        while i < ls
            invariant
                ob@ == (*other).spec_bytes(),
                ls == self@.len(),
                ls == ob@.len(),
                i <= ls,
                forall|k: int| 0 <= k < i ==> self@[k] == ob@[k],
        decreases ls - i,
        {
            if *self.data.get(i) != ob[i] {
                return false;
            }
            i += 1;
        }
        proof {
            assert(self@ =~= ob@);
        }
        true
    }
}

impl<'a> vstd::std_specs::cmp::PartialEqSpecImpl<&'a str> for String {
    open spec fn obeys_eq_spec() -> bool {
        true
    }

    open spec fn eq_spec(&self, other: &&'a str) -> bool {
        self@ == (*other).spec_bytes()
    }
}

impl Eq for String {

}

impl crate::hash::Hash for String {
    open spec fn hashSpec(&self) -> usize {
        murmur64(self@, 0xcae4f57u64) as usize
    }

    fn hash(&self) -> (r: usize)
        ensures
            r == self.hashSpec(),
    {
        murmurHash64A(self.data.asArray(), 0xcae4f57) as usize
    }
}

/// The text round-trip law: the byte content of a string built from text is
/// always valid UTF-8 and decodes back to exactly that text. In particular,
/// `toStr`'s precondition holds for every string that `from` built.
pub proof fn lemma_text_round_trip(chars: Seq<char>)
    ensures
        valid_utf8(vstd::utf8::encode_utf8(chars)),
        vstd::utf8::decode_utf8(vstd::utf8::encode_utf8(chars)) == chars,
{
    vstd::utf8::encode_utf8_valid_utf8(chars);
    vstd::utf8::encode_utf8_decode_utf8(chars);
}

/// The byte-string equality law: two byte sequences are equal exactly when
/// their lengths match and every byte matches.
pub proof fn lemma_eq_bytes(a: Seq<u8>, b: Seq<u8>)
    ensures
        (a == b) <==> (a.len() == b.len() && (forall|i: int| 0 <= i < a.len() ==> a[i] == b[i])),
{
    if a.len() == b.len() && (forall|i: int| 0 <= i < a.len() ==> a[i] == b[i]) {
        assert(a =~= b);
    }
}

} // verus!
