//! Byte strings as C holds them: no NUL inside, and one NUL after the last
//! byte on the wire.

use vstd::prelude::*;

verus! {

/// No byte of `s` is zero.
pub open spec fn no_nul(s: Seq<u8>) -> bool {
    forall|i: int| 0 <= i < s.len() ==> s[i] != 0
}

/// `i` is the position of the first zero byte of `s`.
pub open spec fn is_first_nul(s: Seq<u8>, i: int) -> bool {
    &&& 0 <= i < s.len()
    &&& s[i] == 0
    &&& no_nul(s.take(i))
}

/// Finds the first zero byte of `bytes`, if any.
pub fn find_nul(bytes: &[u8]) -> (r: Option<usize>)
    ensures
        match r {
            Some(i) => is_first_nul(bytes@, i as int),
            None => no_nul(bytes@),
        },
{
    let mut i: usize = 0;
    while i < bytes.len()
        invariant
            i <= bytes@.len(),
            no_nul(bytes@.take(i as int)),
        decreases bytes@.len() - i,
    {
        if bytes[i] == 0 {
            return Some(i);
        }
        assert(bytes@.take(i as int + 1) =~= bytes@.take(i as int).push(bytes@[i as int]));
        i = i + 1;
    }
    assert(bytes@.take(i as int) =~= bytes@);
    None
}

/// An owned C string: its bytes, none of them zero.
#[derive(PartialEq, Eq, Debug)]
pub struct CString {
    bytes: Vec<u8>,
}

/// The error of `CString::new`: the position of the first zero byte.
#[derive(Clone, Copy, PartialEq, Eq, Structural, Debug)]
pub struct NulError(pub usize);

impl View for CString {
    type V = Seq<u8>;

    closed spec fn view(&self) -> Seq<u8> {
        self.bytes@
    }
}

impl CString {
    #[verifier::type_invariant]
    spec fn inv(&self) -> bool {
        no_nul(self.bytes@)
    }

    /// Takes `bytes` as a C string; fails at the first zero byte.
    pub fn new(bytes: Vec<u8>) -> (r: Result<CString, NulError>)
        ensures
            match r {
                Ok(s) => s@ == bytes@,
                Err(e) => is_first_nul(bytes@, e.0 as int),
            },
            r is Ok <==> no_nul(bytes@),
    {
        match find_nul(bytes.as_slice()) {
            Some(i) => Err(NulError(i)),
            None => Ok(CString { bytes }),
        }
    }

    /// The empty string.
    pub fn empty() -> (r: CString)
        ensures
            r@ == Seq::<u8>::empty(),
    {
        CString { bytes: Vec::new() }
    }

    /// The bytes of `bytes` before its first zero byte.
    pub fn from_bytes_until_nul(bytes: &[u8], nul: usize) -> (r: CString)
        requires
            is_first_nul(bytes@, nul as int),
        ensures
            r@ == bytes@.take(nul as int),
    {
        let mut v: Vec<u8> = Vec::new();
        let mut i: usize = 0;
        while i < nul
            invariant
                i <= nul,
                is_first_nul(bytes@, nul as int),
                v@ == bytes@.take(i as int),
            decreases nul - i,
        {
            v.push(bytes[i]);
            assert(bytes@.take(i as int + 1) =~= bytes@.take(i as int).push(bytes@[i as int]));
            i = i + 1;
        }
        CString { bytes: v }
    }

    /// The bytes, without the terminating NUL.
    pub fn as_bytes(&self) -> (r: &[u8])
        ensures
            r@ == self@,
            no_nul(self@),
    {
        proof { use_type_invariant(self); }
        self.bytes.as_slice()
    }

    /// The bytes followed by the terminating NUL.
    pub fn to_bytes_with_nul(&self) -> (r: Vec<u8>)
        ensures
            r@ == self@.push(0),
            no_nul(self@),
    {
        proof { use_type_invariant(self); }
        let mut v: Vec<u8> = Vec::new();
        let mut i: usize = 0;
        while i < self.bytes.len()
            invariant
                i <= self.bytes@.len(),
                v@ == self.bytes@.take(i as int),
            decreases self.bytes@.len() - i,
        {
            v.push(self.bytes[i]);
            assert(self.bytes@.take(i as int + 1) =~= self.bytes@.take(i as int).push(
                self.bytes@[i as int],
            ));
            i = i + 1;
        }
        v.push(0);
        assert(self.bytes@.take(i as int) =~= self.bytes@);
        v
    }

    /// A copy with the same bytes.
    pub fn duplicate(&self) -> (r: CString)
        ensures
            r@ == self@,
            no_nul(self@),
    {
        proof { use_type_invariant(self); }
        let mut v: Vec<u8> = Vec::new();
        let mut i: usize = 0;
        while i < self.bytes.len()
            invariant
                i <= self.bytes@.len(),
                v@ == self.bytes@.take(i as int),
                no_nul(self.bytes@),
            decreases self.bytes@.len() - i,
        {
            v.push(self.bytes[i]);
            assert(self.bytes@.take(i as int + 1) =~= self.bytes@.take(i as int).push(
                self.bytes@[i as int],
            ));
            i = i + 1;
        }
        assert(self.bytes@.take(i as int) =~= self.bytes@);
        CString { bytes: v }
    }

    pub fn len(&self) -> (r: usize)
        ensures
            r == self@.len(),
            no_nul(self@),
    {
        proof { use_type_invariant(self); }
        self.bytes.len()
    }

    pub fn is_empty(&self) -> (r: bool)
        ensures
            r == (self@.len() == 0),
            no_nul(self@),
    {
        proof { use_type_invariant(self); }
        self.bytes.len() == 0
    }
}

} // verus!
