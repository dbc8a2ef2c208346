use vstd::prelude::*;

use crate::memory::RemoteRecord;
use vstd::std_specs::cmp::PartialEqSpec;

verus! {

broadcast use vstd::array::group_array_axioms;

/// A fixed block of `N` bytes standing for a field whose layout is not known.
#[derive(Copy, Clone)]
pub struct UnknownField<const N: usize> {
    data: [u8; N],
}

impl<const N: usize> UnknownField<N> {
    /// The bytes of the block.
    pub closed spec fn view_bytes(&self) -> Seq<u8> {
        self.data@
    }

    /// A block holding these bytes.
    pub fn new(data: [u8; N]) -> (r: Self)
        ensures
            r.view_bytes() == data@,
    {
        UnknownField { data }
    }

    /// The bytes of the block.
    pub fn bytes(&self) -> (r: [u8; N])
        ensures
            r@ == self.view_bytes(),
    {
        self.data
    }

    /// The bytes as two lower-case hex digits each, each pair preceded by a space.
    pub fn render(&self) -> (r: String)
        ensures
            r@ == hex_listing(self.view_bytes()),
    {
        let mut out = String::new();
        let mut i: usize = 0;
        while i < N
            invariant
                i <= N,
                self.data@.len() == N,
                out@ == hex_listing(self.data@.take(i as int)),
            decreases N - i,
        {
            let b = self.data[i];
            proof {
                assert(self.data@.take(i as int + 1).drop_last() == self.data@.take(i as int));
                reveal_strlit(" ");
            }
            out.append(" ");
            out.append(hex_digit(b / 16));
            out.append(hex_digit(b % 16));
            i = i + 1;
        }
        proof { assert(self.data@.take(N as int) == self.data@); }
        out
    }
}

/// The lower-case hex digit for a value below 16.
pub open spec fn hex_char(v: u8) -> char {
    if v < 10 {
        (('0' as u8) + v) as char
    } else {
        (('a' as u8) + (v - 10) as u8) as char
    }
}

/// Each byte as a space and two lower-case hex digits.
pub open spec fn hex_listing(bytes: Seq<u8>) -> Seq<char>
    decreases bytes.len(),
{
    if bytes.len() == 0 {
        Seq::empty()
    } else {
        let b = bytes.last();
        hex_listing(bytes.drop_last()) + seq![' ', hex_char(b / 16), hex_char(b % 16)]
    }
}

fn hex_digit(v: u8) -> (r: &'static str)
    requires
        v < 16,
    ensures
        r@ == seq![hex_char(v)],
{
    let r = match v {
        0 => "0", 1 => "1", 2 => "2", 3 => "3", 4 => "4", 5 => "5", 6 => "6", 7 => "7",
        8 => "8", 9 => "9", 10 => "a", 11 => "b", 12 => "c", 13 => "d", 14 => "e", _ => "f",
    };
    proof {
        reveal_strlit("0"); reveal_strlit("1"); reveal_strlit("2"); reveal_strlit("3");
        reveal_strlit("4"); reveal_strlit("5"); reveal_strlit("6"); reveal_strlit("7");
        reveal_strlit("8"); reveal_strlit("9"); reveal_strlit("a"); reveal_strlit("b");
        reveal_strlit("c"); reveal_strlit("d"); reveal_strlit("e"); reveal_strlit("f");
    }
    r
}

/// Blocks of one width are equal exactly when their bytes are, so blocks that
/// differ in any single byte are unequal; the default block is all zeros.
pub proof fn lemma_field_equality<const N: usize>(a: UnknownField<N>, b: UnknownField<N>, i: int)
    requires
        0 <= i < N,
        a.view_bytes()[i] != b.view_bytes()[i],
    ensures
        !a.eq_spec(&b),
        a.eq_spec(&a),
{
}

impl<const N: usize> PartialEq for UnknownField<N> {
    fn eq(&self, other: &Self) -> (r: bool) {
        let mut i: usize = 0;
        while i < N
            invariant
                i <= N,
                self.data@.len() == N,
                other.data@.len() == N,
                forall|j: int| 0 <= j < i ==> self.data@[j] == other.data@[j],
            decreases N - i,
        {
            if self.data[i] != other.data[i] {
                return false;
            }
            i = i + 1;
        }
        assert(self.data@ =~= other.data@);
        true
    }
}

impl<const N: usize> vstd::std_specs::cmp::PartialEqSpecImpl for UnknownField<N> {
    open spec fn obeys_eq_spec() -> bool {
        true
    }

    open spec fn eq_spec(&self, other: &Self) -> bool {
        self.view_bytes() == other.view_bytes()
    }
}

impl<const N: usize> Eq for UnknownField<N> {
}

impl<const N: usize> Default for UnknownField<N> {
    fn default() -> (r: Self)
        ensures
            r.view_bytes() == Seq::new(N as nat, |i: int| 0u8),
    {
        let data: [u8; N] = vstd::array::array_fill_for_copy_types(0u8);
        assert(data@ =~= Seq::new(N as nat, |i: int| 0u8));
        UnknownField { data }
    }
}

impl<const N: usize> RemoteRecord for UnknownField<N> {
    open spec fn image(&self) -> Seq<u8> {
        self.view_bytes()
    }

    open spec fn image_len() -> nat {
        N as nat
    }

    proof fn lemma_image_len(&self) {
    }

    proof fn lemma_image_determines(&self, other: &Self) {
        assert(self.data =~= other.data);
    }

    fn byte_len() -> (n: usize) {
        N
    }

    fn decode(bytes: &[u8]) -> (r: Self) {
        let mut data: [u8; N] = vstd::array::array_fill_for_copy_types(0u8);
        let mut i: usize = 0;
        while i < N
            invariant
                i <= N,
                bytes@.len() == N,
                data@.len() == N,
                forall|j: int| 0 <= j < i ==> data@[j] == bytes@[j],
            decreases N - i,
        {
            data[i] = bytes[i];
            i = i + 1;
        }
        assert(data@ =~= bytes@);
        UnknownField { data }
    }
}

} // verus!
