//! Layout of fixed-size arrays: the elements in index order.

use vstd::prelude::*;
use vstd::arithmetic::mul::{lemma_mul_inequality, lemma_mul_is_distributive_add_other_way};
use crate::wire::{field, zeros, Layout};

verus! {

/// The layouts of the elements of `s`, one after another.
pub open spec fn layout_all<T: Layout>(s: Seq<T>) -> Seq<u8>
    decreases s.len(),
{
    if s.len() == 0 {
        Seq::empty()
    } else {
        layout_all(s.drop_last()) + s.last().layout()
    }
}

/// The `n` values that `bytes` hold, one after another.
pub open spec fn read_all<T: Layout>(bytes: Seq<u8>, n: nat) -> Seq<T> {
    Seq::new(n, |i: int| T::read(field(bytes, i * T::size(), T::size())))
}

/// An array that holds the first `k` elements of `s` at their indices.
pub open spec fn array_prefix<T: Copy, const N: usize>(s: Seq<T>, k: nat) -> [T; N]
    decreases k,
{
    if k == 0 {
        vstd::array::spec_array_fill_for_copy_type::<T, N>(arbitrary())
    } else {
        vstd::array::spec_array_update(array_prefix::<T, N>(s, (k - 1) as nat), k - 1, s[k - 1])
    }
}

/// The array whose elements are those of `s`.
pub open spec fn array_from<T: Copy, const N: usize>(s: Seq<T>) -> [T; N] {
    array_prefix::<T, N>(s, N as nat)
}

proof fn lemma_array_prefix<T: Copy, const N: usize>(s: Seq<T>, k: nat)
    requires
        k <= N,
    ensures
        forall|i: int| 0 <= i < k ==> array_prefix::<T, N>(s, k)@[i] == s[i],
    decreases k,
{
    if k > 0 {
        lemma_array_prefix::<T, N>(s, (k - 1) as nat);
    }
}

/// `array_from` builds the array with the given elements.
pub proof fn lemma_array_from<T: Copy, const N: usize>(s: Seq<T>)
    requires
        s.len() == N,
    ensures
        array_from::<T, N>(s)@ == s,
{
    lemma_array_prefix::<T, N>(s, N as nat);
    assert(array_from::<T, N>(s)@ =~= s);
}

/// An array is built from its own elements.
pub proof fn lemma_array_from_view<T: Copy, const N: usize>(a: [T; N])
    ensures
        array_from::<T, N>(a@) == a,
{
    lemma_array_from::<T, N>(a@);
    assert(array_from::<T, N>(a@) =~= a);
}

/// The layout of `n` elements has `n` times the size of one.
pub proof fn lemma_layout_all_len<T: Layout>(s: Seq<T>)
    ensures
        layout_all(s).len() == s.len() * T::size(),
    decreases s.len(),
{
    if s.len() > 0 {
        lemma_layout_all_len(s.drop_last());
        s.last().lemma_layout_len();
        lemma_mul_is_distributive_add_other_way(T::size() as int, s.len() - 1, 1);
    }
}

/// Adding an element adds its layout at the end.
pub proof fn lemma_layout_all_push<T: Layout>(s: Seq<T>, x: T)
    ensures
        layout_all(s.push(x)) == layout_all(s) + x.layout(),
{
    assert(s.push(x).drop_last() =~= s);
}

/// Element `i` lies at offset `i` times the size of one.
pub proof fn lemma_layout_all_field<T: Layout>(s: Seq<T>, i: int)
    requires
        0 <= i < s.len(),
    ensures
        (i + 1) * T::size() <= layout_all(s).len(),
        field(layout_all(s), i * T::size(), T::size()) == s[i].layout(),
    decreases s.len(),
{
    let w = T::size();
    let front = s.drop_last();
    lemma_layout_all_len(s);
    lemma_layout_all_len(front);
    s.last().lemma_layout_len();
    lemma_mul_is_distributive_add_other_way(w as int, s.len() - 1, 1);
    lemma_mul_is_distributive_add_other_way(w as int, i, 1);
    if i == s.len() - 1 {
        assert(field(layout_all(s), i * w, w) =~= s[i].layout());
    } else {
        lemma_layout_all_field(front, i);
        assert(field(layout_all(s), i * w, w) =~= field(layout_all(front), i * w, w));
    }
}

/// Reading back the layout of a sequence gives its elements.
pub proof fn lemma_read_all_layout_all<T: Layout>(s: Seq<T>)
    ensures
        read_all::<T>(layout_all(s), s.len()) == s,
{
    let r = read_all::<T>(layout_all(s), s.len());
    assert forall|i: int| 0 <= i < s.len() implies r[i] == s[i] by {
        lemma_layout_all_field(s, i);
        s[i].lemma_read_layout();
    }
    assert(r =~= s);
}

/// The bytes of `n` elements are the layout of the elements read from them.
pub proof fn lemma_layout_all_read_all<T: Layout>(bytes: Seq<u8>, n: nat)
    requires
        bytes.len() == n * T::size(),
    ensures
        layout_all(read_all::<T>(bytes, n)) == bytes,
    decreases n,
{
    let w = T::size();
    let s = read_all::<T>(bytes, n);
    if n == 0 {
        assert(n * w == 0) by (nonlinear_arith)
            requires
                n == 0,
        ;
        assert(layout_all(s) =~= bytes);
    } else {
        let m = (n - 1) as nat;
        lemma_mul_is_distributive_add_other_way(w as int, m as int, 1);
        let front = bytes.subrange(0, (m * w) as int);
        let tail = bytes.subrange((m * w) as int, (n * w) as int);
        lemma_layout_all_read_all::<T>(front, m);
        assert forall|i: int| 0 <= i < m implies read_all::<T>(front, m)[i] == s[i] by {
            lemma_mul_is_distributive_add_other_way(w as int, i, 1);
            lemma_mul_inequality(i + 1, m as int, w as int);
            assert(field(front, i * w, w) =~= field(bytes, i * w, w));
        }
        assert(s.drop_last() =~= read_all::<T>(front, m));
        assert(field(bytes, (m * w) as int, w) =~= tail);
        T::lemma_layout_read(tail);
        assert(front + tail =~= bytes);
    }
}

/// The layout of elements that are all zero bytes is all zero bytes.
pub proof fn lemma_layout_all_zeros<T: Layout>(s: Seq<T>)
    requires
        forall|i: int| 0 <= i < s.len() ==> (#[trigger] s[i]).layout() == zeros(T::size()),
    ensures
        layout_all(s) == zeros(s.len() * T::size()),
    decreases s.len(),
{
    if s.len() > 0 {
        lemma_layout_all_zeros(s.drop_last());
        lemma_layout_all_len(s);
        lemma_layout_all_len(s.drop_last());
        lemma_mul_is_distributive_add_other_way(T::size() as int, s.len() - 1, 1);
        assert(s.last() == s[s.len() - 1]);
    }
    assert(layout_all(s) =~= zeros(s.len() * T::size()));
}

impl<T: Layout, const N: usize> Layout for [T; N] {
    open spec fn size() -> nat {
        (N * T::size()) as nat
    }

    open spec fn layout(&self) -> Seq<u8> {
        layout_all(self@)
    }

    open spec fn read(bytes: Seq<u8>) -> Self {
        array_from::<T, N>(read_all::<T>(bytes, N as nat))
    }

    proof fn lemma_layout_len(&self) {
        lemma_layout_all_len(self@);
    }

    proof fn lemma_read_layout(&self) {
        lemma_read_all_layout_all(self@);
        lemma_array_from_view(*self);
    }

    proof fn lemma_layout_read(bytes: Seq<u8>) {
        lemma_array_from::<T, N>(read_all::<T>(bytes, N as nat));
        lemma_layout_all_read_all::<T>(bytes, N as nat);
    }

    proof fn lemma_sealed_twice(&self) {
    }

    fn zeroed() -> (r: Self) {
        let z = T::zeroed();
        let r = [z; N];
        proof {
            lemma_layout_all_zeros(r@);
        }
        r
    }

    fn put(&self, out: &mut Vec<u8>) {
        let mut i: usize = 0;
        while i < N
            invariant
                i <= N,
                out@ == old(out)@ + layout_all(self@.subrange(0, i as int)),
            decreases N - i,
        {
            proof {
                assert(self@.subrange(0, i + 1) =~= self@.subrange(0, i as int).push(self@[i as int]));
                lemma_layout_all_push(self@.subrange(0, i as int), self@[i as int]);
            }
            self[i].put(out);
            i += 1;
        }
        assert(self@.subrange(0, N as int) =~= self@);
    }

    fn take(bytes: &[u8], pos: &mut usize) -> (r: Option<Self>) {
        let start: usize = *pos;
        if start > bytes.len() {
            return None;
        }
        let mut r = [T::zeroed(); N];
        let mut i: usize = 0;
        let mut p: usize = start;
        let ghost w = T::size();
        let ghost whole = field(bytes@, start as int, Self::size());
        while i < N
            invariant
                i <= N,
                w == T::size(),
                p == start + i * w,
                p <= bytes.len(),
                *pos == start,
                whole == field(bytes@, start as int, (N * w) as nat),
                forall|j: int| 0 <= j < i ==> r@[j] == T::read(field(bytes@, start + j * w, w)),
            decreases N - i,
        {
            proof {
                lemma_mul_is_distributive_add_other_way(w as int, i as int, 1);
                lemma_mul_inequality(i + 1, N as int, w as int);
            }
            match T::take(bytes, &mut p) {
                None => {
                    return None;
                },
                Some(v) => {
                    r[i] = v;
                },
            }
            i += 1;
        }
        proof {
            assert forall|j: int| 0 <= j < N implies r@[j] == read_all::<T>(whole, N as nat)[j] by {
                lemma_mul_is_distributive_add_other_way(w as int, j, 1);
                lemma_mul_inequality(j + 1, N as int, w as int);
                assert(field(whole, j * w, w) =~= field(bytes@, start + j * w, w));
            }
            lemma_array_from::<T, N>(read_all::<T>(whole, N as nat));
            assert(r =~= Self::read(whole));
        }
        *pos = p;
        Some(r)
    }

    fn seal(&self) -> (r: Self) {
        *self
    }

    fn is_sealed(&self) -> (r: bool) {
        true
    }
}

} // verus!
