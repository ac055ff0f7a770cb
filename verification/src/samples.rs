//! Moving samples: the copies that the components make of what they hold.

use vstd::prelude::*;

verus! {

/// A vector of `n` copies of `value`.
pub fn filled<T: Copy>(value: T, n: usize) -> (r: Vec<T>)
    ensures
        r@ == Seq::new(n as nat, |i: int| value),
{
    let mut r: Vec<T> = Vec::new();
    let mut i: usize = 0;
    while i < n
        invariant
            i <= n,
            r@ == Seq::new(i as nat, |j: int| value),
        decreases n - i,
    {
        r.push(value);
        i += 1;
        proof {
            assert(r@ =~= Seq::new(i as nat, |j: int| value));
        }
    }
    r
}

/// An element by element copy of a vector.
pub fn copied<T: Copy>(v: &Vec<T>) -> (r: Vec<T>)
    ensures
        r@ == v@,
{
    let mut r: Vec<T> = Vec::new();
    let mut i: usize = 0;
    while i < v.len()
        invariant
            i <= v.len(),
            r@ == v@.take(i as int),
        decreases v.len() - i,
    {
        r.push(v[i]);
        i += 1;
        proof {
            assert(r@ =~= v@.take(i as int));
        }
    }
    proof {
        assert(v@.take(v.len() as int) =~= v@);
    }
    r
}

/// Appends a copy of the samples of `src` to `dst`.
pub fn extend<T: Copy>(dst: &mut Vec<T>, src: &Vec<T>)
    ensures
        final(dst)@ == old(dst)@ + src@,
{
    let mut i: usize = 0;
    while i < src.len()
        invariant
            i <= src.len(),
            dst@ == old(dst)@ + src@.take(i as int),
        decreases src.len() - i,
    {
        dst.push(src[i]);
        i += 1;
        proof {
            assert(dst@ =~= old(dst)@ + src@.take(i as int));
        }
    }
    proof {
        assert(src@.take(src.len() as int) =~= src@);
    }
}

/// The samples of a series, vector by vector.
pub open spec fn rows<T>(series: Seq<Vec<T>>) -> Seq<Seq<T>> {
    Seq::new(series.len(), |i: int| series[i]@)
}

/// A copy of the vectors of a series from place `from` up to, and without,
/// place `to`.
pub fn copied_range<T: Copy>(series: &Vec<Vec<T>>, from: usize, to: usize) -> (r: Vec<Vec<T>>)
    requires
        from <= to <= series@.len(),
    ensures
        rows(r@) == rows(series@).subrange(from as int, to as int),
{
    let mut r: Vec<Vec<T>> = Vec::new();
    let mut i: usize = from;
    while i < to
        invariant
            from <= i <= to,
            to <= series@.len(),
            r@.len() == i - from,
            forall|j: int| 0 <= j < i - from ==> (#[trigger] r@[j])@ == series@[from + j]@,
        decreases to - i,
    {
        r.push(copied(&series[i]));
        i += 1;
    }
    proof {
        assert(rows(r@) =~= rows(series@).subrange(from as int, to as int));
    }
    r
}

/// A copy of the first `n` vectors of a series.
pub fn copied_rows<T: Copy>(series: &Vec<Vec<T>>, n: usize) -> (r: Vec<Vec<T>>)
    requires
        n <= series@.len(),
    ensures
        rows(r@) == rows(series@).take(n as int),
{
    copied_range(series, 0, n)
}

/// One vector in every `k` of a series: the first, and from then on each
/// that comes `k` places after the one before.
pub open spec fn every<T>(series: Seq<Seq<T>>, k: int) -> Seq<Seq<T>> {
    Seq::new(((series.len() + k - 1) / k) as nat, |i: int| series[i * k])
}

proof fn lemma_stride(i: int, k: int, len: int)
    by (nonlinear_arith)
    requires
        k > 0,
        i >= 0,
        len >= 0,
    ensures
        (i + 1) * k == i * k + k,
        i * k >= 0,
        i * k < len ==> i < (len + k - 1) / k,
        i * k >= len ==> i >= (len + k - 1) / k,
{
}

proof fn lemma_within_stride(m: int, i: int, k: int)
    by (nonlinear_arith)
    requires
        k > 0,
        0 <= m < i,
    ensures
        0 <= m * k <= (i - 1) * k,
{
}

/// A copy of one vector in every `k` of a series.
pub fn copied_every<T: Copy>(series: &Vec<Vec<T>>, k: usize) -> (r: Vec<Vec<T>>)
    requires
        k > 0,
    ensures
        rows(r@) == every(rows(series@), k as int),
{
    let len = series.len();
    let mut r: Vec<Vec<T>> = Vec::new();
    let mut j: usize = 0;
    let ghost mut i: int = 0;
    proof {
        lemma_stride(0, k as int, len as int);
    }
    while j < len
        invariant
            k > 0,
            len == series@.len(),
            i >= 0,
            j < len ==> j == i * k,
            j >= len ==> i * k >= len,
            i > 0 ==> (i - 1) * k < len,
            r@.len() == i,
            forall|m: int| 0 <= m < i ==> (#[trigger] r@[m])@ == series@[m * k]@,
        decreases len - j,
    {
        r.push(copied(&series[j]));
        proof {
            lemma_stride(i, k as int, len as int);
            i = i + 1;
        }
        if len - j > k {
            j = j + k;
        } else {
            j = len;
        }
    }
    proof {
        lemma_stride(i, k as int, len as int);
        if i > 0 {
            lemma_stride(i - 1, k as int, len as int);
        }
        assert(i == (len + k - 1) / (k as int));
        assert forall|m: int| 0 <= m < i implies rows(r@)[m] == #[trigger] every(
            rows(series@),
            k as int,
        )[m] by {
            lemma_within_stride(m, i, k as int);
        }
        assert(rows(r@) =~= every(rows(series@), k as int));
    }
    r
}

} // verus!
