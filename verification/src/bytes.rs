use vstd::prelude::*;

use crate::refs::MutRefType;
use crate::refs::SelfieRefMut;
use crate::selfie::SelfieMut;

verus! {

/// An exclusive view of the byte range `start .. start + data.len()` of
/// some owner: `data` is the authoritative current contents of that
/// range. Writing the span back into the owner replaces exactly that
/// range; see [`spliced`].
pub struct ByteSpan {
    /// Index in the owner where the governed range begins.
    pub start: usize,
    /// Current contents of the governed range.
    pub data: Vec<u8>,
}

/// The sequence `o` with the range `start .. start + d.len()` replaced
/// by `d`: what writing a byte span back into its owner produces.
pub open spec fn spliced(o: Seq<u8>, start: int, d: Seq<u8>) -> Seq<u8> {
    o.subrange(0, start).add(d).add(o.subrange(start + d.len(), o.len() as int))
}

impl ByteSpan {
    /// Carves the range `start .. end` out of `bytes`: the span governs
    /// that range and starts with a copy of its contents.
    pub fn carve(bytes: &Vec<u8>, start: usize, end: usize) -> (b: ByteSpan)
        requires
            start <= end <= bytes@.len(),
        ensures
            b.start == start,
            b.data@ == bytes@.subrange(start as int, end as int),
    {
        let mut data: Vec<u8> = Vec::new();
        let mut i: usize = start;
        while i < end
            invariant
                start <= i <= end <= bytes@.len(),
                data@ == bytes@.subrange(start as int, i as int),
            decreases end - i,
        {
            data.push(bytes[i]);
            proof {
                assert(data@ =~= bytes@.subrange(start as int, i + 1 as int));
            }
            i = i + 1;
        }
        ByteSpan { start, data }
    }

    /// Number of bytes the span governs.
    pub fn len(&self) -> (n: usize)
        ensures
            n == self.data@.len(),
    {
        self.data.len()
    }

    /// The byte at index `i` of the span.
    pub fn get(&self, i: usize) -> (b: u8)
        requires
            i < self.data@.len(),
        ensures
            b == self.data@[i as int],
    {
        self.data[i]
    }

    /// Writes `b` at index `i` of the span. The change reaches the owner
    /// when the span is written back.
    pub fn set(&mut self, i: usize, b: u8)
        requires
            i < old(self).data@.len(),
        ensures
            final(self).start == old(self).start,
            final(self).data@ == old(self).data@.update(i as int, b),
    {
        self.data[i] = b;
    }
}

/// The family of exclusive byte-span views. It is declared for an owner
/// that is a byte buffer, and also for an owner that is itself a
/// [`ByteSpan`], so spans can be carved from spans.
pub struct MutBytes;

impl MutRefType<Vec<u8>> for MutBytes {
    type Ref = ByteSpan;

    open spec fn wf(r: &ByteSpan, o: &Vec<u8>) -> bool {
        r.start + r.data@.len() <= o@.len()
    }

    open spec fn merge_rel(o: &Vec<u8>, r: &ByteSpan, out: &Vec<u8>) -> bool {
        out@ == spliced(o@, r.start as int, r.data@)
    }

    fn merge(o: Vec<u8>, r: ByteSpan) -> (out: Vec<u8>) {
        let mut out = o;
        let ghost orig = out@;
        let n = out.len();
        let mut i: usize = 0;
        while i < r.data.len()
            invariant
                i <= r.data@.len(),
                r.start + r.data@.len() <= orig.len(),
                orig.len() == n,
                out@.len() == orig.len(),
                forall|j: int|
                    0 <= j < orig.len() && !(r.start <= j < r.start + i) ==> out@[j] == orig[j],
                forall|j: int| r.start <= j < r.start + i ==> out@[j] == r.data@[j - r.start],
            decreases r.data@.len() - i,
        {
            let k = r.start + i;
            out[k] = r.data[i];
            i = i + 1;
        }
        proof {
            assert(out@ =~= spliced(orig, r.start as int, r.data@));
        }
        out
    }
}

impl MutRefType<ByteSpan> for MutBytes {
    type Ref = ByteSpan;

    open spec fn wf(r: &ByteSpan, o: &ByteSpan) -> bool {
        r.start + r.data@.len() <= o.data@.len()
    }

    open spec fn merge_rel(o: &ByteSpan, r: &ByteSpan, out: &ByteSpan) -> bool {
        out.start == o.start && out.data@ == spliced(o.data@, r.start as int, r.data@)
    }

    fn merge(o: ByteSpan, r: ByteSpan) -> (out: ByteSpan) {
        let ByteSpan { start, data } = o;
        let data = <MutBytes as MutRefType<Vec<u8>>>::merge(data, r);
        ByteSpan { start, data }
    }
}

impl MutRefType<Vec<u8>> for SelfieRefMut<MutBytes, MutBytes> {
    type Ref = SelfieMut<ByteSpan, MutBytes>;

    open spec fn wf(r: &SelfieMut<ByteSpan, MutBytes>, o: &Vec<u8>) -> bool {
        r.wf() && r.spec_owned().start + r.spec_owned().data@.len() <= o@.len()
    }

    open spec fn merge_rel(o: &Vec<u8>, r: &SelfieMut<ByteSpan, MutBytes>, out: &Vec<u8>) -> bool {
        exists|mid: ByteSpan|
            #[trigger] <MutBytes as MutRefType<ByteSpan>>::merge_rel(
                &r.spec_owned(),
                &r.spec_referential(),
                &mid,
            ) && <MutBytes as MutRefType<Vec<u8>>>::merge_rel(o, &mid, out)
    }

    fn merge(o: Vec<u8>, r: SelfieMut<ByteSpan, MutBytes>) -> (out: Vec<u8>) {
        let ghost owner = r.spec_owned();
        let ghost referential = r.spec_referential();
        proof {
            r.lemma_wf();
        }
        let mid = r.into_owned();
        proof {
            assert(mid.data@.len() == owner.data@.len());
        }
        let out = <MutBytes as MutRefType<Vec<u8>>>::merge(o, mid);
        proof {
            assert(<MutBytes as MutRefType<ByteSpan>>::merge_rel(&owner, &referential, &mid));
        }
        out
    }
}

/// Law: a merged buffer keeps its length, and each of its bytes comes
/// from the span inside the governed range and from the original buffer
/// outside it. This is what makes a write at index `i` of a span show up
/// at index `start + i` of the recovered owner, and nowhere else.
pub proof fn lemma_spliced_bytes(o: Seq<u8>, start: int, d: Seq<u8>, i: int)
    requires
        0 <= start,
        start + d.len() <= o.len(),
        0 <= i < o.len(),
    ensures
        spliced(o, start, d).len() == o.len(),
        start <= i < start + d.len() ==> spliced(o, start, d)[i] == d[i - start],
        !(start <= i < start + d.len()) ==> spliced(o, start, d)[i] == o[i],
{
}

/// Law: tearing a nested span container down recovers a buffer of the
/// same length in which each byte comes from the innermost span inside
/// its range, from the outer span inside the rest of the outer range,
/// and from the original buffer everywhere else. A write at index `i`
/// of the innermost view therefore lands at index
/// `outer.start + inner.start + i` of the buffer, and nowhere else.
pub proof fn lemma_nested_merge_bytes(
    o: Vec<u8>,
    r: SelfieMut<ByteSpan, MutBytes>,
    out: Vec<u8>,
    i: int,
)
    requires
        <SelfieRefMut<MutBytes, MutBytes> as MutRefType<Vec<u8>>>::wf(&r, &o),
        <SelfieRefMut<MutBytes, MutBytes> as MutRefType<Vec<u8>>>::merge_rel(&o, &r, &out),
        0 <= i < o@.len(),
    ensures
        out@.len() == o@.len(),
        ({
            let outer = r.spec_owned();
            let inner = r.spec_referential();
            let lo = outer.start + inner.start;
            let hi = lo + inner.data@.len();
            &&& (lo <= i < hi ==> out@[i] == inner.data@[i - lo])
            &&& (outer.start <= i < outer.start + outer.data@.len() && !(lo <= i < hi) ==> out@[i]
                == outer.data@[i - outer.start])
            &&& (!(outer.start <= i < outer.start + outer.data@.len()) ==> out@[i] == o@[i])
        }),
{
    r.lemma_wf();
    let outer = r.spec_owned();
    let inner = r.spec_referential();
    let mid = choose|mid: ByteSpan|
        #[trigger] <MutBytes as MutRefType<ByteSpan>>::merge_rel(&outer, &inner, &mid)
            && <MutBytes as MutRefType<Vec<u8>>>::merge_rel(&o, &mid, &out);
    assert(mid.data@.len() == outer.data@.len());
    if 0 <= i - outer.start < outer.data@.len() {
        lemma_spliced_bytes(outer.data@, inner.start as int, inner.data@, i - outer.start);
    }
    lemma_spliced_bytes(o@, outer.start as int, mid.data@, i);
}

/// Law: carving a range out of a buffer and writing it back unchanged
/// leaves the buffer exactly as it was.
pub proof fn lemma_carve_merge_roundtrip(o: Seq<u8>, start: int, end: int)
    requires
        0 <= start <= end <= o.len(),
    ensures
        spliced(o, start, o.subrange(start, end)) == o,
{
    assert(spliced(o, start, o.subrange(start, end)) =~= o);
}

} // verus!
