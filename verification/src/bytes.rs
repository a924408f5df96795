//! Data that is sent as a list of chunks of bytes.

use vstd::prelude::*;
use vstd::utf8::encode_utf8;

verus! {

/// The number of bytes in all of `chunks`.
pub open spec fn total_len(chunks: Seq<Seq<u8>>) -> nat
    decreases chunks.len(),
{
    if chunks.len() == 0 {
        0
    } else {
        total_len(chunks.drop_last()) + chunks.last().len()
    }
}

/// All of `chunks`, one after the other.
pub open spec fn concat(chunks: Seq<Seq<u8>>) -> Seq<u8>
    decreases chunks.len(),
{
    if chunks.len() == 0 {
        Seq::empty()
    } else {
        concat(chunks.drop_last()) + chunks.last()
    }
}

/// Chunks hold as many bytes as what they make up.
pub proof fn lemma_concat_len(chunks: Seq<Seq<u8>>)
    ensures
        concat(chunks).len() == total_len(chunks),
    decreases chunks.len(),
{
    if chunks.len() > 0 {
        lemma_concat_len(chunks.drop_last());
    }
}

pub proof fn lemma_concat_add(a: Seq<Seq<u8>>, b: Seq<Seq<u8>>)
    ensures
        concat(a + b) == concat(a) + concat(b),
        total_len(a + b) == total_len(a) + total_len(b),
    decreases b.len(),
{
    if b.len() == 0 {
        assert(a + b =~= a);
        assert(concat(a + b) =~= concat(a) + concat(b));
    } else {
        lemma_concat_add(a, b.drop_last());
        assert((a + b).drop_last() =~= a + b.drop_last());
        assert((a + b).last() == b.last());
        assert(concat(a + b) =~= concat(a) + concat(b));
    }
}

/// A list of chunks to be written in one go.
pub struct FillWriteBytes<'a> {
    vec: Vec<&'a [u8]>,
}

impl<'a> View for FillWriteBytes<'a> {
    type V = Seq<Seq<u8>>;

    closed spec fn view(&self) -> Seq<Seq<u8>> {
        Seq::new(self.vec@.len(), |i: int| self.vec@[i]@)
    }
}

impl<'a> FillWriteBytes<'a> {
    /// The empty list.
    pub fn new() -> (list: Self)
        ensures
            list@ == Seq::<Seq<u8>>::empty(),
    {
        let list = FillWriteBytes { vec: Vec::new() };
        assert(list@ =~= Seq::<Seq<u8>>::empty());
        list
    }

    /// Adds a chunk at the end.
    pub fn put(&mut self, chunk: &'a [u8])
        ensures
            final(self)@ == old(self)@.push(chunk@),
    {
        self.vec.push(chunk);
        assert(self@ =~= old(self)@.push(chunk@));
    }

    /// The chunks themselves.
    pub fn into_vec(self) -> (vec: Vec<&'a [u8]>)
        ensures
            vec@.len() == self@.len(),
            forall|i: int| 0 <= i < vec@.len() ==> (#[trigger] vec@[i])@ == self@[i],
    {
        self.vec
    }
}

/// Data that is sent as a list of chunks.
pub trait Bytes {
    /// The chunks, in the order in which they are sent.
    spec fn parts(&self) -> Seq<Seq<u8>>;

    /// Whether the lengths that the value carries are those of its chunks.
    spec fn wf(&self) -> bool;

    /// The number of bytes in all chunks.
    fn size(&self) -> (size: usize)
        requires
            self.wf(),
            total_len(self.parts()) <= usize::MAX,
        ensures
            size == total_len(self.parts()),
    ;

    /// The number of chunks.
    fn count(&self) -> (count: usize)
        requires
            self.wf(),
            self.parts().len() <= usize::MAX,
        ensures
            count == self.parts().len(),
    ;

    /// Adds the chunks to `dst`.
    fn fill_bytes<'a>(&'a self, dst: &mut FillWriteBytes<'a>)
        requires
            self.wf(),
        ensures
            final(dst)@ == old(dst)@ + self.parts(),
    ;
}

/// No data, and no chunk.
impl Bytes for () {
    open spec fn parts(&self) -> Seq<Seq<u8>> {
        Seq::empty()
    }

    open spec fn wf(&self) -> bool {
        true
    }

    fn size(&self) -> (size: usize) {
        0
    }

    fn count(&self) -> (count: usize) {
        0
    }

    fn fill_bytes<'a>(&'a self, dst: &mut FillWriteBytes<'a>) {
        assert(dst@ + self.parts() =~= dst@);
    }
}

/// One chunk.
impl Bytes for [u8] {
    open spec fn parts(&self) -> Seq<Seq<u8>> {
        seq![self@]
    }

    open spec fn wf(&self) -> bool {
        true
    }

    fn size(&self) -> (size: usize) {
        proof {
            lemma_one(self@);
        }
        self.len()
    }

    fn count(&self) -> (count: usize) {
        1
    }

    fn fill_bytes<'a>(&'a self, dst: &mut FillWriteBytes<'a>) {
        let ghost before = dst@;
        dst.put(self);
        assert(dst@ =~= before + self.parts());
    }
}

/// One chunk.
impl Bytes for Vec<u8> {
    open spec fn parts(&self) -> Seq<Seq<u8>> {
        seq![self@]
    }

    open spec fn wf(&self) -> bool {
        true
    }

    fn size(&self) -> (size: usize) {
        proof {
            lemma_one(self@);
        }
        self.len()
    }

    fn count(&self) -> (count: usize) {
        1
    }

    fn fill_bytes<'a>(&'a self, dst: &mut FillWriteBytes<'a>) {
        let ghost before = dst@;
        dst.put(self.as_slice());
        assert(dst@ =~= before + self.parts());
    }
}

/// The UTF-8 bytes as one chunk.
impl Bytes for str {
    open spec fn parts(&self) -> Seq<Seq<u8>> {
        seq![encode_utf8(self@)]
    }

    open spec fn wf(&self) -> bool {
        true
    }

    fn size(&self) -> (size: usize) {
        proof {
            lemma_one(encode_utf8(self@));
        }
        self.as_bytes().len()
    }

    fn count(&self) -> (count: usize) {
        1
    }

    fn fill_bytes<'a>(&'a self, dst: &mut FillWriteBytes<'a>) {
        let ghost before = dst@;
        dst.put(self.as_bytes());
        assert(dst@ =~= before + self.parts());
    }
}

/// No data, and no chunk.
impl Bytes for [u8; 0] {
    open spec fn parts(&self) -> Seq<Seq<u8>> {
        Seq::empty()
    }

    open spec fn wf(&self) -> bool {
        true
    }

    fn size(&self) -> (size: usize) {
        0
    }

    fn count(&self) -> (count: usize) {
        0
    }

    fn fill_bytes<'a>(&'a self, dst: &mut FillWriteBytes<'a>) {
        assert(dst@ + self.parts() =~= dst@);
    }
}

/// One chunk for each slice.
impl<'s> Bytes for [&'s [u8]] {
    open spec fn parts(&self) -> Seq<Seq<u8>> {
        Seq::new(self@.len(), |i: int| self@[i]@)
    }

    open spec fn wf(&self) -> bool {
        true
    }

    fn size(&self) -> (size: usize) {
        let mut sum: usize = 0;
        let mut i: usize = 0;
        let ghost all = self.parts();
        while i < self.len()
            invariant
                i <= self@.len() == self.len(),
                all == self.parts(),
                total_len(all) <= usize::MAX,
                sum == total_len(all.subrange(0, i as int)),
            decreases self@.len() - i,
        {
            let chunk: &[u8] = self[i];
            proof {
                assert(all.subrange(0, i + 1).drop_last() =~= all.subrange(0, i as int));
                assert(all.subrange(0, i + 1) + all.subrange(i + 1, all.len() as int) =~= all);
                lemma_concat_add(all.subrange(0, i + 1), all.subrange(i + 1, all.len() as int));
            }
            sum = sum + chunk.len();
            i = i + 1;
        }
        assert(all.subrange(0, i as int) =~= all);
        sum
    }

    fn count(&self) -> (count: usize) {
        self.len()
    }

    fn fill_bytes<'a>(&'a self, dst: &mut FillWriteBytes<'a>) {
        let ghost before = dst@;
        let ghost all = self.parts();
        let mut i: usize = 0;
        assert(dst@ =~= before + all.subrange(0, 0));
        while i < self.len()
            invariant
                i <= self@.len() == self.len(),
                all == self.parts(),
                dst@ == before + all.subrange(0, i as int),
            decreases self@.len() - i,
        {
            dst.put(self[i]);
            i = i + 1;
            assert(dst@ =~= before + all.subrange(0, i as int));
        }
        assert(all.subrange(0, i as int) =~= all);
    }
}

/// The data, or nothing.
impl<T: Bytes> Bytes for Option<T> {
    open spec fn parts(&self) -> Seq<Seq<u8>> {
        match self {
            Some(data) => data.parts(),
            None => Seq::empty(),
        }
    }

    open spec fn wf(&self) -> bool {
        match self {
            Some(data) => data.wf(),
            None => true,
        }
    }

    fn size(&self) -> (size: usize) {
        match self {
            Some(data) => data.size(),
            None => 0,
        }
    }

    fn count(&self) -> (count: usize) {
        match self {
            Some(data) => data.count(),
            None => 0,
        }
    }

    fn fill_bytes<'a>(&'a self, dst: &mut FillWriteBytes<'a>) {
        let ghost before = dst@;
        match self {
            Some(data) => data.fill_bytes(dst),
            None => {},
        }
        assert(dst@ =~= before + self.parts());
    }
}

/// What the reference points to.
impl<'r, T: Bytes + ?Sized> Bytes for &'r T {
    open spec fn parts(&self) -> Seq<Seq<u8>> {
        (**self).parts()
    }

    open spec fn wf(&self) -> bool {
        (**self).wf()
    }

    fn size(&self) -> (size: usize) {
        (**self).size()
    }

    fn count(&self) -> (count: usize) {
        (**self).count()
    }

    fn fill_bytes<'a>(&'a self, dst: &mut FillWriteBytes<'a>) {
        (**self).fill_bytes(dst)
    }
}

/// A single chunk has its own length and contents.
pub proof fn lemma_one(chunk: Seq<u8>)
    ensures
        total_len(seq![chunk]) == chunk.len(),
        concat(seq![chunk]) == chunk,
{
    reveal_with_fuel(total_len, 2);
    reveal_with_fuel(concat, 2);
    assert(seq![chunk].drop_last() =~= Seq::<Seq<u8>>::empty());
    assert(concat(seq![chunk]) =~= chunk);
}

/// Chunks one after the other are what flattening them gives, and hold as many bytes.
pub proof fn law_concat_flattens(chunks: Seq<Seq<u8>>)
    ensures
        concat(chunks) == chunks.flatten(),
        total_len(chunks) == chunks.flatten().len(),
{
    lemma_concat_len(chunks);
    lemma_concat_alt(chunks);
    chunks.lemma_flatten_and_flatten_alt_are_equivalent();
}

proof fn lemma_concat_alt(chunks: Seq<Seq<u8>>)
    ensures
        concat(chunks) == chunks.flatten_alt(),
    decreases chunks.len(),
{
    if chunks.len() > 0 {
        lemma_concat_alt(chunks.drop_last());
    }
}

/// Nothing is sent for the unit and for an array without elements.
pub proof fn law_nothing_sent(unit: (), array: [u8; 0])
    ensures
        unit.parts().len() == 0,
        array.parts().len() == 0,
        unit.wf(),
        array.wf(),
{
}

/// A slice and a vector are sent as one chunk that holds their bytes, and a string as one chunk
/// that holds its UTF-8 bytes.
pub proof fn law_one_chunk(slice: &[u8], vec: Vec<u8>, string: &str)
    ensures
        slice.parts().len() == 1,
        slice.parts()[0] == slice@,
        slice.wf(),
        vec.parts().len() == 1,
        vec.parts()[0] == vec@,
        vec.wf(),
        string.parts().len() == 1,
        string.parts()[0] == encode_utf8(string@),
        string.wf(),
{
}

/// A slice of slices is sent as one chunk for each, in their order.
pub proof fn law_chunk_for_each(slices: &[&[u8]])
    ensures
        slices.parts().len() == slices@.len(),
        forall|i: int| 0 <= i < slices@.len() ==> #[trigger] slices.parts()[i] == slices@[i]@,
        slices.wf(),
{
}

/// An option is sent as what it holds, and a reference as what it points to.
pub proof fn law_sent_as_contents<T: Bytes>(data: T)
    ensures
        Some(data).parts() == data.parts(),
        Some(data).wf() <==> data.wf(),
        None::<T>.parts().len() == 0,
        None::<T>.wf(),
        <&T as Bytes>::parts(&&data) == data.parts(),
        <&T as Bytes>::wf(&&data) <==> data.wf(),
{
}

} // verus!
