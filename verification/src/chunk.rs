//! Re-segmentation of a file, delivered as fragments of arbitrary length,
//! into chunks of a fixed maximum size.

use vstd::prelude::*;
use vstd::slice::slice_subrange;
use vstd::arithmetic::div_mod::{
    lemma_fundamental_div_mod, lemma_fundamental_div_mod_converse_div,
    lemma_fundamental_div_mod_converse_mod,
};

verus! {

/// The bytes of a sequence of pieces, joined in order.
pub open spec fn concat(pieces: Seq<Seq<u8>>) -> Seq<u8>
    decreases pieces.len(),
{
    if pieces.len() == 0 {
        Seq::<u8>::empty()
    } else {
        concat(pieces.drop_last()) + pieces.last()
    }
}

/// The complete chunks of `data`: as many runs of exactly `c` bytes as fit,
/// taken from the front.
pub open spec fn full_chunks(data: Seq<u8>, c: int) -> Seq<Seq<u8>>
    decreases data.len(),
{
    if c <= 0 || data.len() < c {
        Seq::<Seq<u8>>::empty()
    } else {
        seq![data.subrange(0, c)] + full_chunks(data.subrange(c, data.len() as int), c)
    }
}

/// The bytes of `data` that follow its complete chunks; fewer than `c`.
pub open spec fn remainder(data: Seq<u8>, c: int) -> Seq<u8>
    decreases data.len(),
{
    if c <= 0 || data.len() < c {
        data
    } else {
        remainder(data.subrange(c, data.len() as int), c)
    }
}

/// The chunks of a file: its complete chunks, followed by the remaining
/// bytes as a last, shorter chunk where there are any.
pub open spec fn chunks_of(data: Seq<u8>, c: int) -> Seq<Seq<u8>> {
    if remainder(data, c).len() == 0 {
        full_chunks(data, c)
    } else {
        full_chunks(data, c).push(remainder(data, c))
    }
}

/// The contents of a list of byte vectors.
pub open spec fn chunk_views(chunks: Seq<Vec<u8>>) -> Seq<Seq<u8>> {
    Seq::new(chunks.len(), |i: int| chunks[i]@)
}

/// What an assembler that holds `pending` does with the fragments that
/// arrive: the chunks it emits, and the bytes it holds afterwards.
pub open spec fn feed(pending: Seq<u8>, fragments: Seq<Seq<u8>>, c: int) -> (Seq<Seq<u8>>, Seq<u8>)
    decreases fragments.len(),
{
    if fragments.len() == 0 {
        (Seq::<Seq<u8>>::empty(), pending)
    } else {
        let (emitted, held) = feed(pending, fragments.drop_last(), c);
        let joined = held + fragments.last();
        (emitted + full_chunks(joined, c), remainder(joined, c))
    }
}

/// All chunks that an assembler emits for a file delivered as `fragments`,
/// the last one emitted when the input ends.
pub open spec fn assembled(fragments: Seq<Seq<u8>>, c: int) -> Seq<Seq<u8>> {
    let (emitted, held) = feed(Seq::<u8>::empty(), fragments, c);
    if held.len() == 0 {
        emitted
    } else {
        emitted.push(held)
    }
}

pub proof fn lemma_concat_prepend(first: Seq<u8>, rest: Seq<Seq<u8>>)
    ensures
        concat(seq![first] + rest) == first + concat(rest),
    decreases rest.len(),
{
    let all = seq![first] + rest;
    if rest.len() == 0 {
        assert(all.drop_last() =~= Seq::<Seq<u8>>::empty());
        assert(concat(all.drop_last()) =~= Seq::<u8>::empty());
        assert(all.last() == first);
        assert(concat(all) =~= first + concat(rest));
    } else {
        lemma_concat_prepend(first, rest.drop_last());
        assert(all.drop_last() =~= seq![first] + rest.drop_last());
        assert(all.last() == rest.last());
        assert(concat(all) =~= first + concat(rest));
    }
}

/// The remainder is shorter than a chunk, and the complete chunks followed
/// by the remainder are the data.
pub proof fn lemma_full_chunks(data: Seq<u8>, c: int)
    requires
        c >= 1,
    ensures
        remainder(data, c).len() < c,
        remainder(data, c).len() == data.len() % (c as nat),
        full_chunks(data, c).len() == data.len() / (c as nat),
        concat(full_chunks(data, c)) + remainder(data, c) == data,
        forall|i: int| 0 <= i < full_chunks(data, c).len() ==> (#[trigger] full_chunks(data, c)[i]).len() == c,
    decreases data.len(),
{
    let n = data.len() as int;
    if n < c {
        lemma_fundamental_div_mod_converse_mod(n, c, 0, n);
        lemma_fundamental_div_mod_converse_div(n, c, 0, n);
        assert(concat(full_chunks(data, c)) =~= Seq::<u8>::empty());
        assert(concat(full_chunks(data, c)) + remainder(data, c) =~= data);
    } else {
        let rest = data.subrange(c, n);
        lemma_full_chunks(rest, c);
        let first = data.subrange(0, c);
        lemma_concat_prepend(first, full_chunks(rest, c));
        assert(concat(full_chunks(data, c)) == first + concat(full_chunks(rest, c)));
        assert((first + concat(full_chunks(rest, c))) + remainder(rest, c) =~= first + (concat(
            full_chunks(rest, c),
        ) + remainder(rest, c)));
        assert(first + rest =~= data);
        let q = (n - c) / c;
        let r = (n - c) % c;
        lemma_fundamental_div_mod(n - c, c);
        assert((q + 1) * c == c * q + c) by (nonlinear_arith);
        lemma_fundamental_div_mod_converse_mod(n, c, q + 1, r);
        lemma_fundamental_div_mod_converse_div(n, c, q + 1, r);
    }
}

/// Chunk fidelity: for every file and every chunk size of at least 1, the
/// chunks joined in order are the file; their number is the file's length
/// divided by the chunk size, rounded up; every chunk but the last has
/// exactly the chunk size; and the last chunk of a file of `n > 0` bytes
/// has `((n - 1) mod c) + 1` bytes. An empty file has no chunks.
pub proof fn lemma_chunk_fidelity(data: Seq<u8>, c: int)
    requires
        c >= 1,
    ensures
        concat(chunks_of(data, c)) == data,
        chunks_of(data, c).len() == (data.len() + c - 1) / c,
        data.len() == 0 ==> chunks_of(data, c).len() == 0,
        forall|i: int| 0 <= i < chunks_of(data, c).len() - 1 ==> (#[trigger] chunks_of(data, c)[i]).len() == c,
        forall|i: int| 0 <= i < chunks_of(data, c).len() ==> 1 <= (#[trigger] chunks_of(data, c)[i]).len() <= c,
        data.len() > 0 ==> chunks_of(data, c).last().len() == (data.len() - 1) % c + 1,
{
    lemma_full_chunks(data, c);
    let n = data.len() as int;
    let full = full_chunks(data, c);
    let rest = remainder(data, c);
    if rest.len() == 0 {
        assert(concat(full) + rest =~= concat(full));
        let q = n / c;
        lemma_fundamental_div_mod(n, c);
        assert(q * c == c * q) by (nonlinear_arith);
        lemma_fundamental_div_mod_converse_div(n + c - 1, c, q, c - 1);
        if n > 0 {
            assert(q >= 1) by (nonlinear_arith)
                requires
                    n == c * q,
                    n > 0,
                    c >= 1,
            ;
            assert((q - 1) * c == c * q - c) by (nonlinear_arith);
            lemma_fundamental_div_mod_converse_mod(n - 1, c, q - 1, c - 1);
        }
    } else {
        assert(full.push(rest).drop_last() =~= full);
        let q = n / c;
        let r = n % c;
        lemma_fundamental_div_mod(n, c);
        assert((q + 1) * c == c * q + c && q * c == c * q) by (nonlinear_arith);
        lemma_fundamental_div_mod_converse_div(n + c - 1, c, q + 1, r - 1);
        lemma_fundamental_div_mod_converse_mod(n - 1, c, q, r - 1);
    }
}

/// Splitting off the complete chunks of a prefix first changes nothing.
pub proof fn lemma_chunks_append(head: Seq<u8>, tail: Seq<u8>, c: int)
    requires
        c >= 1,
    ensures
        full_chunks(head + tail, c) == full_chunks(head, c) + full_chunks(remainder(head, c) + tail, c),
        remainder(head + tail, c) == remainder(remainder(head, c) + tail, c),
    decreases head.len(),
{
    if head.len() < c {
        assert(full_chunks(head, c) + full_chunks(head + tail, c) =~= full_chunks(head + tail, c));
    } else {
        let n = head.len() as int;
        let all = head + tail;
        lemma_chunks_append(head.subrange(c, n), tail, c);
        assert(all.subrange(0, c) =~= head.subrange(0, c));
        assert(all.subrange(c, all.len() as int) =~= head.subrange(c, n) + tail);
        assert(full_chunks(all, c) =~= full_chunks(head, c) + full_chunks(remainder(head, c) + tail, c));
    }
}

/// After any fragments, an assembler that started empty has emitted the
/// complete chunks of all bytes received and holds their remainder.
pub proof fn lemma_feed(fragments: Seq<Seq<u8>>, c: int)
    requires
        c >= 1,
    ensures
        feed(Seq::<u8>::empty(), fragments, c) == (
            full_chunks(concat(fragments), c),
            remainder(concat(fragments), c),
        ),
    decreases fragments.len(),
{
    if fragments.len() > 0 {
        lemma_feed(fragments.drop_last(), c);
        lemma_chunks_append(concat(fragments.drop_last()), fragments.last(), c);
    }
}

/// The chunks assembled from any fragmentation of a file are the chunks of
/// the file.
pub proof fn lemma_assembled(fragments: Seq<Seq<u8>>, c: int)
    requires
        c >= 1,
    ensures
        assembled(fragments, c) == chunks_of(concat(fragments), c),
{
    lemma_feed(fragments, c);
}

/// Fragment-size independence: two fragmentations of the same file give the
/// same chunks, whatever the sizes in which the transport delivers them.
pub proof fn lemma_fragmentation_independent(a: Seq<Seq<u8>>, b: Seq<Seq<u8>>, c: int)
    requires
        c >= 1,
        concat(a) == concat(b),
    ensures
        assembled(a, c) == assembled(b, c),
{
    lemma_assembled(a, c);
    lemma_assembled(b, c);
}

/// Accumulator that turns arriving fragments into chunks of exactly
/// `chunk_size` bytes, holding fewer than `chunk_size` bytes between calls.
pub struct ChunkAssembler {
    chunk_size: usize,
    buffer: Vec<u8>,
}

impl ChunkAssembler {
    /// The assembler holds less than one chunk.
    pub open spec fn wf(&self) -> bool {
        &&& 1 <= self.capacity() <= usize::MAX
        &&& self.pending().len() < self.capacity()
    }

    /// The configured chunk size.
    pub closed spec fn capacity(&self) -> int {
        self.chunk_size as int
    }

    /// The bytes received and not yet emitted.
    pub closed spec fn pending(&self) -> Seq<u8> {
        self.buffer@
    }

    /// An empty assembler for chunks of `chunk_size` bytes.
    pub fn new(chunk_size: usize) -> (assembler: ChunkAssembler)
        requires
            chunk_size >= 1,
        ensures
            assembler.wf(),
            assembler.capacity() == chunk_size,
            assembler.pending() == Seq::<u8>::empty(),
    {
        ChunkAssembler { chunk_size, buffer: Vec::new() }
    }

    /// The configured chunk size.
    pub fn chunk_size(&self) -> (c: usize)
        ensures
            c == self.capacity(),
    {
        self.chunk_size
    }

    /// Number of bytes received and not yet emitted.
    pub fn pending_len(&self) -> (n: usize)
        ensures
            n == self.pending().len(),
    {
        self.buffer.len()
    }

    /// Takes one fragment and returns the chunks that it completes, in
    /// order: the complete chunks of the held bytes followed by the
    /// fragment. The bytes after them are held for the next call.
    pub fn push(&mut self, fragment: &[u8]) -> (out: Vec<Vec<u8>>)
        requires
            old(self).wf(),
        ensures
            final(self).wf(),
            final(self).capacity() == old(self).capacity(),
            chunk_views(out@) == full_chunks(old(self).pending() + fragment@, old(self).capacity()),
            final(self).pending() == remainder(old(self).pending() + fragment@, old(self).capacity()),
    {
        let ghost c = self.chunk_size as int;
        let ghost joined = self.buffer@ + fragment@;
        let mut out: Vec<Vec<u8>> = Vec::new();
        let mut offset: usize = 0;
        assert(fragment@.subrange(0, fragment@.len() as int) =~= fragment@);
        assert(chunk_views(out@) + full_chunks(joined, c) =~= full_chunks(joined, c));
        while offset < fragment.len()
            invariant
                offset <= fragment.len(),
                self.chunk_size == c,
                self.wf(),
                full_chunks(joined, c) == chunk_views(out@) + full_chunks(
                    self.buffer@ + fragment@.subrange(offset as int, fragment@.len() as int),
                    c,
                ),
                remainder(joined, c) == remainder(
                    self.buffer@ + fragment@.subrange(offset as int, fragment@.len() as int),
                    c,
                ),
            decreases fragment.len() - offset,
        {
            let ghost rest = self.buffer@ + fragment@.subrange(offset as int, fragment@.len() as int);
            let room = self.chunk_size - self.buffer.len();
            let available = fragment.len() - offset;
            let take = if room < available { room } else { available };
            let piece = slice_subrange(fragment, offset, offset + take);
            let ghost held = self.buffer@;
            self.buffer.extend_from_slice(piece);
            assert(self.buffer@ =~= held + piece@);
            offset = offset + take;
            assert(self.buffer@ + fragment@.subrange(offset as int, fragment@.len() as int) =~= rest);
            if self.buffer.len() == self.chunk_size {
                let mut full: Vec<u8> = Vec::new();
                std::mem::swap(&mut self.buffer, &mut full);
                let ghost emitted = chunk_views(out@);
                out.push(full);
                assert(chunk_views(out@) =~= emitted.push(full@));
                assert(rest.subrange(0, c) =~= full@);
                assert(rest.subrange(c, rest.len() as int) =~= self.buffer@ + fragment@.subrange(
                    offset as int,
                    fragment@.len() as int,
                ));
                assert(chunk_views(out@) + full_chunks(rest.subrange(c, rest.len() as int), c)
                    =~= emitted + full_chunks(rest, c));
            }
        }
        assert(self.buffer@ + fragment@.subrange(offset as int, fragment@.len() as int) =~= self.buffer@);
        assert(chunk_views(out@) + Seq::<Seq<u8>>::empty() =~= chunk_views(out@));
        out
    }

    /// Ends the input: returns the held bytes as the last, shorter chunk,
    /// or nothing where none are held, and leaves the assembler empty.
    pub fn finish(&mut self) -> (last: Option<Vec<u8>>)
        requires
            old(self).wf(),
        ensures
            final(self).wf(),
            final(self).capacity() == old(self).capacity(),
            final(self).pending() == Seq::<u8>::empty(),
            old(self).pending().len() == 0 ==> last is None,
            old(self).pending().len() > 0 ==> last is Some && last->Some_0@ == old(self).pending(),
    {
        if self.buffer.len() == 0 {
            None
        } else {
            let mut held: Vec<u8> = Vec::new();
            std::mem::swap(&mut self.buffer, &mut held);
            Some(held)
        }
    }
}

/// Assembles a whole file, delivered as `fragments`, into its chunks of
/// `chunk_size` bytes.
pub fn assemble(fragments: &Vec<Vec<u8>>, chunk_size: usize) -> (chunks: Vec<Vec<u8>>)
    requires
        chunk_size >= 1,
    ensures
        chunk_views(chunks@) == chunks_of(concat(chunk_views(fragments@)), chunk_size as int),
{
    let ghost c = chunk_size as int;
    let ghost pieces = chunk_views(fragments@);
    let mut assembler = ChunkAssembler::new(chunk_size);
    let mut chunks: Vec<Vec<u8>> = Vec::new();
    let mut k: usize = 0;
    assert(pieces.subrange(0, 0) =~= Seq::<Seq<u8>>::empty());
    assert(chunk_views(chunks@) =~= Seq::<Seq<u8>>::empty());
    while k < fragments.len()
        invariant
            k <= fragments.len(),
            c == chunk_size,
            pieces == chunk_views(fragments@),
            assembler.wf(),
            assembler.capacity() == c,
            (chunk_views(chunks@), assembler.pending()) == feed(
                Seq::<u8>::empty(),
                pieces.subrange(0, k as int),
                c,
            ),
        decreases fragments.len() - k,
    {
        let ghost before = chunk_views(chunks@);
        let mut emitted = assembler.push(fragments[k].as_slice());
        let ghost added = chunk_views(emitted@);
        chunks.append(&mut emitted);
        assert(chunk_views(chunks@) =~= before + added);
        assert(pieces.subrange(0, k + 1).drop_last() =~= pieces.subrange(0, k as int));
        assert(pieces.subrange(0, k + 1).last() == fragments@[k as int]@);
        k = k + 1;
    }
    assert(pieces.subrange(0, k as int) =~= pieces);
    let ghost before = chunk_views(chunks@);
    match assembler.finish() {
        Some(last) => {
            chunks.push(last);
            assert(chunk_views(chunks@) =~= before.push(last@));
        },
        None => {},
    }
    proof {
        lemma_assembled(pieces, c);
    }
    chunks
}

} // verus!
