//! Chunked upload of one local file: the split of the byte stream into
//! bounded-size chunks, the proof that reassembling the chunks
//! reproduces the file exactly, and the in-flight accounting that keeps
//! concurrent chunk uploads under the caller's limit.

use vstd::prelude::*;
use crate::errors::UploadError;

verus! {

/// A local file queued for upload: its display name and total byte
/// size. Read-only source for one upload; the transport closes it once
/// all chunks are sent.
#[derive(Debug)]
pub struct VideoFile {
    pub file_name: String,
    pub total_size: u64,
}

/// A zero-byte input file is rejected here, before any network call.
pub fn pre_upload_check(file: &VideoFile) -> (r: Result<(), UploadError>)
    ensures
        r is Ok <==> file.total_size > 0,
        r is Err <==> r == Err::<(), UploadError>(UploadError::EmptyFile) && file.total_size == 0,
{
    if file.total_size == 0 {
        Err(UploadError::EmptyFile)
    } else {
        Ok(())
    }
}

/// How many chunks a stream of `total` bytes yields at `size` bytes per
/// chunk: full chunks, plus one short final chunk for a remainder.
pub open spec fn chunk_count(total: nat, size: nat) -> nat
    recommends
        size >= 1,
    decreases total,
{
    if size == 0 || total == 0 {
        0
    } else if total <= size {
        1
    } else {
        1 + chunk_count((total - size) as nat, size)
    }
}

/// The bytes of a chunk sequence, reassembled in order.
pub open spec fn concat_chunks(ss: Seq<Seq<u8>>) -> Seq<u8>
    decreases ss.len(),
{
    if ss.len() == 0 {
        Seq::empty()
    } else {
        concat_chunks(ss.drop_last()) + ss.last()
    }
}

/// Appending one chunk appends its bytes.
pub proof fn lemma_concat_chunks_push(ss: Seq<Seq<u8>>, t: Seq<u8>)
    ensures
        concat_chunks(ss.push(t)) == concat_chunks(ss) + t,
{
    assert(ss.push(t).drop_last() =~= ss);
    assert(ss.push(t).last() == t);
}

/// Split `data` into chunks of `chunk_size` bytes, the final chunk
/// holding the remainder. Reassembling the chunks in order gives back
/// `data` exactly.
pub fn split_into_chunks(data: &Vec<u8>, chunk_size: usize) -> (chunks: Vec<Vec<u8>>)
    requires
        chunk_size >= 1,
    ensures
        concat_chunks(chunks@.map_values(|c: Vec<u8>| c@)) == data@,
        chunks@.len() == chunk_count(data@.len() as nat, chunk_size as nat),
        forall|i: int|
            0 <= i < chunks@.len() ==> 1 <= #[trigger] chunks@[i]@.len() <= chunk_size,
        forall|i: int|
            0 <= i < chunks@.len() - 1 ==> #[trigger] chunks@[i]@.len() == chunk_size,
{
    let mut chunks: Vec<Vec<u8>> = Vec::new();
    let mut pos: usize = 0;
    while pos < data.len()
        invariant
            chunk_size >= 1,
            pos <= data.len(),
            concat_chunks(chunks@.map_values(|c: Vec<u8>| c@)) == data@.subrange(0, pos as int),
            chunks@.len() + chunk_count((data@.len() - pos) as nat, chunk_size as nat)
                == chunk_count(data@.len() as nat, chunk_size as nat),
            forall|i: int|
                0 <= i < chunks@.len() ==> 1 <= #[trigger] chunks@[i]@.len() <= chunk_size,
            forall|i: int|
                0 <= i < chunks@.len() ==> (#[trigger] chunks@[i]@.len() == chunk_size || (pos
                    == data@.len() && i == chunks@.len() - 1)),
        decreases data.len() - pos,
    {
        let remaining = data.len() - pos;
        let l = if remaining < chunk_size {
            remaining
        } else {
            chunk_size
        };
        let mut chunk: Vec<u8> = Vec::new();
        let mut k: usize = 0;
        while k < l
            invariant
                k <= l,
                pos + l <= data.len(),
                chunk@ == data@.subrange(pos as int, pos as int + k as int),
            decreases l - k,
        {
            chunk.push(data[pos + k]);
            proof {
                assert(data@.subrange(pos as int, pos as int + k as int + 1) =~= data@.subrange(
                    pos as int,
                    pos as int + k as int,
                ).push(data@[pos as int + k as int]));
            }
            k = k + 1;
        }
        proof {
            lemma_concat_chunks_push(chunks@.map_values(|c: Vec<u8>| c@), chunk@);
            assert(chunks@.push(chunk).map_values(|c: Vec<u8>| c@) =~= chunks@.map_values(
                |c: Vec<u8>| c@,
            ).push(chunk@));
            assert(data@.subrange(0, pos + l as int) =~= data@.subrange(0, pos as int)
                + data@.subrange(pos as int, pos + l as int));
        }
        chunks.push(chunk);
        pos = pos + l;
    }
    proof {
        assert(data@.subrange(0, pos as int) =~= data@);
    }
    chunks
}

/// Reassemble a chunk sequence into one byte stream, in order.
pub fn reassemble(chunks: &Vec<Vec<u8>>) -> (data: Vec<u8>)
    ensures
        data@ == concat_chunks(chunks@.map_values(|c: Vec<u8>| c@)),
{
    let mut data: Vec<u8> = Vec::new();
    let mut i: usize = 0;
    while i < chunks.len()
        invariant
            i <= chunks.len(),
            data@ == concat_chunks(chunks@.take(i as int).map_values(|c: Vec<u8>| c@)),
        decreases chunks.len() - i,
    {
        let ghost pre = data@;
        let mut k: usize = 0;
        while k < chunks[i].len()
            invariant
                i < chunks.len(),
                k <= chunks@[i as int]@.len(),
                data@ == pre + chunks@[i as int]@.subrange(0, k as int),
            decreases chunks@[i as int]@.len() - k,
        {
            data.push(chunks[i][k]);
            proof {
                assert(chunks@[i as int]@.subrange(0, k as int + 1) =~= chunks@[i as int]@.subrange(
                    0,
                    k as int,
                ).push(chunks@[i as int]@[k as int]));
            }
            k = k + 1;
        }
        proof {
            assert(chunks@[i as int]@.subrange(0, chunks@[i as int]@.len() as int) =~= chunks@[
                i as int
            ]@);
            lemma_concat_chunks_push(
                chunks@.take(i as int).map_values(|c: Vec<u8>| c@),
                chunks@[i as int]@,
            );
            assert(chunks@.take(i + 1).map_values(|c: Vec<u8>| c@) =~= chunks@.take(
                i as int,
            ).map_values(|c: Vec<u8>| c@).push(chunks@[i as int]@));
        }
        i = i + 1;
    }
    proof {
        assert(chunks@.take(chunks@.len() as int) =~= chunks@);
    }
    data
}

/// In-flight accounting for one file's chunk uploads. The transport may
/// start the next chunk only while `can_start` holds, so however starts
/// and completions interleave, no more than `limit` chunk uploads are in
/// flight at once, whatever the total chunk count.
#[derive(Debug)]
pub struct ChunkScheduler {
    total: usize,
    limit: usize,
    started: usize,
    completed: usize,
}

impl ChunkScheduler {
    /// How many chunks the file was split into.
    pub closed spec fn total(self) -> usize {
        self.total
    }

    /// The caller-set maximum number of concurrently in-flight chunks.
    pub closed spec fn limit(self) -> usize {
        self.limit
    }

    /// How many chunk uploads have been started.
    pub closed spec fn started(self) -> usize {
        self.started
    }

    /// How many chunk uploads have completed.
    pub closed spec fn completed(self) -> usize {
        self.completed
    }

    /// Chunk uploads started and not yet completed.
    pub open spec fn in_flight(self) -> int {
        self.started() - self.completed()
    }

    /// Well-formedness: established by `new`, preserved by every step.
    pub open spec fn wf(self) -> bool {
        &&& 1 <= self.limit()
        &&& self.completed() <= self.started() <= self.total()
        &&& self.in_flight() <= self.limit()
    }

    /// Law: a well-formed scheduler never has more than `limit` chunk
    /// uploads in flight simultaneously.
    pub proof fn lemma_in_flight_bounded(self)
        requires
            self.wf(),
        ensures
            self.in_flight() <= self.limit(),
    {
    }

    /// Account for a file split into `total` chunks, at most `limit` in
    /// flight at once.
    pub fn new(total: usize, limit: usize) -> (s: ChunkScheduler)
        requires
            1 <= limit,
        ensures
            s.wf(),
            s.total() == total,
            s.limit() == limit,
            s.started() == 0,
            s.completed() == 0,
    {
        ChunkScheduler { total, limit, started: 0, completed: 0 }
    }

    /// Whether the transport may put one more chunk in flight: chunks
    /// remain, and the concurrency cap leaves room.
    pub fn can_start(&self) -> (b: bool)
        requires
            self.wf(),
        ensures
            b == (self.started() < self.total() && self.in_flight() < self.limit()),
    {
        self.started < self.total && self.started - self.completed < self.limit
    }

    /// Record one chunk upload entering flight; returns its index.
    pub fn start_chunk(&mut self) -> (idx: usize)
        requires
            old(self).wf(),
            old(self).started() < old(self).total(),
            old(self).in_flight() < old(self).limit(),
        ensures
            final(self).wf(),
            idx == old(self).started(),
            final(self).started() == old(self).started() + 1,
            final(self).completed() == old(self).completed(),
            final(self).total() == old(self).total(),
            final(self).limit() == old(self).limit(),
            final(self).in_flight() <= final(self).limit(),
    {
        let idx = self.started;
        self.started = self.started + 1;
        idx
    }

    /// Record one in-flight chunk upload completing.
    pub fn finish_chunk(&mut self)
        requires
            old(self).wf(),
            old(self).in_flight() > 0,
        ensures
            final(self).wf(),
            final(self).completed() == old(self).completed() + 1,
            final(self).started() == old(self).started(),
            final(self).total() == old(self).total(),
            final(self).limit() == old(self).limit(),
    {
        self.completed = self.completed + 1;
    }

    /// How many chunk uploads are in flight right now.
    pub fn in_flight_count(&self) -> (n: usize)
        requires
            self.wf(),
        ensures
            n == self.in_flight(),
    {
        self.started - self.completed
    }

    /// Whether every chunk of the file has been uploaded.
    pub fn all_done(&self) -> (b: bool)
        ensures
            b == (self.completed() == self.total()),
    {
        self.completed == self.total
    }
}

} // verus!
