//! The decisions of the two relay loops. Each loop does blocking I/O and
//! hands what it got to one of these steps, which says what to do next:
//! pass bytes on, or end the thread with a failure.
use vstd::prelude::*;
use crate::failure::{DeviceError, Error};

verus! {

/// Size of the reader thread's reusable buffer.
pub const READ_CHUNK: usize = 1024;

/// The reader thread's buffer: `READ_CHUNK` zero bytes.
pub fn read_buffer() -> (r: Vec<u8>)
    ensures
        r@.len() == READ_CHUNK,
        forall|i: int| 0 <= i < r@.len() ==> r@[i] == 0,
{
    vec![0u8; READ_CHUNK]
}

/// What the reader thread does after a blocking device read into `buffer`:
/// forward exactly the `n` bytes read, or end with the device error.
pub open spec fn reader_action(buffer: Seq<u8>, read: Result<usize, DeviceError>) -> Result<Seq<u8>, Error> {
    match read {
        Ok(n) => Ok(buffer.subrange(0, n as int)),
        Err(d) => Err(Error::Io(d)),
    }
}

/// `r` is a result that the reader's step may give for this read.
pub open spec fn reader_step_post(buffer: Seq<u8>, read: Result<usize, DeviceError>, r: Result<Vec<u8>, Error>) -> bool {
    match r {
        Ok(chunk) => reader_action(buffer, read) == Ok::<Seq<u8>, Error>(chunk@),
        Err(e) => reader_action(buffer, read) == Err::<Seq<u8>, Error>(e),
    }
}

/// The reader's step after a blocking device read into `buffer`.
pub fn reader_step(buffer: &[u8], read: Result<usize, DeviceError>) -> (r: Result<Vec<u8>, Error>)
    requires
        read is Ok ==> read->Ok_0 <= buffer@.len(),
    ensures
        reader_step_post(buffer@, read, r),
{
    match read {
        Ok(n) => {
            let mut out: Vec<u8> = Vec::with_capacity(n);
            let mut i: usize = 0;
            while i < n
                invariant
                    n <= buffer@.len(),
                    i <= n,
                    out@ == buffer@.subrange(0, i as int),
                decreases n - i,
            {
                out.push(buffer[i]);
                i += 1;
                assert(out@ =~= buffer@.subrange(0, i as int));
            }
            Ok(out)
        },
        Err(d) => Err(Error::Io(d)),
    }
}

/// What the writer thread does with one pull from the pipe: a chunk of
/// bytes goes to the device; a pipe error ends the thread with that error;
/// a closed pipe ends it with `SenderClosed`.
pub open spec fn writer_action(next: Option<Result<Vec<u8>, DeviceError>>) -> Result<Seq<u8>, Error> {
    match next {
        Some(Ok(chunk)) => Ok(chunk@),
        Some(Err(d)) => Err(Error::Io(d)),
        None => Err(Error::SenderClosed),
    }
}

/// `r` is a result that the writer's step may give for this pull.
pub open spec fn writer_step_post(next: Option<Result<Vec<u8>, DeviceError>>, r: Result<Vec<u8>, Error>) -> bool {
    match r {
        Ok(chunk) => writer_action(next) == Ok::<Seq<u8>, Error>(chunk@),
        Err(e) => writer_action(next) == Err::<Seq<u8>, Error>(e),
    }
}

/// The writer's step after a blocking pull from the pipe.
pub fn writer_step(next: Option<Result<Vec<u8>, DeviceError>>) -> (r: Result<Vec<u8>, Error>)
    ensures
        writer_step_post(next, r),
{
    match next {
        Some(Ok(chunk)) => Ok(chunk),
        Some(Err(d)) => Err(Error::Io(d)),
        None => Err(Error::SenderClosed),
    }
}

/// Either relay thread's step after handing bytes on (to the pipe for the
/// reader, to the device for the writer): go on, or end with the error.
pub fn relay_step(sent: Result<(), DeviceError>) -> (r: Option<Error>)
    ensures
        match sent {
            Ok(_) => r is None,
            Err(d) => r == Some(Error::Io(d)),
        },
{
    match sent {
        Ok(()) => None,
        Err(d) => Some(Error::Io(d)),
    }
}

/// The bytes that a run of relay steps hands on, in order: the chunks of
/// the steps that went on, up to the first step that ended the thread.
pub open spec fn passed_on(results: Seq<Result<Vec<u8>, Error>>) -> Seq<u8>
    decreases results.len(),
{
    if results.len() == 0 {
        Seq::empty()
    } else {
        match results[0] {
            Ok(chunk) => chunk@ + passed_on(results.drop_first()),
            Err(_) => Seq::empty(),
        }
    }
}

/// `results[i]` is what `writer_step` gave for `pulls[i]`, for every `i`.
pub open spec fn writer_run(
    pulls: Seq<Option<Result<Vec<u8>, DeviceError>>>,
    results: Seq<Result<Vec<u8>, Error>>,
) -> bool {
    &&& pulls.len() == results.len()
    &&& forall|i: int| 0 <= i < pulls.len() ==> writer_step_post(#[trigger] pulls[i], results[i])
}

/// The bytes that the pipe delivered, in order, before it failed or closed.
pub open spec fn pipe_bytes(pulls: Seq<Option<Result<Vec<u8>, DeviceError>>>) -> Seq<u8>
    decreases pulls.len(),
{
    if pulls.len() == 0 {
        Seq::empty()
    } else {
        match pulls[0] {
            Some(Ok(chunk)) => chunk@ + pipe_bytes(pulls.drop_first()),
            _ => Seq::empty(),
        }
    }
}

/// Byte fidelity of the write direction: over any run of writer steps, the
/// chunks handed to the device are exactly the bytes that the pipe
/// delivered, in the same order. Nothing of the read direction enters a
/// writer run, so a reader failure leaves this unchanged.
pub proof fn lemma_byte_fidelity(
    pulls: Seq<Option<Result<Vec<u8>, DeviceError>>>,
    results: Seq<Result<Vec<u8>, Error>>,
)
    requires
        writer_run(pulls, results),
    ensures
        passed_on(results) == pipe_bytes(pulls),
    decreases pulls.len(),
{
    if pulls.len() > 0 {
        assert(writer_step_post(pulls[0], results[0]));
        let (p1, r1) = (pulls.drop_first(), results.drop_first());
        assert forall|i: int| 0 <= i < p1.len() implies writer_step_post(#[trigger] p1[i], r1[i]) by {
            assert(p1[i] == pulls[i + 1] && r1[i] == results[i + 1]);
        }
        lemma_byte_fidelity(p1, r1);
    }
}

/// However the pipe chunks the bytes, runs of writer steps hand the device
/// the same sequence.
pub proof fn lemma_chunking_irrelevant(
    pulls1: Seq<Option<Result<Vec<u8>, DeviceError>>>,
    results1: Seq<Result<Vec<u8>, Error>>,
    pulls2: Seq<Option<Result<Vec<u8>, DeviceError>>>,
    results2: Seq<Result<Vec<u8>, Error>>,
)
    requires
        writer_run(pulls1, results1),
        writer_run(pulls2, results2),
        pipe_bytes(pulls1) == pipe_bytes(pulls2),
    ensures
        passed_on(results1) == passed_on(results2),
{
    lemma_byte_fidelity(pulls1, results1);
    lemma_byte_fidelity(pulls2, results2);
}

/// Clean shutdown: when the pipe closes at pull `k` after delivering only
/// data, the writer goes on at every earlier step, ends at step `k` with
/// `SenderClosed`, and has handed the device every byte the pipe delivered.
/// So it ends after the closed pipe's remaining chunks plus one pull.
pub proof fn lemma_writer_ends_on_close(
    pulls: Seq<Option<Result<Vec<u8>, DeviceError>>>,
    results: Seq<Result<Vec<u8>, Error>>,
    k: int,
)
    requires
        writer_run(pulls, results),
        0 <= k < pulls.len(),
        pulls[k] is None,
        forall|i: int| 0 <= i < k ==> (#[trigger] pulls[i] matches Some(Ok(_))),
    ensures
        results[k] == Err::<Vec<u8>, Error>(Error::SenderClosed),
        forall|i: int| 0 <= i < k ==> (#[trigger] results[i]) is Ok,
        passed_on(results) == pipe_bytes(pulls),
{
    assert(writer_step_post(pulls[k], results[k]));
    assert forall|i: int| 0 <= i < k implies (#[trigger] results[i]) is Ok by {
        assert(writer_step_post(pulls[i], results[i]));
    }
    lemma_byte_fidelity(pulls, results);
}

/// `results[i]` is what `reader_step` gave for `reads[i]` (a buffer and the
/// device read into it), for every `i`.
pub open spec fn reader_run(
    reads: Seq<(Seq<u8>, Result<usize, DeviceError>)>,
    results: Seq<Result<Vec<u8>, Error>>,
) -> bool {
    &&& reads.len() == results.len()
    &&& forall|i: int| 0 <= i < reads.len() ==> reader_step_post(#[trigger] reads[i].0, reads[i].1, results[i])
}

/// The bytes that the device produced, in order, before a read failed.
pub open spec fn device_read_bytes(reads: Seq<(Seq<u8>, Result<usize, DeviceError>)>) -> Seq<u8>
    decreases reads.len(),
{
    if reads.len() == 0 {
        Seq::empty()
    } else {
        match reads[0].1 {
            Ok(n) => reads[0].0.take(n as int) + device_read_bytes(reads.drop_first()),
            Err(_) => Seq::empty(),
        }
    }
}

/// Byte fidelity of the read direction: over any run of reader steps, the
/// chunks forwarded to the pipe are exactly the bytes that the device
/// produced, in the same order.
pub proof fn lemma_read_fidelity(
    reads: Seq<(Seq<u8>, Result<usize, DeviceError>)>,
    results: Seq<Result<Vec<u8>, Error>>,
)
    requires
        reader_run(reads, results),
    ensures
        passed_on(results) == device_read_bytes(reads),
    decreases reads.len(),
{
    if reads.len() > 0 {
        assert(reader_step_post(reads[0].0, reads[0].1, results[0]));
        let (d1, r1) = (reads.drop_first(), results.drop_first());
        assert forall|i: int| 0 <= i < d1.len() implies reader_step_post(#[trigger] d1[i].0, d1[i].1, r1[i]) by {
            assert(d1[i] == reads[i + 1] && r1[i] == results[i + 1]);
        }
        lemma_read_fidelity(d1, r1);
    }
}

} // verus!
