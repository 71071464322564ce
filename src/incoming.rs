use vstd::prelude::*;

use crate::stream::{ByteStream, EndModel, StreamModel};

verus! {

/// One result of pulling the host's body reader.
pub enum HostRead {
    /// The host delivered a chunk that reads as bytes.
    Chunk(Vec<u8>),
    /// The host delivered something that cannot be read as bytes.
    Malformed,
    /// The host's reader reached its end.
    Done,
}

/// The description carried by a body stream that failed on a malformed chunk.
pub open spec fn decode_error_message() -> Seq<char> {
    "body chunk is not a byte array"@
}

/// What one host read does to the body stream: a chunk is appended, a malformed
/// chunk fails the stream, the end completes it. A stream that is no longer open
/// is left as it is.
pub open spec fn apply_read(m: StreamModel, r: HostRead) -> StreamModel {
    if m.end == EndModel::Open {
        match r {
            HostRead::Chunk(b) => StreamModel { chunks: m.chunks.push(b@), end: EndModel::Open },
            HostRead::Malformed => StreamModel {
                chunks: m.chunks,
                end: EndModel::Failed(decode_error_message()),
            },
            HostRead::Done => StreamModel { chunks: m.chunks, end: EndModel::Completed },
        }
    } else {
        m
    }
}

/// The body stream after the host reads `reads`, in order, starting from `m`.
pub open spec fn apply_reads(m: StreamModel, reads: Seq<HostRead>) -> StreamModel
    decreases reads.len(),
{
    if reads.len() == 0 {
        m
    } else {
        apply_read(apply_reads(m, reads.drop_last()), reads.last())
    }
}

/// A freshly opened body stream.
pub open spec fn open_model() -> StreamModel {
    StreamModel { chunks: Seq::empty(), end: EndModel::Open }
}

/// Further reads do not change a stream that is no longer open.
pub proof fn lemma_closed_stays(m: StreamModel, reads: Seq<HostRead>)
    requires
        m.end != EndModel::Open,
    ensures
        apply_reads(m, reads) == m,
    decreases reads.len(),
{
    if reads.len() > 0 {
        lemma_closed_stays(m, reads.drop_last());
    }
}

/// Reading `a` and then `b` is reading `a + b`.
pub proof fn lemma_reads_concat(m: StreamModel, a: Seq<HostRead>, b: Seq<HostRead>)
    ensures
        apply_reads(m, a + b) == apply_reads(apply_reads(m, a), b),
    decreases b.len(),
{
    if b.len() == 0 {
        assert(a + b =~= a);
    } else {
        assert((a + b).drop_last() =~= a + b.drop_last());
        lemma_reads_concat(m, a, b.drop_last());
    }
}

/// The message of a failed incoming body.
pub fn decode_error_text() -> (r: String)
    ensures
        r@ == decode_error_message(),
{
    String::from_str("body chunk is not a byte array")
}

/// The body stream of a request: an empty, completed stream where the host request
/// has no body, and an open one that the host's reads will fill where it has.
pub fn incoming_body(has_body: bool) -> (r: ByteStream)
    ensures
        !has_body ==> r@ == (StreamModel { chunks: Seq::empty(), end: EndModel::Completed }),
        has_body ==> r@ == open_model(),
{
    if has_body {
        ByteStream::open()
    } else {
        ByteStream::empty()
    }
}

/// Forwards one host read into the body stream, behind the chunks already
/// forwarded, and says whether the host reader should be pulled again.
pub fn forward_read(body: &mut ByteStream, read: HostRead) -> (pull_again: bool)
    ensures
        final(body)@ == apply_read(old(body)@, read),
        pull_again == (final(body)@.end == EndModel::Open),
{
    match read {
        HostRead::Chunk(b) => {
            body.push(b);
        },
        HostRead::Malformed => {
            body.fail(decode_error_text());
        },
        HostRead::Done => {
            body.complete();
        },
    }
    body.is_open()
}

/// Bridges a recorded sequence of host reads into a body stream, pulling until
/// the host's reader ends or fails.
pub fn bridge_reads(reads: Vec<HostRead>) -> (r: ByteStream)
    ensures
        r@ == apply_reads(open_model(), reads@),
{
    let ghost all = reads@;
    let mut body = ByteStream::open();
    let mut rest = reads;
    let mut pulling = true;
    let mut taken: Ghost<Seq<HostRead>> = Ghost(Seq::empty());
    while pulling && rest.len() > 0
        invariant
            taken@ + rest@ == all,
            body@ == apply_reads(open_model(), taken@),
            pulling == (body@.end == EndModel::Open),
        decreases rest.len(),
    {
        let read = rest.remove(0);
        proof {
            assert(taken@.push(read) + rest@ =~= all);
            assert(taken@.push(read).drop_last() =~= taken@);
        }
        pulling = forward_read(&mut body, read);
        taken = Ghost(taken@.push(read));
    }
    proof {
        if !pulling {
            lemma_closed_stays(body@, rest@);
        } else {
            assert(rest@ =~= Seq::<HostRead>::empty());
        }
        lemma_reads_concat(open_model(), taken@, rest@);
    }
    body
}

} // verus!
