use vstd::prelude::*;

use crate::stream::{after_delivery, BodyPoll, ByteStream, EndModel, StreamModel};

verus! {

/// What the host is handed on one of its pulls of a response body.
pub enum HostPull {
    /// Nothing yet; the host is woken when more is available.
    Pending,
    /// The next chunk, to be copied into a host buffer.
    Chunk(Vec<u8>),
    /// A stream error, carried as text.
    Error(String),
    /// The end of the body.
    End,
}

/// The text handed to the host for a body frame that carries no bytes.
pub open spec fn non_data_message() -> Seq<char> {
    "Not a data frame"@
}

/// The host's view of one poll of the internal body.
pub open spec fn host_pull_of(p: BodyPoll, h: HostPull) -> bool {
    match p {
        BodyPoll::Pending => h is Pending,
        BodyPoll::Data(b) => h is Chunk && h->Chunk_0@ == b@,
        BodyPoll::NonData => h is Error && h->Error_0@ == non_data_message(),
        BodyPoll::Error(e) => h is Error && h->Error_0@ == e@,
        BodyPoll::End => h is End,
    }
}

/// What the host sees once a body with no chunks left is pulled.
pub open spec fn host_end_of(e: EndModel, h: HostPull) -> bool {
    match e {
        EndModel::Open => h is Pending,
        EndModel::Completed => h is End,
        EndModel::Failed(msg) => h is Error && h->Error_0@ == msg,
    }
}

/// Turns one poll of the internal body into what the host is handed: data goes
/// through as a chunk, an error as its text, the end as the end.
pub fn outgoing_step(p: BodyPoll) -> (h: HostPull)
    ensures
        host_pull_of(p, h),
{
    match p {
        BodyPoll::Pending => HostPull::Pending,
        BodyPoll::Data(b) => HostPull::Chunk(b),
        BodyPoll::NonData => HostPull::Error(String::from_str("Not a data frame")),
        BodyPoll::Error(e) => HostPull::Error(e),
        BodyPoll::End => HostPull::End,
    }
}

/// Answers one host pull from a byte stream.
pub fn pull_outgoing(body: &mut ByteStream) -> (h: HostPull)
    ensures
        old(body)@.chunks.len() > 0 ==> h is Chunk && h->Chunk_0@ == old(body)@.chunks[0]
            && final(body)@ == (StreamModel {
            chunks: old(body)@.chunks.drop_first(),
            end: old(body)@.end,
        }),
        old(body)@.chunks.len() == 0 ==> host_end_of(old(body)@.end, h) && final(body)@ == (
        StreamModel { chunks: old(body)@.chunks, end: after_delivery(old(body)@.end) }),
{
    let p = body.poll_next();
    outgoing_step(p)
}

/// What a host consumer collected from a body: the bytes of every chunk, in
/// order, and the pull that stopped it.
pub struct Drained {
    pub bytes: Vec<u8>,
    pub last: HostPull,
}

/// Pulls a byte stream as the host does until it yields something other than a
/// chunk, and collects the chunks' bytes.
pub fn drain_to_host(body: &mut ByteStream) -> (r: Drained)
    ensures
        r.bytes@ == old(body)@.chunks.flatten(),
        host_end_of(old(body)@.end, r.last),
        final(body)@ == (StreamModel {
            chunks: Seq::empty(),
            end: after_delivery(old(body)@.end),
        }),
{
    let ghost start = body@;
    let mut bytes: Vec<u8> = Vec::new();
    loop
        invariant
            bytes@ + body@.chunks.flatten() == start.chunks.flatten(),
            body@.end == start.end,
            start == old(body)@,
        decreases body@.chunks.len(),
    {
        let ghost before = body@;
        let h = pull_outgoing(body);
        match h {
            HostPull::Chunk(mut c) => {
                proof {
                    assert(before.chunks.flatten() == before.chunks[0]
                        + before.chunks.drop_first().flatten());
                    assert(bytes@ + c@ + body@.chunks.flatten() =~= start.chunks.flatten());
                }
                bytes.append(&mut c);
            },
            _ => {
                proof {
                    assert(before.chunks.len() == 0);
                    assert(bytes@ =~= start.chunks.flatten());
                    assert(body@.chunks =~= Seq::<Seq<u8>>::empty());
                }
                return Drained { bytes, last: h };
            },
        }
    }
}

} // verus!
