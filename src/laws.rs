use vstd::prelude::*;

use crate::incoming::{apply_read, apply_reads, open_model, HostRead};
use crate::request::{header_count, translated_from, InternalRequest};
use crate::stream::{EndModel, StreamModel};

verus! {

/// The bytes a host chunk carries.
pub open spec fn payload(r: HostRead) -> Seq<u8> {
    match r {
        HostRead::Chunk(b) => b@,
        _ => Seq::empty(),
    }
}

/// `reads` is a body as a well-behaved host delivers it: chunks, then the end.
pub open spec fn chunks_then_done(reads: Seq<HostRead>) -> bool {
    &&& reads.len() >= 1
    &&& reads.last() is Done
    &&& forall|i: int| 0 <= i < reads.len() - 1 ==> (#[trigger] reads[i]) is Chunk
}

/// A host request without a body becomes an internal request whose body has
/// already ended cleanly and holds no bytes.
pub proof fn empty_body_round_trip(
    req: InternalRequest,
    method: Seq<char>,
    url: Seq<char>,
    headers: Seq<(String, String)>,
)
    requires
        translated_from(req, method, url, headers, false),
    ensures
        req.body@.chunks.len() == 0,
        req.body@.chunks.flatten() == Seq::<u8>::empty(),
        req.body@.end == EndModel::Completed,
{
}

/// Bridging chunks followed by the end gives a completed stream that holds exactly
/// those chunks, in the order the host delivered them, and so exactly their bytes
/// concatenated.
pub proof fn chunk_order_preserved(reads: Seq<HostRead>)
    requires
        chunks_then_done(reads),
    ensures
        apply_reads(open_model(), reads) == (StreamModel {
            chunks: reads.drop_last().map_values(|r: HostRead| payload(r)),
            end: EndModel::Completed,
        }),
        apply_reads(open_model(), reads).chunks.flatten() == reads.drop_last().map_values(
            |r: HostRead| payload(r),
        ).flatten(),
{
    lemma_chunks_stay_open(reads.drop_last());
}

proof fn lemma_chunks_stay_open(reads: Seq<HostRead>)
    requires
        forall|i: int| 0 <= i < reads.len() ==> (#[trigger] reads[i]) is Chunk,
    ensures
        apply_reads(open_model(), reads) == (StreamModel {
            chunks: reads.map_values(|r: HostRead| payload(r)),
            end: EndModel::Open,
        }),
    decreases reads.len(),
{
    if reads.len() == 0 {
        assert(reads.map_values(|r: HostRead| payload(r)) =~= Seq::<Seq<u8>>::empty());
    } else {
        let init = reads.drop_last();
        assert forall|i: int| 0 <= i < init.len() implies (#[trigger] init[i]) is Chunk by {
            assert(init[i] == reads[i]);
        }
        lemma_chunks_stay_open(init);
        assert(reads.map_values(|r: HostRead| payload(r)) =~= init.map_values(
            |r: HostRead| payload(r),
        ).push(payload(reads.last())));
        assert(reads[reads.len() - 1] is Chunk);
    }
}

/// The internal request carries the host's header entries unchanged: the same
/// number, the same names and values in the same order, and every name as often
/// as the host gave it.
pub proof fn header_fidelity(
    req: InternalRequest,
    method: Seq<char>,
    url: Seq<char>,
    headers: Seq<(String, String)>,
    has_body: bool,
)
    requires
        translated_from(req, method, url, headers, has_body),
    ensures
        req.headers@.len() == headers.len(),
        forall|i: int|
            0 <= i < headers.len() ==> (#[trigger] req.headers@[i]).0@ == headers[i].0@
                && req.headers@[i].1@ == headers[i].1@,
        forall|key: Seq<char>| #[trigger]
            header_count(req.headers@, key) == header_count(headers, key),
{
}

/// The two body streams after the host reads of two calls arrive interleaved as
/// `tagged`, starting from `a` and `b`; a read tagged `true` is forwarded into the
/// first stream, one tagged `false` into the second.
pub open spec fn apply_interleaved(
    a: StreamModel,
    b: StreamModel,
    tagged: Seq<(bool, HostRead)>,
) -> (StreamModel, StreamModel)
    decreases tagged.len(),
{
    if tagged.len() == 0 {
        (a, b)
    } else {
        let (x, y) = apply_interleaved(a, b, tagged.drop_last());
        let (first, r) = tagged.last();
        if first {
            (apply_read(x, r), y)
        } else {
            (x, apply_read(y, r))
        }
    }
}

/// The reads of `tagged` that carry the tag `side`, in order.
pub open spec fn reads_of(tagged: Seq<(bool, HostRead)>, side: bool) -> Seq<HostRead>
    decreases tagged.len(),
{
    if tagged.len() == 0 {
        Seq::empty()
    } else {
        let earlier = reads_of(tagged.drop_last(), side);
        if tagged.last().0 == side {
            earlier.push(tagged.last().1)
        } else {
            earlier
        }
    }
}

proof fn lemma_interleaved(a: StreamModel, b: StreamModel, tagged: Seq<(bool, HostRead)>)
    ensures
        apply_interleaved(a, b, tagged) == (apply_reads(a, reads_of(tagged, true)), apply_reads(
            b,
            reads_of(tagged, false),
        )),
    decreases tagged.len(),
{
    if tagged.len() > 0 {
        lemma_interleaved(a, b, tagged.drop_last());
        let (first, r) = tagged.last();
        let side_a = reads_of(tagged.drop_last(), true);
        let side_b = reads_of(tagged.drop_last(), false);
        assert(side_a.push(r).drop_last() =~= side_a);
        assert(side_b.push(r).drop_last() =~= side_b);
    }
}

/// Two calls are independent: each translated request carries its own host
/// request's headers, and however the host reads of the two calls interleave, each
/// body stream ends up exactly as its own reads alone would leave it.
pub proof fn calls_are_independent(
    a: InternalRequest,
    b: InternalRequest,
    method_a: Seq<char>,
    url_a: Seq<char>,
    headers_a: Seq<(String, String)>,
    has_body_a: bool,
    method_b: Seq<char>,
    url_b: Seq<char>,
    headers_b: Seq<(String, String)>,
    has_body_b: bool,
    tagged: Seq<(bool, HostRead)>,
)
    requires
        translated_from(a, method_a, url_a, headers_a, has_body_a),
        translated_from(b, method_b, url_b, headers_b, has_body_b),
    ensures
        a.headers@ == headers_a,
        b.headers@ == headers_b,
        apply_interleaved(a.body@, b.body@, tagged) == (apply_reads(
            a.body@,
            reads_of(tagged, true),
        ), apply_reads(b.body@, reads_of(tagged, false))),
{
    lemma_interleaved(a.body@, b.body@, tagged);
}

} // verus!
