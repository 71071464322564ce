use vstd::prelude::*;

verus! {

/// How a byte stream stands after the chunks it still holds.
pub enum EndModel {
    /// More chunks may still come.
    Open,
    /// The stream ended cleanly.
    Completed,
    /// The stream ends with this error, not delivered yet.
    Failed(Seq<char>),
}

/// The abstract content of a byte stream: the chunks waiting to be read, in order,
/// and what follows them.
pub struct StreamModel {
    pub chunks: Seq<Seq<u8>>,
    pub end: EndModel,
}

/// The terminal state of a byte stream, as executable data.
pub enum StreamEnd {
    Open,
    Completed,
    Failed(String),
}

impl StreamEnd {
    pub open spec fn model(&self) -> EndModel {
        match self {
            StreamEnd::Open => EndModel::Open,
            StreamEnd::Completed => EndModel::Completed,
            StreamEnd::Failed(e) => EndModel::Failed(e@),
        }
    }
}

/// What one poll of a body gives back.
pub enum BodyPoll {
    /// Nothing is available yet; the body is still open.
    Pending,
    /// The next chunk of bytes.
    Data(Vec<u8>),
    /// A frame that carries no bytes (trailers).
    NonData,
    /// The body failed with this description.
    Error(String),
    /// The body ended cleanly.
    End,
}

/// A single-consumer, single-pass sequence of byte chunks with an explicit end.
///
/// Writers append chunks in order and then close the stream, cleanly or with an
/// error; the reader takes the chunks from the front in the order they were
/// written. It serves as the ordered queue between a body's producer and its
/// consumer.
pub struct ByteStream {
    queue: Vec<Vec<u8>>,
    end: StreamEnd,
}

/// A stream that has delivered an error afterwards reads as cleanly ended.
pub open spec fn after_delivery(e: EndModel) -> EndModel {
    match e {
        EndModel::Open => EndModel::Open,
        _ => EndModel::Completed,
    }
}

/// The poll that a stream with no chunks left gives for its end.
pub open spec fn end_poll_matches(p: BodyPoll, e: EndModel) -> bool {
    match e {
        EndModel::Open => p is Pending,
        EndModel::Completed => p is End,
        EndModel::Failed(msg) => p is Error && p->Error_0@ == msg,
    }
}

impl View for ByteStream {
    type V = StreamModel;

    closed spec fn view(&self) -> StreamModel {
        StreamModel { chunks: self.queue@.map_values(|c: Vec<u8>| c@), end: self.end.model() }
    }
}

impl ByteStream {
    /// A stream that has ended with no chunks: the body of a request without one.
    pub fn empty() -> (r: ByteStream)
        ensures
            r@.chunks == Seq::<Seq<u8>>::empty(),
            r@.end == EndModel::Completed,
    {
        let r = ByteStream { queue: Vec::new(), end: StreamEnd::Completed };
        assert(r@.chunks =~= Seq::<Seq<u8>>::empty());
        r
    }

    /// An open stream that holds no chunks yet.
    pub fn open() -> (r: ByteStream)
        ensures
            r@.chunks == Seq::<Seq<u8>>::empty(),
            r@.end == EndModel::Open,
    {
        let r = ByteStream { queue: Vec::new(), end: StreamEnd::Open };
        assert(r@.chunks =~= Seq::<Seq<u8>>::empty());
        r
    }

    /// A stream that holds the given chunks, in order, and then ends cleanly.
    pub fn from_chunks(chunks: Vec<Vec<u8>>) -> (r: ByteStream)
        ensures
            r@.chunks == chunks@.map_values(|c: Vec<u8>| c@),
            r@.end == EndModel::Completed,
    {
        ByteStream { queue: chunks, end: StreamEnd::Completed }
    }

    pub fn is_open(&self) -> (r: bool)
        ensures
            r == (self@.end == EndModel::Open),
    {
        match self.end {
            StreamEnd::Open => true,
            _ => false,
        }
    }

    /// Appends a chunk behind those already written. A stream that is no longer
    /// open refuses it and stays as it was.
    pub fn push(&mut self, chunk: Vec<u8>) -> (accepted: bool)
        ensures
            accepted == (old(self)@.end == EndModel::Open),
            accepted ==> final(self)@ == (StreamModel {
                chunks: old(self)@.chunks.push(chunk@),
                end: EndModel::Open,
            }),
            !accepted ==> final(self)@ == old(self)@,
    {
        if self.is_open() {
            let ghost c = chunk@;
            self.queue.push(chunk);
            assert(self@.chunks =~= old(self)@.chunks.push(c));
            true
        } else {
            false
        }
    }

    /// Ends an open stream cleanly; the chunks it holds can still be read.
    pub fn complete(&mut self)
        ensures
            final(self)@.chunks == old(self)@.chunks,
            final(self)@.end == (if old(self)@.end == EndModel::Open {
                EndModel::Completed
            } else {
                old(self)@.end
            }),
    {
        if self.is_open() {
            self.end = StreamEnd::Completed;
        }
    }

    /// Ends an open stream with an error, delivered after the chunks it holds.
    pub fn fail(&mut self, error: String)
        ensures
            final(self)@.chunks == old(self)@.chunks,
            final(self)@.end == (if old(self)@.end == EndModel::Open {
                EndModel::Failed(error@)
            } else {
                old(self)@.end
            }),
    {
        if self.is_open() {
            self.end = StreamEnd::Failed(error);
        }
    }

    /// Takes the next item: the oldest chunk if any is held, else the end. An error
    /// is delivered once; after it the stream reads as ended.
    pub fn poll_next(&mut self) -> (p: BodyPoll)
        ensures
            old(self)@.chunks.len() > 0 ==> p is Data && p->Data_0@ == old(self)@.chunks[0]
                && final(self)@ == (StreamModel {
                chunks: old(self)@.chunks.drop_first(),
                end: old(self)@.end,
            }),
            old(self)@.chunks.len() == 0 ==> end_poll_matches(p, old(self)@.end)
                && final(self)@ == (StreamModel {
                chunks: old(self)@.chunks,
                end: after_delivery(old(self)@.end),
            }),
            !(p is NonData),
    {
        if self.queue.len() > 0 {
            let c = self.queue.remove(0);
            assert(self@.chunks =~= old(self)@.chunks.drop_first());
            BodyPoll::Data(c)
        } else {
            let p = match &self.end {
                StreamEnd::Open => BodyPoll::Pending,
                StreamEnd::Completed => BodyPoll::End,
                StreamEnd::Failed(msg) => BodyPoll::Error(msg.clone()),
            };
            if self.is_open() {
                p
            } else {
                self.end = StreamEnd::Completed;
                p
            }
        }
    }
}

} // verus!
