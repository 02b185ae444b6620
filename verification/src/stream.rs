use vstd::prelude::*;
use vstd::slice::slice_to_vec;
use crate::paths::base_name_spec;
use crate::response::content_type_spec;
use crate::response::disposition_spec;
use crate::response::response_spec;
use crate::response::status_of;
use crate::response::HeadersModel;
use crate::response::OutcomeModel;
use crate::response::ResponseModel;

verus! {

/// The bytes a response body delivers when the chunks read from the file, in
/// file order, are `chunks`: each chunk appended after the ones before it.
pub open spec fn delivered_bytes(chunks: Seq<Seq<u8>>) -> Seq<u8>
    decreases chunks.len(),
{
    if chunks.len() == 0 {
        Seq::empty()
    } else {
        delivered_bytes(chunks.drop_last()) + chunks.last()
    }
}

/// The views of a sequence of owned chunks.
pub open spec fn chunk_views(chunks: Seq<Vec<u8>>) -> Seq<Seq<u8>> {
    chunks.map_values(|c: Vec<u8>| c@)
}

proof fn lemma_delivered_is_flatten_alt(chunks: Seq<Seq<u8>>)
    ensures
        delivered_bytes(chunks) == chunks.flatten_alt(),
    decreases chunks.len(),
{
    if chunks.len() > 0 {
        lemma_delivered_is_flatten_alt(chunks.drop_last());
    }
}

/// A body delivers exactly the file's bytes: appending the chunks read in file
/// order yields their concatenation — nothing reordered, dropped or added.
pub proof fn lemma_streams_whole_file(chunks: Seq<Seq<u8>>)
    ensures
        delivered_bytes(chunks) == chunks.flatten(),
{
    lemma_delivered_is_flatten_alt(chunks);
    chunks.lemma_flatten_and_flatten_alt_are_equivalent();
}

/// The whole success path: for any configured path whose file opened, a
/// request — whatever its method or path — receives status 200 with the
/// download headers naming exactly the path's base name, and a body that is
/// byte-for-byte the concatenation of the chunks read from that file.
pub proof fn lemma_request_serves_exact_file(path: Seq<char>, chunks: Seq<Seq<u8>>)
    ensures
        status_of(response_spec(path, OutcomeModel::Opened)) == 200,
        response_spec(path, OutcomeModel::Opened) == (ResponseModel::Found {
            headers: HeadersModel {
                content_type: content_type_spec(),
                content_disposition: disposition_spec(base_name_spec(path)),
            },
        }),
        delivered_bytes(chunks) == chunks.flatten(),
{
    lemma_streams_whole_file(chunks);
}

/// Requests do not interfere: each body is the concatenation of the chunks its
/// own request read, whatever any concurrent request read from the same file.
pub proof fn lemma_requests_independent(chunks_a: Seq<Seq<u8>>, chunks_b: Seq<Seq<u8>>)
    ensures
        delivered_bytes(chunks_a) == chunks_a.flatten(),
        delivered_bytes(chunks_b) == chunks_b.flatten(),
{
    lemma_streams_whole_file(chunks_a);
    lemma_streams_whole_file(chunks_b);
}

/// Nothing is cached across requests: a later request's body is determined by
/// the chunks read from the file at that request alone, so a file replaced
/// between two requests streams its new content to the second.
pub proof fn lemma_replaced_content_streams_fresh(earlier: Seq<Seq<u8>>, current: Seq<Seq<u8>>)
    ensures
        delivered_bytes(current) == current.flatten(),
{
    lemma_streams_whole_file(current);
}

/// The per-request streaming state: the body bytes handed to the transport so
/// far, in order, and whether end of file has been reached. Each request owns
/// its own `Streamer` over its own file handle.
pub struct Streamer {
    sent: Ghost<Seq<u8>>,
    done: bool,
}

impl Streamer {
    /// The bytes handed to the transport so far, in order.
    pub closed spec fn sent_bytes(&self) -> Seq<u8> {
        self.sent@
    }

    /// Whether the body is complete.
    pub closed spec fn is_done(&self) -> bool {
        self.done
    }

    /// A fresh stream for one request: nothing carries over from any earlier
    /// request — the body starts empty.
    pub fn new() -> (s: Streamer)
        ensures
            s.sent_bytes() == Seq::<u8>::empty(),
            !s.is_done(),
    {
        Streamer { sent: Ghost(Seq::empty()), done: false }
    }

    /// Hand one chunk read from the file to the transport, unchanged and in
    /// order: the body grows by exactly this chunk's bytes.
    pub fn forward_chunk(&mut self, chunk: Vec<u8>) -> (out: Vec<u8>)
        requires
            !old(self).is_done(),
        ensures
            out@ == chunk@,
            final(self).sent_bytes() == old(self).sent_bytes() + chunk@,
            !final(self).is_done(),
    {
        self.sent = Ghost(self.sent@ + chunk@);
        chunk
    }

    /// End of file: the body is complete; the bytes sent stay as they are.
    pub fn finish(&mut self)
        ensures
            final(self).is_done(),
            final(self).sent_bytes() == old(self).sent_bytes(),
    {
        self.done = true;
    }
}

/// Stream every chunk, in order, through a fresh `Streamer` and collect the
/// body delivered: it is exactly the concatenation of the chunks read.
pub fn stream_all(chunks: &Vec<Vec<u8>>) -> (body: Vec<u8>)
    ensures
        body@ == chunk_views(chunks@).flatten(),
{
    let mut s = Streamer::new();
    let mut body: Vec<u8> = Vec::new();
    let mut i: usize = 0;
    while i < chunks.len()
        invariant
            i <= chunks.len(),
            !s.is_done(),
            s.sent_bytes() == delivered_bytes(chunk_views(chunks@).take(i as int)),
            body@ == s.sent_bytes(),
        decreases chunks.len() - i,
    {
        let c = slice_to_vec(chunks[i].as_slice());
        let mut out = s.forward_chunk(c);
        body.append(&mut out);
        proof {
            let cv = chunk_views(chunks@);
            assert(cv.take(i + 1).drop_last() =~= cv.take(i as int));
            assert(cv.take(i + 1).last() == chunks@[i as int]@);
        }
        i = i + 1;
    }
    s.finish();
    proof {
        assert(chunk_views(chunks@).take(chunks@.len() as int) =~= chunk_views(chunks@));
        lemma_streams_whole_file(chunk_views(chunks@));
    }
    body
}

} // verus!
