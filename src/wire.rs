//! DNS message bytes: the transaction-id field, and the calls into
//! simple_dns that parse and assemble whole messages.
use vstd::prelude::*;

verus! {

/// Length of a DNS message header.
pub const HEADER_LEN: usize = 12;

/// The transaction id in the first two bytes of a message, big-endian.
pub open spec fn header_id(b: Seq<u8>) -> u16 {
    (b[0] as int * 256 + b[1] as int) as u16
}

/// `b` with its transaction-id field set to `id`; every other byte is kept.
pub open spec fn with_id_spec(b: Seq<u8>, id: u16) -> Seq<u8> {
    b.update(0, (id as int / 256) as u8).update(1, (id as int % 256) as u8)
}

/// Whether simple_dns reads `b` as a DNS message.
pub uninterp spec fn parses(b: Seq<u8>) -> bool;

/// The message simple_dns builds as the reply with transaction id `id`
/// carrying the questions of `query` and the answers of `upstream`.
pub uninterp spec fn spliced_reply(id: u16, query: Seq<u8>, upstream: Seq<u8>) -> Seq<u8>;

/// Whether simple_dns succeeds in building that reply.
pub uninterp spec fn splice_ok(id: u16, query: Seq<u8>, upstream: Seq<u8>) -> bool;

/// Reads the transaction id of a message.
pub fn read_id(b: &Vec<u8>) -> (r: u16)
    requires
        b@.len() >= 2,
    ensures
        r == header_id(b@),
{
    (b[0] as u16) * 256 + b[1] as u16
}

/// A copy of `b`.
pub fn copy_bytes(b: &Vec<u8>) -> (r: Vec<u8>)
    ensures
        r@ == b@,
{
    let mut out: Vec<u8> = Vec::with_capacity(b.len());
    let mut i: usize = 0;
    while i < b.len()
        invariant
            i <= b@.len(),
            out@ == b@.subrange(0, i as int),
        decreases b@.len() - i,
    {
        out.push(b[i]);
        i = i + 1;
    }
    assert(out@ =~= b@);
    out
}

/// A copy of `b` whose transaction-id field holds `id`.
pub fn with_id(b: &Vec<u8>, id: u16) -> (r: Vec<u8>)
    requires
        b@.len() >= 2,
    ensures
        r@ == with_id_spec(b@, id),
        header_id(r@) == id,
{
    let mut out = copy_bytes(b);
    let hi: u8 = (id / 256) as u8;
    let lo: u8 = (id % 256) as u8;
    out.set(0, hi);
    out.set(1, lo);
    assert(out@ =~= with_id_spec(b@, id));
    out
}

/// Relies on simple_dns::Packet::parse: whether the bytes are a DNS message.
/// Parsing reads the twelve-byte header first, so a shorter input fails.
#[verifier::external_body]
pub(crate) fn dns_parses(b: &Vec<u8>) -> (r: bool)
    ensures
        r == parses(b@),
        r ==> b@.len() >= HEADER_LEN,
{
    simple_dns::Packet::parse(b.as_slice()).is_ok()
}

/// Relies on simple_dns: `Packet::parse` of both messages, `Packet::new_reply`
/// with `id`, the questions of `query` and the answers of `upstream` moved into
/// it, and `Packet::build_bytes_vec`. The header is written first and starts
/// with the id, big-endian.
#[verifier::external_body]
pub(crate) fn splice_reply(id: u16, query: &Vec<u8>, upstream: &Vec<u8>) -> (r: Option<Vec<u8>>)
    ensures
        r is Some <==> splice_ok(id, query@, upstream@),
        r matches Some(v) ==> {
            &&& v@ == spliced_reply(id, query@, upstream@)
            &&& parses(query@) && parses(upstream@)
            &&& v@.len() >= HEADER_LEN
            &&& header_id(v@) == id
        },
{
    let original = simple_dns::Packet::parse(query.as_slice()).ok()?;
    let answer = simple_dns::Packet::parse(upstream.as_slice()).ok()?;
    let mut reply = simple_dns::Packet::new_reply(id);
    reply.questions = original.questions;
    reply.answers = answer.answers;
    reply.build_bytes_vec().ok()
}

} // verus!
