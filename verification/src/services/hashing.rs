//! SHA-256 checksums of file contents, computed by `sha2` over the bytes fed
//! to a running checksum, and written as lower-case hexadecimal.
//!
//! The caller reads the file chunk by chunk and feeds each chunk in order.
use vstd::prelude::*;

use crate::text::{lower_hex, lower_hex_exec};

verus! {

/// A running SHA-256 computation (`sha2::Sha256`).
///
/// Verus does not accept a declaration of `sha2::Sha256`: it is an alias of
/// a generic wrapper over several type-level numbers. It is therefore held
/// whole in this opaque type, whose contents are named by
/// `sha256_stream_input`.
#[verifier::external_body]
pub struct Sha256Stream {
    hasher: sha2::Sha256,
}

/// Name for the bytes fed so far to a running checksum.
pub uninterp spec fn sha256_stream_input(s: Sha256Stream) -> Seq<u8>;

/// Name for the SHA-256 digest (32 bytes) of a sequence of bytes.
pub uninterp spec fn sha256_digest(data: Seq<u8>) -> Seq<u8>;

/// `<sha2::Sha256 as Digest>::new()`.
///
/// Claims: nothing has been fed to the new computation.
#[verifier::external_body]
fn stream_open() -> (r: Sha256Stream)
    ensures
        sha256_stream_input(r) == Seq::<u8>::empty(),
{
    Sha256Stream { hasher: <sha2::Sha256 as sha2::Digest>::new() }
}

/// `Digest::update(&mut hasher, data)`.
///
/// Claims: the bytes fed so far are followed by `data`.
#[verifier::external_body]
fn stream_feed(s: &mut Sha256Stream, data: &[u8])
    ensures
        sha256_stream_input(*final(s)) == sha256_stream_input(*old(s)) + data@,
{
    sha2::Digest::update(&mut s.hasher, data);
}

/// `Digest::finalize(hasher)`, as a vector of bytes.
///
/// Claims: the result is `sha256_digest` of every byte fed, in order.
#[verifier::external_body]
fn stream_close(s: Sha256Stream) -> (r: Vec<u8>)
    ensures
        r@ == sha256_digest(sha256_stream_input(s)),
{
    sha2::Digest::finalize(s.hasher).to_vec()
}

impl Sha256Stream {
    /// The bytes fed so far.
    pub open spec fn fed(self) -> Seq<u8> {
        sha256_stream_input(self)
    }

    /// A checksum with nothing fed yet.
    pub fn new() -> (r: Self)
        ensures
            r.fed() == Seq::<u8>::empty(),
    {
        stream_open()
    }

    /// Feeds the next chunk of the contents.
    pub fn update(&mut self, chunk: &[u8])
        ensures
            final(self).fed() == old(self).fed() + chunk@,
    {
        stream_feed(self, chunk)
    }

    /// The checksum of everything fed, as lower-case hexadecimal.
    pub fn finish_hex(self) -> (r: String)
        ensures
            r@ == lower_hex(sha256_digest(self.fed())),
    {
        let digest = stream_close(self);
        lower_hex_exec(digest.as_slice())
    }
}

/// The SHA-256 checksum of `data`, as lower-case hexadecimal.
pub fn sha256_hex(data: &[u8]) -> (r: String)
    ensures
        r@ == lower_hex(sha256_digest(data@)),
{
    let mut s = Sha256Stream::new();
    s.update(data);
    assert(Seq::<u8>::empty() + data@ =~= data@);
    s.finish_hex()
}

/// Feeding the contents in several chunks gives the checksum of all of them
/// joined: the checksum depends only on the bytes, not on how they were cut.
pub proof fn law_checksum_ignores_chunking(a: Seq<u8>, b: Seq<u8>, s0: Sha256Stream, s1: Sha256Stream, s2: Sha256Stream)
    requires
        s0.fed() == Seq::<u8>::empty(),
        s1.fed() == s0.fed() + a,
        s2.fed() == s1.fed() + b,
    ensures
        lower_hex(sha256_digest(s2.fed())) == lower_hex(sha256_digest(a + b)),
{
    assert(s2.fed() =~= a + b);
}

} // verus!
