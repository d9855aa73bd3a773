//! Output watermarks and session-data checks.

use vstd::prelude::*;
use base64::Engine as _;
use vstd::string::StringSliceAdditionalSpecFns;
use crate::config::AgentConfig;
use crate::error::AgentError;

verus! {

/// The SHA-256 digest of a byte sequence.
pub uninterp spec fn sha256_of(data: Seq<u8>) -> Seq<u8>;

/// The standard, padded base64 text of a byte sequence.
pub uninterp spec fn base64_of(data: Seq<u8>) -> Seq<char>;

/// Relies on ring's `digest::digest` with `SHA256`: the digest of `data`,
/// 32 bytes long.  It panics on inputs of `2^61` bytes or more.
#[verifier::external_body]
fn sha256(data: &[u8]) -> (r: Vec<u8>)
    requires
        data@.len() < 0x2000_0000_0000_0000,
    ensures
        r@ == sha256_of(data@),
        r@.len() == 32,
{
    ring::digest::digest(&ring::digest::SHA256, data).as_ref().to_vec()
}

/// Relies on base64's `STANDARD` engine `encode`: padded base64, four
/// characters for each started group of three bytes.
#[verifier::external_body]
fn base64_encode(data: &[u8]) -> (r: String)
    requires
        data@.len() <= usize::MAX / 4,
    ensures
        r@ == base64_of(data@),
        r@.len() == 4 * ((data@.len() + 2) / 3),
{
    base64::engine::general_purpose::STANDARD.encode(data)
}

/// Longest session text that can be watermarked, in bytes.
pub const WATERMARK_INPUT_LIMIT: u64 = 0x1fff_ffff_ffff_0000;

/// Bytes that open every watermarked input.
pub open spec fn watermark_domain_spec() -> Seq<u8> {
    "GITHUB_MASTERY_PROPRIETARY".spec_bytes()
}

/// The bytes that a session's watermark digests: the domain, then the
/// session text.
pub open spec fn watermark_input_spec(session_id: &str) -> Seq<u8> {
    watermark_domain_spec() + session_id.spec_bytes()
}

/// Relates outputs to sessions.
pub struct SecurityManager {
    config: AgentConfig,
}

impl SecurityManager {
    /// A manager under `config`; never fails.
    pub fn new(config: &AgentConfig) -> (r: Result<SecurityManager, AgentError>)
        ensures
            r is Ok,
    {
        Ok(SecurityManager { config: config.clone() })
    }

    /// The bytes that the watermark of `session_id` digests.
    pub fn watermark_input(&self, session_id: &str) -> (r: Vec<u8>)
        requires
            session_id.spec_bytes().len() < WATERMARK_INPUT_LIMIT as nat,
            session_id.spec_bytes().len() <= usize::MAX - 64,
        ensures
            r@ == watermark_input_spec(session_id),
            r@.len() == 26 + session_id.spec_bytes().len(),
    {
        let mut data: Vec<u8> = Vec::new();
        let domain: &str = "GITHUB_MASTERY_PROPRIETARY";
        let d = domain.as_bytes();
        let s = session_id.as_bytes();
        let mut i: usize = 0;
        proof {
            reveal_strlit("GITHUB_MASTERY_PROPRIETARY");
            assert(vstd::utf8::is_ascii_chars(domain@));
            vstd::string::is_ascii_spec_bytes(domain);
            assert(watermark_domain_spec().len() == 26);
        }
        while i < d.len()
            invariant
                i <= d@.len(),
                d@ == watermark_domain_spec(),
                data@ == d@.subrange(0, i as int),
            decreases d@.len() - i,
        {
            data.push(d[i]);
            i = i + 1;
            assert(data@ =~= d@.subrange(0, i as int));
        }
        let mut j: usize = 0;
        while j < s.len()
            invariant
                j <= s@.len(),
                s@ == session_id.spec_bytes(),
                d@ == watermark_domain_spec(),
                data@ == d@ + s@.subrange(0, j as int),
            decreases s@.len() - j,
        {
            data.push(s[j]);
            j = j + 1;
            assert(data@ =~= d@ + s@.subrange(0, j as int));
        }
        assert(s@.subrange(0, s@.len() as int) =~= s@);
        data
    }

    /// The watermark of `session_id`: the base64 text of the SHA-256 digest
    /// of the watermark input.
    pub fn generate_watermark(&self, session_id: &str) -> (r: String)
        requires
            session_id.spec_bytes().len() < WATERMARK_INPUT_LIMIT as nat,
            session_id.spec_bytes().len() <= usize::MAX - 64,
        ensures
            r@ == base64_of(sha256_of(watermark_input_spec(session_id))),
            r@.len() == 44,
    {
        let data = self.watermark_input(session_id);
        assert(data@.len() < 0x2000_0000_0000_0000);
        let digest = sha256(data.as_slice());
        base64_encode(digest.as_slice())
    }

    /// Session data is accepted when it is not empty.
    pub fn validate_session(&self, session_data: &str) -> (r: Result<bool, AgentError>)
        ensures
            r == Ok::<bool, AgentError>(session_data@.len() != 0),
    {
        Ok(!session_data.is_empty())
    }

    /// Whether the process may proceed; no debugger detection is made.
    pub fn check_debug_protection(&self) -> (r: bool)
        ensures
            r,
    {
        true
    }
}

} // verus!
