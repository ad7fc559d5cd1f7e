//! The proof artifact and its binary layout: a length-prefixed version
//! string, eight little-endian 32-bit words of image identity, a
//! length-prefixed chain name, and the attestation as an opaque blob that
//! runs to the end.

use vstd::prelude::*;
use vstd::bytes::*;
use vstd::utf8::*;
use vstd::slice::*;
use crate::text::string_from_utf8;

verus! {

/// A persisted proof.
#[derive(Clone, Debug, PartialEq, Eq)]
pub struct Proof {
    pub version: String,
    pub image_id: [u32; 8],
    pub chain: String,
    /// The serialised attestation.
    pub receipt: Vec<u8>,
}

/// What a proof holds, as mathematical values.
pub struct ProofView {
    pub version: Seq<char>,
    pub image_id: Seq<u32>,
    pub chain: Seq<char>,
    pub receipt: Seq<u8>,
}

impl View for Proof {
    type V = ProofView;

    open spec fn view(&self) -> ProofView {
        ProofView {
            version: self.version@,
            image_id: self.image_id@,
            chain: self.chain@,
            receipt: self.receipt@,
        }
    }
}

/// Why bytes are not a proof artifact.
#[derive(Clone, Copy, Debug, PartialEq, Eq, Structural)]
pub enum ProofError {
    /// The bytes end before a field does.
    UnexpectedEnd,
    /// A string field is not UTF-8.
    InvalidUtf8,
}

/// A string as it is laid out: the length of its UTF-8 encoding as eight
/// little-endian bytes, then the encoding.
pub open spec fn string_frame(s: Seq<char>) -> Seq<u8> {
    spec_u64_to_le_bytes(encode_utf8(s).len() as u64) + encode_utf8(s)
}

/// The eight words of an image identity, each as four little-endian bytes.
pub open spec fn image_bytes(id: Seq<u32>) -> Seq<u8>
    recommends
        id.len() == 8,
{
    spec_u32_to_le_bytes(id[0]) + spec_u32_to_le_bytes(id[1]) + spec_u32_to_le_bytes(id[2])
        + spec_u32_to_le_bytes(id[3]) + spec_u32_to_le_bytes(id[4]) + spec_u32_to_le_bytes(id[5])
        + spec_u32_to_le_bytes(id[6]) + spec_u32_to_le_bytes(id[7])
}

/// The bytes of a proof artifact.
pub open spec fn artifact_bytes(p: ProofView) -> Seq<u8> {
    string_frame(p.version) + image_bytes(p.image_id) + string_frame(p.chain) + p.receipt
}

/// Reads one framed string from the front of `b`: the string and what
/// follows it.
pub open spec fn take_string(b: Seq<u8>) -> Result<(Seq<char>, Seq<u8>), ProofError> {
    if b.len() < 8 {
        Err(ProofError::UnexpectedEnd)
    } else {
        let n = spec_u64_from_le_bytes(b.subrange(0, 8)) as int;
        if b.len() - 8 < n {
            Err(ProofError::UnexpectedEnd)
        } else if !valid_utf8(b.subrange(8, 8 + n)) {
            Err(ProofError::InvalidUtf8)
        } else {
            Ok((decode_utf8(b.subrange(8, 8 + n)), b.skip(8 + n)))
        }
    }
}

/// Reads the eight words of an image identity from the front of `b`.
pub open spec fn take_image(b: Seq<u8>) -> Result<(Seq<u32>, Seq<u8>), ProofError> {
    if b.len() < 32 {
        Err(ProofError::UnexpectedEnd)
    } else {
        Ok(
            (
                Seq::new(8, |k: int| spec_u32_from_le_bytes(b.subrange(4 * k, 4 * k + 4))),
                b.skip(32),
            ),
        )
    }
}

/// The proof that the bytes hold, or why they hold none.
pub open spec fn parse_artifact(b: Seq<u8>) -> Result<ProofView, ProofError> {
    match take_string(b) {
        Err(e) => Err(e),
        Ok((version, after_version)) => match take_image(after_version) {
            Err(e) => Err(e),
            Ok((image_id, after_image)) => match take_string(after_image) {
                Err(e) => Err(e),
                Ok((chain, receipt)) => Ok(ProofView { version, image_id, chain, receipt }),
            },
        },
    }
}

/// Appends `src` to `out`.
fn append_bytes(out: &mut Vec<u8>, src: &[u8])
    ensures
        final(out)@ == old(out)@ + src@,
{
    let ghost before = out@;
    let mut i: usize = 0;
    while i < src.len()
        invariant
            i <= src@.len(),
            out@ == before + src@.subrange(0, i as int),
        decreases src@.len() - i,
    {
        out.push(src[i]);
        i += 1;
        assert(out@ =~= before + src@.subrange(0, i as int));
    }
    assert(src@.subrange(0, i as int) =~= src@);
}

/// Appends a framed string to `out`.
fn write_string(out: &mut Vec<u8>, s: &String)
    ensures
        final(out)@ == old(out)@ + string_frame(s@),
{
    let bytes = s.as_str().as_bytes();
    let prefix = u64_to_le_bytes(bytes.len() as u64);
    append_bytes(out, prefix.as_slice());
    append_bytes(out, bytes);
    assert(out@ =~= old(out)@ + string_frame(s@));
}

/// Appends one word, least significant byte first, to `out`.
fn write_word(out: &mut Vec<u8>, word: u32)
    ensures
        final(out)@ == old(out)@ + spec_u32_to_le_bytes(word),
{
    let bytes = u32_to_le_bytes(word);
    append_bytes(out, bytes.as_slice());
}

/// Reads a framed string that starts at `pos`; returns it with the place
/// where the next field starts.
fn read_string(input: &[u8], pos: usize) -> (r: Result<(String, usize), ProofError>)
    requires
        pos <= input@.len(),
    ensures
        match take_string(input@.skip(pos as int)) {
            Ok((s, rest)) => r is Ok && r->Ok_0.0@ == s && pos <= r->Ok_0.1 <= input@.len()
                && input@.skip(r->Ok_0.1 as int) == rest,
            Err(e) => r is Err && r->Err_0 == e,
        },
{
    let len = input.len();
    let ghost tail = input@.skip(pos as int);
    if len - pos < 8 {
        return Err(ProofError::UnexpectedEnd);
    }
    let prefix = slice_subrange(input, pos, pos + 8);
    assert(prefix@ =~= tail.subrange(0, 8));
    let n64 = u64_from_le_bytes(prefix);
    if n64 > (len - pos - 8) as u64 {
        return Err(ProofError::UnexpectedEnd);
    }
    let n = n64 as usize;
    let body = slice_subrange(input, pos + 8, pos + 8 + n);
    assert(body@ =~= tail.subrange(8, 8 + n));
    assert(input@.skip((pos + 8 + n) as int) =~= tail.skip(8 + n));
    match string_from_utf8(slice_to_vec(body)) {
        Some(s) => Ok((s, pos + 8 + n)),
        None => Err(ProofError::InvalidUtf8),
    }
}

/// Reads the word that starts at `pos`.
fn read_word(input: &[u8], pos: usize) -> (w: u32)
    requires
        pos + 4 <= input@.len(),
    ensures
        w == spec_u32_from_le_bytes(input@.subrange(pos as int, pos + 4)),
{
    let len = input.len();
    assert(pos + 4 <= len);
    u32_from_le_bytes(slice_subrange(input, pos, pos + 4))
}

/// Reads the image identity that starts at `pos`; returns it with the
/// place where the next field starts.
fn read_image(input: &[u8], pos: usize) -> (r: Result<([u32; 8], usize), ProofError>)
    requires
        pos <= input@.len(),
    ensures
        match take_image(input@.skip(pos as int)) {
            Ok((id, rest)) => r is Ok && r->Ok_0.0@ == id && r->Ok_0.1 == pos + 32 && pos + 32
                <= input@.len() && input@.skip(r->Ok_0.1 as int) == rest,
            Err(e) => r is Err && r->Err_0 == e,
        },
{
    let ghost tail = input@.skip(pos as int);
    if input.len() - pos < 32 {
        return Err(ProofError::UnexpectedEnd);
    }
    let id = [
        read_word(input, pos),
        read_word(input, pos + 4),
        read_word(input, pos + 8),
        read_word(input, pos + 12),
        read_word(input, pos + 16),
        read_word(input, pos + 20),
        read_word(input, pos + 24),
        read_word(input, pos + 28),
    ];
    proof {
        let want = take_image(tail)->Ok_0.0;
        assert forall|k: int| 0 <= k < 8 implies id@[k] == want[k] by {
            assert(tail.subrange(4 * k, 4 * k + 4) =~= input@.subrange(pos + 4 * k, pos + 4 * k + 4));
        }
        assert(id@ =~= want);
        assert(input@.skip((pos + 32) as int) =~= tail.skip(32));
    }
    Ok((id, pos + 32))
}

impl Proof {
    /// Lays the proof out as bytes.
    pub fn save(&self) -> (out: Vec<u8>)
        ensures
            out@ == artifact_bytes(self@),
    {
        let mut out: Vec<u8> = Vec::new();
        write_string(&mut out, &self.version);
        write_word(&mut out, self.image_id[0]);
        write_word(&mut out, self.image_id[1]);
        write_word(&mut out, self.image_id[2]);
        write_word(&mut out, self.image_id[3]);
        write_word(&mut out, self.image_id[4]);
        write_word(&mut out, self.image_id[5]);
        write_word(&mut out, self.image_id[6]);
        write_word(&mut out, self.image_id[7]);
        write_string(&mut out, &self.chain);
        append_bytes(&mut out, self.receipt.as_slice());
        assert(out@ =~= artifact_bytes(self@));
        out
    }

    /// Reads a proof back from its bytes. Fails where the bytes end inside
    /// a field or a string is not UTF-8; whatever follows the chain name is
    /// the attestation.
    pub fn load(input: &[u8]) -> (r: Result<Proof, ProofError>)
        ensures
            match parse_artifact(input@) {
                Ok(v) => r is Ok && r->Ok_0@ == v,
                Err(e) => r is Err && r->Err_0 == e,
            },
    {
        assert(input@.skip(0) =~= input@);
        let (version, after_version) = match read_string(input, 0) {
            Ok(found) => found,
            Err(e) => { return Err(e); },
        };
        let (image_id, after_image) = match read_image(input, after_version) {
            Ok(found) => found,
            Err(e) => { return Err(e); },
        };
        let (chain, after_chain) = match read_string(input, after_image) {
            Ok(found) => found,
            Err(e) => { return Err(e); },
        };
        let tail = slice_subrange(input, after_chain, input.len());
        assert(tail@ =~= input@.skip(after_chain as int));
        let receipt = slice_to_vec(tail);
        Ok(Proof { version, image_id, chain, receipt })
    }
}

/// A framed string, whatever follows it, is read back as that string, with
/// what follows left over.
pub proof fn lemma_take_string_frame(s: Seq<char>, rest: Seq<u8>)
    requires
        encode_utf8(s).len() <= u64::MAX,
    ensures
        take_string(string_frame(s) + rest) == Ok::<(Seq<char>, Seq<u8>), ProofError>((s, rest)),
{
    let body = encode_utf8(s);
    let n = body.len() as u64;
    let b = string_frame(s) + rest;
    lemma_auto_spec_u64_to_from_le_bytes();
    assert(spec_u64_to_le_bytes(n).len() == 8);
    assert(b.subrange(0, 8) =~= spec_u64_to_le_bytes(n));
    assert(spec_u64_from_le_bytes(spec_u64_to_le_bytes(n)) == n);
    assert(b.subrange(8, 8 + n) =~= body);
    assert(b.skip(8 + n) =~= rest);
    encode_utf8_valid_utf8(s);
    encode_utf8_decode_utf8(s);
}

/// The bytes of an image identity, whatever follows them, are read back as
/// its eight words, with what follows left over.
pub proof fn lemma_take_image_bytes(id: Seq<u32>, rest: Seq<u8>)
    requires
        id.len() == 8,
    ensures
        take_image(image_bytes(id) + rest) == Ok::<(Seq<u32>, Seq<u8>), ProofError>((id, rest)),
{
    let b = image_bytes(id) + rest;
    lemma_auto_spec_u32_to_from_le_bytes();
    assert(image_bytes(id).len() == 32);
    let got = take_image(b)->Ok_0.0;
    assert forall|k: int| 0 <= k < 8 implies got[k] == id[k] by {
        assert(spec_u32_to_le_bytes(id[k]).len() == 4);
        assert(b.subrange(4 * k, 4 * k + 4) =~= spec_u32_to_le_bytes(id[k]));
    }
    assert(got =~= id);
    assert(b.skip(32) =~= rest);
}

/// Saving a proof and loading the bytes again gives back every field.
pub proof fn lemma_save_load_roundtrip(p: ProofView)
    requires
        p.image_id.len() == 8,
        encode_utf8(p.version).len() <= u64::MAX,
        encode_utf8(p.chain).len() <= u64::MAX,
    ensures
        parse_artifact(artifact_bytes(p)) == Ok::<ProofView, ProofError>(p),
{
    let after_image = string_frame(p.chain) + p.receipt;
    let after_version = image_bytes(p.image_id) + after_image;
    assert(artifact_bytes(p) =~= string_frame(p.version) + after_version);
    lemma_take_string_frame(p.version, after_version);
    lemma_take_image_bytes(p.image_id, after_image);
    lemma_take_string_frame(p.chain, p.receipt);
}

} // verus!
