//! Fingerprints of snapshots: a canonical byte encoding of the fields that
//! matter, digested to a `u64`.
//!
//! The encoding is injective (see `lemma_window_bytes_injective`), so two
//! snapshots that differ in a relevant field are told apart unless their
//! digests collide.

use vstd::prelude::*;
use vstd::utf8::*;
use crate::protocol::{WindowInfoData, MediaMetadataData, PlaybackStateData};

verus! {

/// Resolution of the elapsed-time quantization, in milliseconds.
pub const ELAPSED_RESOLUTION_MS: u64 = 1000;

/// Eight little-endian bytes of `x`.
pub open spec fn le_bytes(x: u64) -> Seq<u8> {
    seq![
        x as u8,
        (x >> 8u64) as u8,
        (x >> 16u64) as u8,
        (x >> 24u64) as u8,
        (x >> 32u64) as u8,
        (x >> 40u64) as u8,
        (x >> 48u64) as u8,
        (x >> 56u64) as u8,
    ]
}

/// A text field: its UTF-8 length as eight bytes, then its UTF-8 bytes.
pub open spec fn text_bytes(s: Seq<char>) -> Seq<u8> {
    le_bytes(encode_utf8(s).len() as u64) + encode_utf8(s)
}

/// An optional text field: a zero byte, or a one byte and the text.
pub open spec fn opt_text_bytes(o: Option<Seq<char>>) -> Seq<u8> {
    match o {
        None => seq![0u8],
        Some(s) => seq![1u8] + text_bytes(s),
    }
}

/// The view of an optional string.
pub open spec fn opt_view(o: Option<String>) -> Option<Seq<char>> {
    match o {
        None => None,
        Some(s) => Some(s@),
    }
}

/// A text whose UTF-8 length fits the eight-byte length prefix (every
/// string held in memory does).
pub open spec fn text_fits(s: Seq<char>) -> bool {
    encode_utf8(s).len() <= u64::MAX
}

pub open spec fn opt_text_fits(o: Option<Seq<char>>) -> bool {
    match o {
        None => true,
        Some(s) => text_fits(s),
    }
}

/// Canonical encoding of the relevant fields of a window message.
pub open spec fn window_bytes(d: WindowInfoData) -> Seq<u8> {
    text_bytes(d.title@) + (text_bytes(d.process_name@) + (opt_text_bytes(opt_view(d.icon_url))
        + (opt_text_bytes(opt_view(d.app_id)) + le_bytes(d.pid as u64))))
}

pub open spec fn window_fits(d: WindowInfoData) -> bool {
    &&& text_fits(d.title@)
    &&& text_fits(d.process_name@)
    &&& opt_text_fits(opt_view(d.icon_url))
    &&& opt_text_fits(opt_view(d.app_id))
}

/// The elapsed time as counted by the fingerprint: whole resolution steps.
pub open spec fn quantized_elapsed(elapsed_ms: u64) -> u64 {
    elapsed_ms / ELAPSED_RESOLUTION_MS
}

/// Canonical encoding of the metadata fields of a media message.
pub open spec fn metadata_bytes(m: MediaMetadataData) -> Seq<u8> {
    opt_text_bytes(opt_view(m.bundle_identifier)) + opt_text_bytes(opt_view(m.title))
        + opt_text_bytes(opt_view(m.artist)) + opt_text_bytes(opt_view(m.album)) + le_bytes(
        m.duration_ms,
    ) + opt_text_bytes(opt_view(m.artwork_url)) + opt_text_bytes(
        opt_view(m.content_item_identifier),
    )
}

/// Canonical encoding of a playback state; the elapsed time is quantized.
pub open spec fn state_bytes(s: PlaybackStateData) -> Seq<u8> {
    seq![if s.playing { 1u8 } else { 0u8 }] + le_bytes(s.playback_rate as u64) + le_bytes(
        quantized_elapsed(s.elapsed_ms),
    )
}

pub open spec fn media_bytes(m: MediaMetadataData, s: PlaybackStateData) -> Seq<u8> {
    metadata_bytes(m) + state_bytes(s)
}

/// What std's `DefaultHasher`, as made by `new`, yields after writing `bytes`.
pub uninterp spec fn sip_digest(bytes: Seq<u8>) -> u64;

/// Two encodings that differ have different digests.
pub open spec fn digests_apart(x: Seq<u8>, y: Seq<u8>) -> bool {
    x != y ==> sip_digest(x) != sip_digest(y)
}

pub open spec fn window_fingerprint(d: WindowInfoData) -> u64 {
    sip_digest(window_bytes(d))
}

pub open spec fn media_fingerprint(m: MediaMetadataData, s: PlaybackStateData) -> u64 {
    sip_digest(media_bytes(m, s))
}

/// Relies on `std::hash::DefaultHasher`: a hasher made by `new` has fixed
/// keys, so `write` followed by `finish` yields a value that depends on the
/// bytes alone.
#[verifier::external_body]
fn digest_bytes(bytes: &[u8]) -> (r: u64)
    ensures
        r == sip_digest(bytes@),
{
    let mut hasher = std::hash::DefaultHasher::new();
    std::hash::Hasher::write(&mut hasher, bytes);
    std::hash::Hasher::finish(&hasher)
}

/// Digest of a canonical encoding.
pub fn compute_hash(data: &Vec<u8>) -> (r: u64)
    ensures
        r == sip_digest(data@),
{
    digest_bytes(data.as_slice())
}

fn push_u64(out: &mut Vec<u8>, x: u64)
    ensures
        final(out)@ == old(out)@ + le_bytes(x),
{
    out.push(x as u8);
    out.push((x >> 8u64) as u8);
    out.push((x >> 16u64) as u8);
    out.push((x >> 24u64) as u8);
    out.push((x >> 32u64) as u8);
    out.push((x >> 40u64) as u8);
    out.push((x >> 48u64) as u8);
    out.push((x >> 56u64) as u8);
    assert(final(out)@ =~= old(out)@ + le_bytes(x));
}

fn push_text(out: &mut Vec<u8>, s: &str)
    ensures
        final(out)@ == old(out)@ + text_bytes(s@),
        text_fits(s@),
{
    let b = s.as_bytes();
    let n = b.len();
    push_u64(out, n as u64);
    let ghost mid = out@;
    let mut i: usize = 0;
    while i < n
        invariant
            n == b@.len(),
            b@ == encode_utf8(s@),
            mid == old(out)@ + le_bytes(n as u64),
            out@ == mid + b@.subrange(0, i as int),
            i <= n,
        decreases n - i,
    {
        out.push(b[i]);
        i = i + 1;
        assert(out@ =~= mid + b@.subrange(0, i as int));
    }
    assert(b@.subrange(0, n as int) =~= b@);
}

fn push_opt_text(out: &mut Vec<u8>, o: &Option<String>)
    ensures
        final(out)@ == old(out)@ + opt_text_bytes(opt_view(*o)),
        opt_text_fits(opt_view(*o)),
{
    match o {
        None => {
            out.push(0u8);
            assert(final(out)@ =~= old(out)@ + opt_text_bytes(opt_view(*o)));
        },
        Some(s) => {
            out.push(1u8);
            push_text(out, s.as_str());
            assert(final(out)@ =~= old(out)@ + opt_text_bytes(opt_view(*o)));
        },
    }
}

/// The canonical encoding of a window message.
pub fn encode_window(d: &WindowInfoData) -> (r: Vec<u8>)
    ensures
        r@ == window_bytes(*d),
        window_fits(*d),
{
    let mut out: Vec<u8> = Vec::new();
    push_text(&mut out, d.title.as_str());
    push_text(&mut out, d.process_name.as_str());
    push_opt_text(&mut out, &d.icon_url);
    push_opt_text(&mut out, &d.app_id);
    push_u64(&mut out, d.pid as u64);
    assert(out@ =~= window_bytes(*d));
    out
}

/// The canonical encoding of a media message.
pub fn encode_media(m: &MediaMetadataData, s: &PlaybackStateData) -> (r: Vec<u8>)
    ensures
        r@ == media_bytes(*m, *s),
{
    let mut out: Vec<u8> = Vec::new();
    push_opt_text(&mut out, &m.bundle_identifier);
    push_opt_text(&mut out, &m.title);
    push_opt_text(&mut out, &m.artist);
    push_opt_text(&mut out, &m.album);
    push_u64(&mut out, m.duration_ms);
    push_opt_text(&mut out, &m.artwork_url);
    push_opt_text(&mut out, &m.content_item_identifier);
    out.push(if s.playing { 1u8 } else { 0u8 });
    push_u64(&mut out, s.playback_rate as u64);
    push_u64(&mut out, s.elapsed_ms / ELAPSED_RESOLUTION_MS);
    assert(out@ =~= media_bytes(*m, *s));
    out
}

/// Fingerprint of a window message.
pub fn window_hash(d: &WindowInfoData) -> (r: u64)
    ensures
        r == window_fingerprint(*d),
        window_fits(*d),
{
    let bytes = encode_window(d);
    compute_hash(&bytes)
}

/// Fingerprint of a media message.
pub fn media_hash(m: &MediaMetadataData, s: &PlaybackStateData) -> (r: u64)
    ensures
        r == media_fingerprint(*m, *s),
{
    let bytes = encode_media(m, s);
    compute_hash(&bytes)
}

/// Eight little-endian bytes determine the integer.
pub proof fn lemma_le_bytes_injective(x: u64, y: u64)
    requires
        le_bytes(x) == le_bytes(y),
    ensures
        x == y,
{
    assert(le_bytes(x)[0] == le_bytes(y)[0]);
    assert(le_bytes(x)[1] == le_bytes(y)[1]);
    assert(le_bytes(x)[2] == le_bytes(y)[2]);
    assert(le_bytes(x)[3] == le_bytes(y)[3]);
    assert(le_bytes(x)[4] == le_bytes(y)[4]);
    assert(le_bytes(x)[5] == le_bytes(y)[5]);
    assert(le_bytes(x)[6] == le_bytes(y)[6]);
    assert(le_bytes(x)[7] == le_bytes(y)[7]);
    assert(x == y) by (bit_vector)
        requires
            x as u8 == y as u8,
            (x >> 8u64) as u8 == (y >> 8u64) as u8,
            (x >> 16u64) as u8 == (y >> 16u64) as u8,
            (x >> 24u64) as u8 == (y >> 24u64) as u8,
            (x >> 32u64) as u8 == (y >> 32u64) as u8,
            (x >> 40u64) as u8 == (y >> 40u64) as u8,
            (x >> 48u64) as u8 == (y >> 48u64) as u8,
            (x >> 56u64) as u8 == (y >> 56u64) as u8,
    ;
}

/// A text field followed by anything is decoded unambiguously.
pub proof fn lemma_text_prefix(a: Seq<char>, b: Seq<char>, ra: Seq<u8>, rb: Seq<u8>)
    requires
        text_fits(a),
        text_fits(b),
        text_bytes(a) + ra == text_bytes(b) + rb,
    ensures
        a == b,
        ra == rb,
{
    let ea = encode_utf8(a);
    let eb = encode_utf8(b);
    let na = ea.len() as int;
    let nb = eb.len() as int;
    let x = text_bytes(a) + ra;
    let y = text_bytes(b) + rb;
    assert(x.subrange(0, 8) =~= le_bytes(ea.len() as u64));
    assert(y.subrange(0, 8) =~= le_bytes(eb.len() as u64));
    lemma_le_bytes_injective(ea.len() as u64, eb.len() as u64);
    assert(ea.len() == eb.len());
    assert(x.subrange(8, 8 + na) =~= ea);
    assert(y.subrange(8, 8 + nb) =~= eb);
    encode_utf8_decode_utf8(a);
    encode_utf8_decode_utf8(b);
    assert(x.subrange(8 + na, x.len() as int) =~= ra);
    assert(y.subrange(8 + nb, y.len() as int) =~= rb);
}

/// An optional text field followed by anything is decoded unambiguously.
pub proof fn lemma_opt_text_prefix(
    a: Option<Seq<char>>,
    b: Option<Seq<char>>,
    ra: Seq<u8>,
    rb: Seq<u8>,
)
    requires
        opt_text_fits(a),
        opt_text_fits(b),
        opt_text_bytes(a) + ra == opt_text_bytes(b) + rb,
    ensures
        a == b,
        ra == rb,
{
    let x = opt_text_bytes(a) + ra;
    let y = opt_text_bytes(b) + rb;
    assert(x[0] == y[0]);
    match a {
        None => {
            assert(x.subrange(1, x.len() as int) =~= ra);
            match b {
                None => {
                    assert(y.subrange(1, y.len() as int) =~= rb);
                },
                Some(sb) => {
                    assert(y[0] == 1u8);
                },
            }
        },
        Some(sa) => {
            match b {
                None => {
                    assert(y[0] == 0u8);
                },
                Some(sb) => {
                    assert(x.subrange(1, x.len() as int) =~= text_bytes(sa) + ra);
                    assert(y.subrange(1, y.len() as int) =~= text_bytes(sb) + rb);
                    lemma_text_prefix(sa, sb, ra, rb);
                },
            }
        },
    }
}

/// Window messages with equal encodings agree on every encoded field.
pub proof fn lemma_window_bytes_injective(a: WindowInfoData, b: WindowInfoData)
    requires
        window_fits(a),
        window_fits(b),
        window_bytes(a) == window_bytes(b),
    ensures
        a.title@ == b.title@,
        a.process_name@ == b.process_name@,
        opt_view(a.icon_url) == opt_view(b.icon_url),
        opt_view(a.app_id) == opt_view(b.app_id),
        a.pid == b.pid,
{
    let ra3 = opt_text_bytes(opt_view(a.app_id)) + le_bytes(a.pid as u64);
    let rb3 = opt_text_bytes(opt_view(b.app_id)) + le_bytes(b.pid as u64);
    let ra2 = opt_text_bytes(opt_view(a.icon_url)) + ra3;
    let rb2 = opt_text_bytes(opt_view(b.icon_url)) + rb3;
    let ra1 = text_bytes(a.process_name@) + ra2;
    let rb1 = text_bytes(b.process_name@) + rb2;
    lemma_text_prefix(a.title@, b.title@, ra1, rb1);
    lemma_text_prefix(a.process_name@, b.process_name@, ra2, rb2);
    lemma_opt_text_prefix(opt_view(a.icon_url), opt_view(b.icon_url), ra3, rb3);
    lemma_opt_text_prefix(
        opt_view(a.app_id),
        opt_view(b.app_id),
        le_bytes(a.pid as u64),
        le_bytes(b.pid as u64),
    );
    lemma_le_bytes_injective(a.pid as u64, b.pid as u64);
}

} // verus!
