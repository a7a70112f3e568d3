//! The PBP (Pre-Boot Program) image format and its packaging algorithm.
//!
//! A packaged image is `"PBP " ++ checksum ++ body`, where `body` is the
//! raw firmware zero-padded to a 4-byte multiple and `checksum` is the one
//! little-endian word that makes the sum of all little-endian words of the
//! image, modulo 2^32, equal `PBP_TARGET`.

use vstd::prelude::*;
use vstd::arithmetic::div_mod::{
    lemma_fundamental_div_mod, lemma_mod_multiples_vanish, lemma_small_mod,
};

verus! {

/// ASCII `"PBP "` read as one little-endian 32-bit word.
pub const PBP_MAGIC: u32 = 0x2050_4250;

/// The word sum of a packaged image, modulo 2^32, must equal this constant.
pub const PBP_TARGET: u32 = 0xffff_ffff;

/// The modulus of the checksum arithmetic: one more than the largest u32.
pub const WORD_MODULUS: u64 = 0x1_0000_0000;

/// The fixed 8-byte record linked at the front of the firmware binary.
/// `checksum` is 0 in the unpacked artifact; the packaging algorithm
/// computes the real value.
#[derive(Clone, Copy, Debug, PartialEq, Eq, Hash, Structural)]
pub struct PbpHeader {
    /// Format tag, always `PBP_MAGIC`.
    pub magic: u32,
    /// Whole-image checksum, little-endian in the image.
    pub checksum: u32,
}

/// The four little-endian bytes of a 32-bit word.
pub open spec fn le_bytes32(w: u32) -> Seq<u8> {
    seq![
        (w % 0x100) as u8,
        ((w / 0x100) % 0x100) as u8,
        ((w / 0x1_0000) % 0x100) as u8,
        ((w / 0x100_0000) % 0x100) as u8,
    ]
}

/// Word `k` of `b`, read as a little-endian 32-bit value.
pub open spec fn le_word(b: Seq<u8>, k: int) -> int {
    b[4 * k] + 0x100 * b[4 * k + 1] + 0x1_0000 * b[4 * k + 2] + 0x100_0000 * b[4 * k + 3]
}

/// Sum of the first `k` little-endian words of `b`, as an unbounded integer.
pub open spec fn word_sum_to(b: Seq<u8>, k: int) -> int
    decreases k,
{
    if k <= 0 {
        0
    } else {
        word_sum_to(b, k - 1) + le_word(b, k - 1)
    }
}

/// Sum of all whole little-endian words of `b`.
pub open spec fn word_sum(b: Seq<u8>) -> int {
    word_sum_to(b, b.len() as int / 4)
}

/// How many zero bytes bring a length `n` up to a multiple of 4.
pub open spec fn pad_len(n: int) -> int {
    (4 - n % 4) % 4
}

/// `b` zero-padded to a 4-byte multiple.
pub open spec fn padded(b: Seq<u8>) -> Seq<u8> {
    b + Seq::new(pad_len(b.len() as int) as nat, |i: int| 0u8)
}

/// The checksum the packaging algorithm stores: the unique value that makes
/// the whole-image word sum equal `PBP_TARGET` modulo 2^32. Because the
/// placeholder field is zero, the placeholder sum is the magic word plus the
/// body's word sum.
pub open spec fn image_checksum(b: Seq<u8>) -> int {
    PBP_TARGET - (PBP_MAGIC + word_sum(padded(b))) % (WORD_MODULUS as int)
}

/// The packaged image of a raw firmware body `b`.
pub open spec fn pbp_image(b: Seq<u8>) -> Seq<u8> {
    le_bytes32(PBP_MAGIC) + le_bytes32(image_checksum(b) as u32) + padded(b)
}

impl PbpHeader {
    /// The header as linked into an unpacked binary: magic plus a zero
    /// checksum placeholder.
    pub fn placeholder() -> (h: Self)
        ensures
            h.magic == PBP_MAGIC,
            h.checksum == 0,
    {
        PbpHeader { magic: PBP_MAGIC, checksum: 0 }
    }

    /// The 8 bytes of the header as they appear at the front of an image.
    pub fn encode(&self) -> (r: Vec<u8>)
        ensures
            r@ == le_bytes32(self.magic) + le_bytes32(self.checksum),
    {
        let mut r: Vec<u8> = Vec::new();
        push_le_word(&mut r, self.magic);
        push_le_word(&mut r, self.checksum);
        assert(r@ =~= le_bytes32(self.magic) + le_bytes32(self.checksum));
        r
    }
}

/// Append the four little-endian bytes of `w` to `out`.
fn push_le_word(out: &mut Vec<u8>, w: u32)
    ensures
        final(out)@ == old(out)@ + le_bytes32(w),
{
    out.push((w % 0x100) as u8);
    out.push(((w / 0x100) % 0x100) as u8);
    out.push(((w / 0x1_0000) % 0x100) as u8);
    out.push(((w / 0x100_0000) % 0x100) as u8);
    assert(out@ =~= old(out)@ + le_bytes32(w));
}

/// Word `k` of `buf`, read as a little-endian u32.
fn le_word_at(buf: &Vec<u8>, k: usize) -> (w: u32)
    requires
        4 * k + 4 <= buf@.len(),
    ensures
        w == le_word(buf@, k as int),
{
    // The vector's length bounds 4 * k + 4, so the index arithmetic fits
    // in usize.
    let n: usize = buf.len();
    let i = 4 * k;
    assert(i + 4 <= n);
    let b0 = buf[i] as u32;
    let b1 = buf[i + 1] as u32;
    let b2 = buf[i + 2] as u32;
    let b3 = buf[i + 3] as u32;
    b0 + 0x100 * b1 + 0x1_0000 * b2 + 0x100_0000 * b3
}

/// True exactly when `buf` is a whole number of words whose little-endian
/// word sum, modulo 2^32, is `target`. This is the check the boot ROM runs
/// over a packaged image, with `target == PBP_TARGET`.
pub fn verify_checksum(buf: &Vec<u8>, target: u32) -> (r: bool)
    ensures
        r == (buf@.len() % 4 == 0 && word_sum(buf@) % (WORD_MODULUS as int) == target),
{
    if buf.len() % 4 != 0 {
        return false;
    }
    let n_words = buf.len() / 4;
    let mut sum: u64 = 0;
    let mut k: usize = 0;
    proof {
        lemma_small_mod(0nat, WORD_MODULUS as nat);
    }
    while k < n_words
        invariant
            n_words == buf@.len() / 4,
            buf@.len() % 4 == 0,
            k <= n_words,
            sum < WORD_MODULUS,
            sum == word_sum_to(buf@, k as int) % (WORD_MODULUS as int),
        decreases n_words - k,
    {
        let w = le_word_at(buf, k);
        proof {
            lemma_mod_add_word(word_sum_to(buf@, k as int), w as int);
        }
        sum = (sum + w as u64) % WORD_MODULUS;
        k = k + 1;
    }
    proof {
        lemma_small_mod(target as nat, WORD_MODULUS as nat);
    }
    (sum as u32) == target
}

/// Keeping a running sum reduced modulo 2^32 commutes with adding one more
/// word.
proof fn lemma_mod_add_word(s: int, w: int)
    requires
        0 <= w < WORD_MODULUS,
    ensures
        (s % (WORD_MODULUS as int) + w) % (WORD_MODULUS as int) == (s + w) % (WORD_MODULUS as int),
{
    let m = WORD_MODULUS as int;
    lemma_fundamental_div_mod(s, m);
    lemma_mod_multiples_vanish(s / m, s % m + w, m);
}

/// Package a raw firmware body into a PBP image: pad to a word multiple,
/// solve for the checksum, and lay out magic, checksum, and body.
pub fn build_pbp(bin: &Vec<u8>) -> (out: Vec<u8>)
    ensures
        out@ == pbp_image(bin@),
{
    // Zero-pad the body to a 4-byte multiple.
    let mut body: Vec<u8> = Vec::new();
    let mut i: usize = 0;
    while i < bin.len()
        invariant
            i <= bin@.len(),
            body@ == bin@.take(i as int),
        decreases bin@.len() - i,
    {
        body.push(bin[i]);
        i = i + 1;
    }
    assert(body@ =~= bin@);
    while body.len() % 4 != 0
        invariant
            bin@.len() <= body@.len() <= bin@.len() + pad_len(bin@.len() as int),
            body@ == bin@ + Seq::new((body@.len() - bin@.len()) as nat, |j: int| 0u8),
        decreases bin@.len() + 4 - body@.len(),
    {
        proof {
            let n = bin@.len() as int;
            let l = body@.len() as int;
            assert((n + pad_len(n)) % 4 == 0);
            assert(l < n + pad_len(n));
        }
        body.push(0);
        proof {
            let n = bin@.len() as int;
            let l = body@.len() as int;
            assert(body@ =~= bin@ + Seq::new((l - n) as nat, |j: int| 0u8));
        }
    }
    proof {
        let n = bin@.len() as int;
        let l = body@.len() as int;
        assert((n + pad_len(n)) % 4 == 0);
        assert(l == n + pad_len(n));
        assert(body@ =~= padded(bin@));
    }

    // Word-sum of the placeholder image: the magic word, a zero checksum,
    // and the body, reduced modulo 2^32 as the loop goes.
    let mut sum: u64 = PBP_MAGIC as u64;
    proof {
        lemma_small_mod(PBP_MAGIC as nat, WORD_MODULUS as nat);
    }
    let n_words = body.len() / 4;
    let mut k: usize = 0;
    while k < n_words
        invariant
            n_words == body@.len() / 4,
            body@.len() % 4 == 0,
            k <= n_words,
            sum < WORD_MODULUS,
            sum == (PBP_MAGIC + word_sum_to(body@, k as int)) % (WORD_MODULUS as int),
        decreases n_words - k,
    {
        let w = le_word_at(&body, k);
        proof {
            lemma_mod_add_word(PBP_MAGIC + word_sum_to(body@, k as int), w as int);
        }
        sum = (sum + w as u64) % WORD_MODULUS;
        k = k + 1;
    }

    // Solve the fixed point: the placeholder sum plus the checksum must be
    // the target, modulo 2^32.
    let checksum: u32 = PBP_TARGET - (sum as u32);
    assert(checksum == image_checksum(bin@));

    // Lay out the image.
    let mut out: Vec<u8> = Vec::new();
    push_le_word(&mut out, PBP_MAGIC);
    push_le_word(&mut out, checksum);
    let mut j: usize = 0;
    while j < body.len()
        invariant
            j <= body@.len(),
            body@ == padded(bin@),
            checksum == image_checksum(bin@),
            out@ == le_bytes32(PBP_MAGIC) + le_bytes32(checksum) + body@.take(j as int),
        decreases body@.len() - j,
    {
        out.push(body[j]);
        j = j + 1;
        assert(out@ =~= le_bytes32(PBP_MAGIC) + le_bytes32(checksum) + body@.take(j as int));
    }
    assert(body@.take(body@.len() as int) =~= body@);
    assert(out@ =~= pbp_image(bin@));
    out
}

/// Prepending an 8-byte header adds exactly the header's two words to the
/// word sum of a body.
proof fn lemma_word_sum_to_prepend8(h: Seq<u8>, t: Seq<u8>, k: int)
    requires
        h.len() == 8,
        0 <= k,
        4 * k <= t.len(),
    ensures
        word_sum_to(h + t, k + 2) == le_word(h + t, 0) + le_word(h + t, 1) + word_sum_to(t, k),
    decreases k,
{
    if k <= 0 {
        assert(word_sum_to(h + t, 0) == 0);
        assert(word_sum_to(h + t, 1) == le_word(h + t, 0));
    } else {
        lemma_word_sum_to_prepend8(h, t, k - 1);
        assert(le_word(h + t, k + 1) == le_word(t, k - 1));
    }
}

/// An 8-byte header of two little-endian words reads back as those words.
proof fn lemma_header_words(w0: u32, w1: u32, t: Seq<u8>)
    ensures
        le_word(le_bytes32(w0) + le_bytes32(w1) + t, 0) == w0,
        le_word(le_bytes32(w0) + le_bytes32(w1) + t, 1) == w1,
{
    let img = le_bytes32(w0) + le_bytes32(w1) + t;
    assert(img[0] == (w0 % 0x100) as u8);
    assert(img[1] == ((w0 / 0x100) % 0x100) as u8);
    assert(img[2] == ((w0 / 0x1_0000) % 0x100) as u8);
    assert(img[3] == ((w0 / 0x100_0000) % 0x100) as u8);
    assert(img[4] == (w1 % 0x100) as u8);
    assert(img[5] == ((w1 / 0x100) % 0x100) as u8);
    assert(img[6] == ((w1 / 0x1_0000) % 0x100) as u8);
    assert(img[7] == ((w1 / 0x100_0000) % 0x100) as u8);
}

/// Law: the checksum fixed point. For every body `b`, the packaged image's
/// little-endian word sum, modulo 2^32, is exactly `PBP_TARGET`.
pub proof fn lemma_image_sum(b: Seq<u8>)
    ensures
        word_sum(pbp_image(b)) % (WORD_MODULUS as int) == PBP_TARGET,
{
    let m = WORD_MODULUS as int;
    let body = padded(b);
    let c = image_checksum(b);
    let hdr = le_bytes32(PBP_MAGIC) + le_bytes32(c as u32);
    let img = pbp_image(b);
    assert(img =~= hdr + body);
    assert(body.len() % 4 == 0);
    let nw = body.len() as int / 4;
    assert(4 * nw <= body.len());
    lemma_word_sum_to_prepend8(hdr, body, nw);
    assert(img.len() as int / 4 == nw + 2);
    assert(word_sum(img) == le_word(img, 0) + le_word(img, 1) + word_sum(body));
    lemma_header_words(PBP_MAGIC, c as u32, body);
    assert(0 <= c < WORD_MODULUS);
    assert(le_word(img, 1) == c);
    lemma_fundamental_div_mod(PBP_MAGIC + word_sum(body), m);
    let q = (PBP_MAGIC + word_sum(body)) / m;
    assert(word_sum(img) == m * q + PBP_TARGET);
    lemma_mod_multiples_vanish(q, PBP_TARGET as int, m);
    lemma_small_mod(PBP_TARGET as nat, WORD_MODULUS as nat);
}

/// Law: the checksum is the unique fixed point. Any checksum word that
/// makes an image over the body `b` sum to the target is the one the
/// packaging algorithm computes.
pub proof fn lemma_checksum_unique(b: Seq<u8>, c: u32)
    requires
        word_sum(le_bytes32(PBP_MAGIC) + le_bytes32(c) + padded(b)) % (WORD_MODULUS as int)
            == PBP_TARGET,
    ensures
        c == image_checksum(b),
{
    let m = WORD_MODULUS as int;
    let body = padded(b);
    let hdr = le_bytes32(PBP_MAGIC) + le_bytes32(c);
    let img = le_bytes32(PBP_MAGIC) + le_bytes32(c) + body;
    assert(img =~= hdr + body);
    assert(body.len() % 4 == 0);
    let nw = body.len() as int / 4;
    assert(4 * nw <= body.len());
    lemma_word_sum_to_prepend8(hdr, body, nw);
    assert(img.len() as int / 4 == nw + 2);
    lemma_header_words(PBP_MAGIC, c, body);
    assert(word_sum(img) == PBP_MAGIC + c + word_sum(body));
    let s = (PBP_MAGIC + word_sum(body)) % m;
    lemma_fundamental_div_mod(PBP_MAGIC + word_sum(body), m);
    let q = (PBP_MAGIC + word_sum(body)) / m;
    assert(word_sum(img) == m * q + (s + c));
    lemma_mod_multiples_vanish(q, s + c, m);
    assert((s + c) % m == PBP_TARGET);
    if s + c < m {
        lemma_small_mod((s + c) as nat, WORD_MODULUS as nat);
    } else {
        lemma_mod_multiples_vanish(1, s + c - m, m);
        lemma_small_mod((s + c - m) as nat, WORD_MODULUS as nat);
        // then s + c - m == PBP_TARGET == m - 1 forces s >= m, impossible
        assert(false);
    }
}

/// Law: image layout. The image is 8 header bytes plus the body rounded up
/// to a word multiple; the body's bytes are carried over unchanged and the
/// padding bytes are zero.
pub proof fn lemma_image_layout(b: Seq<u8>)
    ensures
        pbp_image(b).len() == 8 + b.len() + pad_len(b.len() as int),
        pbp_image(b).len() - 8 == 4 * ((b.len() + 3) as int / 4),
        (pbp_image(b).len() - 8) % 4 == 0,
        forall|i: int| 0 <= i < b.len() ==> pbp_image(b)[8 + i] == b[i],
        forall|i: int| 8 + b.len() <= i < pbp_image(b).len() ==> pbp_image(b)[i] == 0,
{
    assert forall|i: int| 0 <= i < b.len() implies pbp_image(b)[8 + i] == b[i] by {
        assert(pbp_image(b)[8 + i] == padded(b)[i]);
    }
    assert forall|i: int| 8 + b.len() <= i < pbp_image(b).len() implies pbp_image(b)[i] == 0 by {
        assert(pbp_image(b)[i] == padded(b)[i - 8]);
    }
}

/// Law: header stability. The first four bytes of every image are the ASCII
/// tag `"PBP "`, whatever the body.
pub proof fn lemma_image_magic(b: Seq<u8>)
    ensures
        pbp_image(b)[0] == 0x50,
        pbp_image(b)[1] == 0x42,
        pbp_image(b)[2] == 0x50,
        pbp_image(b)[3] == 0x20,
        le_word(pbp_image(b), 0) == PBP_MAGIC,
{
}

} // verus!
