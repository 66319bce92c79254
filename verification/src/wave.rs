use vstd::prelude::*;

use crate::config::{AudioFormat, Headers};

verus! {

/// The two bytes of `n` (taken modulo 2^16), least significant first.
pub open spec fn le16(n: nat) -> Seq<u8> {
    seq![(n % 256) as u8, ((n / 256) % 256) as u8]
}

/// The four bytes of `n` (taken modulo 2^32), least significant first.
pub open spec fn le32(n: nat) -> Seq<u8> {
    seq![
        (n % 256) as u8,
        ((n / 0x100) % 256) as u8,
        ((n / 0x1_0000) % 256) as u8,
        ((n / 0x100_0000) % 256) as u8,
    ]
}

/// The bytes of one frame: one sample of every channel (modulo 2^16, as the header holds it).
pub open spec fn block_align(h: Headers) -> nat {
    ((h.channels * h.bits_per_sample / 8) % 0x1_0000) as nat
}

/// The bytes of one second of audio (modulo 2^32, as the header holds it).
pub open spec fn byte_rate(h: Headers) -> nat {
    ((h.sample_rate * h.channels * h.bits_per_sample / 8) % 0x1_0000_0000) as nat
}

/// The canonical 44-byte RIFF/WAVE header of a stream of unknown length with the sample
/// shape `h`: both chunk sizes are 0.
pub open spec fn wave_header(h: Headers) -> Seq<u8> {
    seq![0x52u8, 0x49, 0x46, 0x46]  // "RIFF"
     + le32(0) + seq![0x57u8, 0x41, 0x56, 0x45]  // "WAVE"
     + seq![0x66u8, 0x6d, 0x74, 0x20]  // "fmt "
     + le32(16) + le16(h.format.wave_tag() as nat) + le16(h.channels as nat) + le32(
        h.sample_rate as nat,
    ) + le32(byte_rate(h)) + le16(block_align(h)) + le16(h.bits_per_sample as nat) + seq![
        0x64u8,
        0x61,
        0x74,
        0x61,
    ]  // "data"
     + le32(0)
}

fn push_le16(out: &mut Vec<u8>, n: u16)
    ensures
        final(out)@ == old(out)@ + le16(n as nat),
{
    out.push((n % 256) as u8);
    out.push(((n / 256) % 256) as u8);
    assert(final(out)@ =~= old(out)@ + le16(n as nat));
}

fn push_le32(out: &mut Vec<u8>, n: u32)
    ensures
        final(out)@ == old(out)@ + le32(n as nat),
{
    out.push((n % 256) as u8);
    out.push(((n / 0x100) % 256) as u8);
    out.push(((n / 0x1_0000) % 256) as u8);
    out.push(((n / 0x100_0000) % 256) as u8);
    assert(final(out)@ =~= old(out)@ + le32(n as nat));
}

impl Headers {
    /// The RIFF/WAVE header that announces audio of this shape.
    pub fn to_wave_header(&self) -> (r: Vec<u8>)
        ensures
            r@ == wave_header(*self),
    {
        let channels: u64 = self.channels as u64;
        let bits: u64 = self.bits_per_sample as u64;
        let rate: u64 = self.sample_rate as u64;
        assert(channels * bits <= 0xffff * 0xffff) by (nonlinear_arith)
            requires
                channels <= 0xffff,
                bits <= 0xffff,
        ;
        let frame: u64 = channels * bits;
        assert(rate * frame <= 0xffff_ffff * (0xffff * 0xffff)) by (nonlinear_arith)
            requires
                rate <= 0xffff_ffff,
                frame <= 0xffff * 0xffff,
        ;
        let align: u16 = ((frame / 8) % 0x1_0000) as u16;
        let per_second: u32 = ((rate * frame / 8) % 0x1_0000_0000) as u32;
        assert(align == block_align(*self));
        assert(rate * frame == self.sample_rate * self.channels * self.bits_per_sample) by (nonlinear_arith)
            requires
                rate == self.sample_rate,
                frame == channels * bits,
                channels == self.channels,
                bits == self.bits_per_sample,
        ;
        assert(per_second == byte_rate(*self));
        let mut out: Vec<u8> = Vec::new();
        out.push(0x52);
        out.push(0x49);
        out.push(0x46);
        out.push(0x46);
        push_le32(&mut out, 0);
        out.push(0x57);
        out.push(0x41);
        out.push(0x56);
        out.push(0x45);
        out.push(0x66);
        out.push(0x6d);
        out.push(0x74);
        out.push(0x20);
        push_le32(&mut out, 16);
        push_le16(&mut out, self.format.to_wave_tag());
        push_le16(&mut out, self.channels);
        push_le32(&mut out, self.sample_rate);
        push_le32(&mut out, per_second);
        push_le16(&mut out, align);
        push_le16(&mut out, self.bits_per_sample);
        out.push(0x64);
        out.push(0x61);
        out.push(0x74);
        out.push(0x61);
        push_le32(&mut out, 0);
        assert(out@ =~= wave_header(*self));
        out
    }
}

/// Every header is 44 bytes: `RIFF` at 0, `WAVE` at 8, `fmt ` at 12, `data` at 36, and the
/// sample rate, little-endian, at 24.
pub proof fn lemma_wave_header_layout(h: Headers)
    ensures
        wave_header(h).len() == 44,
        wave_header(h).subrange(0, 4) == seq![0x52u8, 0x49, 0x46, 0x46],
        wave_header(h).subrange(8, 12) == seq![0x57u8, 0x41, 0x56, 0x45],
        wave_header(h).subrange(12, 16) == seq![0x66u8, 0x6d, 0x74, 0x20],
        wave_header(h).subrange(24, 28) == le32(h.sample_rate as nat),
        wave_header(h).subrange(36, 40) == seq![0x64u8, 0x61, 0x74, 0x61],
{
    let w = wave_header(h);
    assert(w.subrange(0, 4) =~= seq![0x52u8, 0x49, 0x46, 0x46]);
    assert(w.subrange(8, 12) =~= seq![0x57u8, 0x41, 0x56, 0x45]);
    assert(w.subrange(12, 16) =~= seq![0x66u8, 0x6d, 0x74, 0x20]);
    assert(w.subrange(24, 28) =~= le32(h.sample_rate as nat));
    assert(w.subrange(36, 40) =~= seq![0x64u8, 0x61, 0x74, 0x61]);
}

/// The fields of the header, byte by byte, each little-endian: both chunk sizes are 0, the
/// `fmt ` chunk is 16 bytes long, the format tag of PCM is 1, then come the channel count,
/// the sample rate, the bytes per second (rate times channels times bits over 8), the bytes per
/// frame (channels times bits over 8) and the bits per sample.
pub proof fn lemma_wave_header_fields(h: Headers)
    ensures
        ({
            let w = wave_header(h);
            let rate = h.sample_rate as int;
            let per_second = (h.sample_rate * h.channels * h.bits_per_sample / 8) % 0x1_0000_0000;
            let per_frame = (h.channels * h.bits_per_sample / 8) % 0x1_0000;
            &&& w.len() == 44
            &&& w[4] == 0 && w[5] == 0 && w[6] == 0 && w[7] == 0
            &&& w[16] == 16 && w[17] == 0 && w[18] == 0 && w[19] == 0
            &&& h.format == AudioFormat::PCM ==> w[20] == 1 && w[21] == 0
            &&& w[22] == h.channels % 256 && w[23] == h.channels / 256
            &&& w[24] == rate % 256 && w[25] == (rate / 0x100) % 256
            &&& w[26] == (rate / 0x1_0000) % 256 && w[27] == rate / 0x100_0000
            &&& w[28] == per_second % 256 && w[29] == (per_second / 0x100) % 256
            &&& w[30] == (per_second / 0x1_0000) % 256 && w[31] == per_second / 0x100_0000
            &&& w[32] == per_frame % 256 && w[33] == per_frame / 256
            &&& w[34] == h.bits_per_sample % 256 && w[35] == h.bits_per_sample / 256
            &&& w[40] == 0 && w[41] == 0 && w[42] == 0 && w[43] == 0
        }),
{
}

} // verus!
