//! Packaging of the compiled second-stage boot routine into the fixed-size
//! slot the boot ROM consumes: the raw bytes are padded (or cut) to 252
//! bytes and a 4-byte CRC-32/MPEG-2 digest of that padded payload is
//! appended, little-endian, giving an image of exactly 256 bytes.

use vstd::prelude::*;

verus! {

/// Size of the padded second-stage payload, before the checksum.
pub const BOOT_STAGE_PAYLOAD_BYTES: usize = 252;

/// Size of the finished image: the padded payload plus the 4-byte checksum.
pub const BOOT_STAGE_IMAGE_BYTES: usize = 256;

/// Digest that CRC-32/MPEG-2 assigns to a byte sequence. Only the outside
/// checksum routine computes it, so it is left without a definition; it is a
/// function of the bytes alone.
pub uninterp spec fn crc32_mpeg2(data: Seq<u8>) -> u32;

/// Relies on `crc::Crc::<u32>::checksum` with the `CRC_32_MPEG_2` algorithm:
/// a table-driven computation whose result depends on the input bytes alone.
#[verifier::external_body]
fn checksum_mpeg2(data: &Vec<u8>) -> (r: u32)
    ensures
        r == crc32_mpeg2(data@),
{
    let alg = crc::Crc::<u32>::new(&crc::CRC_32_MPEG_2);
    alg.checksum(data.as_slice())
}

/// The raw second-stage bytes cut or zero-padded to exactly the payload size.
pub open spec fn padded_stage(raw: Seq<u8>) -> Seq<u8> {
    if raw.len() >= BOOT_STAGE_PAYLOAD_BYTES {
        raw.take(BOOT_STAGE_PAYLOAD_BYTES as int)
    } else {
        raw + Seq::new((BOOT_STAGE_PAYLOAD_BYTES - raw.len()) as nat, |i: int| 0u8)
    }
}

/// The four bytes of `x`, least significant first.
pub open spec fn u32_le_bytes(x: u32) -> Seq<u8> {
    seq![
        (x % 256) as u8,
        ((x / 256) % 256) as u8,
        ((x / 65536) % 256) as u8,
        ((x / 16777216) % 256) as u8,
    ]
}

/// The finished flashable boot-stage image: padded payload plus its digest.
pub open spec fn boot_image_spec(raw: Seq<u8>) -> Seq<u8> {
    padded_stage(raw) + u32_le_bytes(crc32_mpeg2(padded_stage(raw)))
}

/// Packages the compiled second-stage bytes into the image the boot ROM
/// accepts: pads (or cuts) to 252 bytes, then appends the CRC-32/MPEG-2
/// digest of the padded payload in little-endian order.
pub fn boot_image(raw: &Vec<u8>) -> (img: Vec<u8>)
    ensures
        img@ == boot_image_spec(raw@),
        img@.len() == BOOT_STAGE_IMAGE_BYTES,
{
    let mut payload: Vec<u8> = Vec::new();
    let mut i: usize = 0;
    while i < BOOT_STAGE_PAYLOAD_BYTES && i < raw.len()
        invariant
            i <= BOOT_STAGE_PAYLOAD_BYTES,
            i <= raw.len(),
            payload@ == raw@.take(i as int),
        decreases BOOT_STAGE_PAYLOAD_BYTES - i,
    {
        payload.push(raw[i]);
        i = i + 1;
        proof {
            assert(raw@.take(i as int) =~= raw@.take(i - 1).push(raw@[i - 1]));
        }
    }
    proof {
        if raw@.len() >= BOOT_STAGE_PAYLOAD_BYTES {
            assert(payload@ == raw@.take(BOOT_STAGE_PAYLOAD_BYTES as int));
        } else {
            assert(payload@ =~= raw@);
        }
    }
    while payload.len() < BOOT_STAGE_PAYLOAD_BYTES
        invariant
            payload@.len() <= BOOT_STAGE_PAYLOAD_BYTES,
            raw@.len() >= BOOT_STAGE_PAYLOAD_BYTES ==> payload@ == padded_stage(raw@),
            raw@.len() < BOOT_STAGE_PAYLOAD_BYTES ==> raw@.len() <= payload@.len()
                && payload@ == raw@
                    + Seq::new((payload@.len() - raw@.len()) as nat, |j: int| 0u8),
        decreases BOOT_STAGE_PAYLOAD_BYTES - payload.len(),
    {
        payload.push(0u8);
        proof {
            assert(payload@ =~= raw@
                + Seq::new((payload@.len() - raw@.len()) as nat, |j: int| 0u8));
        }
    }
    proof {
        assert(payload@ == padded_stage(raw@));
    }
    let digest = checksum_mpeg2(&payload);
    let mut img = payload;
    img.push((digest % 256) as u8);
    img.push(((digest / 256) % 256) as u8);
    img.push(((digest / 65536) % 256) as u8);
    img.push(((digest / 16777216) % 256) as u8);
    proof {
        assert(img@ =~= boot_image_spec(raw@));
    }
    img
}

/// Law: the finished boot-stage image is always exactly 256 bytes, its first
/// 252 bytes are the padded payload, and recomputing the digest over those
/// first 252 bytes always reproduces the trailing 4 bytes.
pub proof fn lemma_boot_image_checksum(raw: Seq<u8>)
    ensures
        boot_image_spec(raw).len() == BOOT_STAGE_IMAGE_BYTES,
        boot_image_spec(raw).subrange(0, BOOT_STAGE_PAYLOAD_BYTES as int) == padded_stage(raw),
        boot_image_spec(raw).subrange(
            BOOT_STAGE_PAYLOAD_BYTES as int,
            BOOT_STAGE_IMAGE_BYTES as int,
        ) == u32_le_bytes(crc32_mpeg2(
            boot_image_spec(raw).subrange(0, BOOT_STAGE_PAYLOAD_BYTES as int),
        )),
{
    assert(padded_stage(raw).len() == BOOT_STAGE_PAYLOAD_BYTES);
    assert(boot_image_spec(raw).subrange(0, BOOT_STAGE_PAYLOAD_BYTES as int)
        =~= padded_stage(raw));
    assert(boot_image_spec(raw).subrange(
        BOOT_STAGE_PAYLOAD_BYTES as int,
        BOOT_STAGE_IMAGE_BYTES as int,
    ) =~= u32_le_bytes(crc32_mpeg2(padded_stage(raw))));
}

} // verus!
