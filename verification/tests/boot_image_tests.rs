use morser::boot_image::boot_image;

/// Bitwise reference computation of CRC-32/MPEG-2: polynomial 0x04C11DB7,
/// initial value all ones, no reflection, no final xor.
fn crc32_mpeg2_ref(data: &[u8]) -> u32 {
    let mut crc: u32 = 0xFFFF_FFFF;
    for &byte in data {
        crc ^= (byte as u32) << 24;
        for _ in 0..8 {
            if crc & 0x8000_0000 != 0 {
                crc = (crc << 1) ^ 0x04C1_1DB7;
            } else {
                crc <<= 1;
            }
        }
    }
    crc
}

#[test]
fn reference_crc_matches_known_answer() {
    assert_eq!(crc32_mpeg2_ref(b"123456789"), 0x0376_E6E7);
}

#[test]
fn boot_image_is_always_256_bytes() {
    for n in [0usize, 1, 10, 251, 252, 253, 300] {
        let raw = vec![0x5Au8; n];
        let img = boot_image(&raw);
        assert_eq!(img.len(), 256);
    }
}

#[test]
fn boot_image_pads_short_payload_with_zeros() {
    let raw = vec![1u8, 2, 3];
    let img = boot_image(&raw);
    assert_eq!(&img[0..3], &[1, 2, 3]);
    assert!(img[3..252].iter().all(|&b| b == 0));
}

#[test]
fn boot_image_cuts_long_payload() {
    let raw = vec![7u8; 300];
    let img = boot_image(&raw);
    assert!(img[0..252].iter().all(|&b| b == 7));
}

#[test]
fn boot_image_trailer_is_crc_of_first_252_bytes() {
    for n in [0usize, 5, 100, 252, 400] {
        let raw: Vec<u8> = (0..n).map(|i| (i * 37 % 256) as u8).collect();
        let img = boot_image(&raw);
        let crc = crc32_mpeg2_ref(&img[0..252]);
        assert_eq!(&img[252..256], &crc.to_le_bytes());
    }
}

#[test]
fn boot_image_checksum_depends_on_payload() {
    let a = boot_image(&vec![0u8; 10]);
    let b = boot_image(&vec![1u8; 10]);
    assert_ne!(&a[252..256], &b[252..256]);
}
