use artinchip_boot::pbp::{build_pbp, verify_checksum, PbpHeader, PBP_MAGIC, PBP_TARGET};

#[test]
fn empty_image_layout() {
    // An empty body packages to the header alone: the magic tag and the
    // checksum that cancels it against the target.
    let out = build_pbp(&Vec::new());
    assert_eq!(out, vec![0x50, 0x42, 0x50, 0x20, 0xaf, 0xbd, 0xaf, 0xdf]);
    // 0x20504250 + 0xdfafbdaf == 0xffffffff
    assert!(verify_checksum(&out, PBP_TARGET));
}

#[test]
fn unaligned_input_is_padded() {
    let out = build_pbp(&vec![0x01, 0x02, 0x03]);
    assert_eq!(out.len(), 12);
    assert_eq!(&out[8..], &[0x01, 0x02, 0x03, 0x00]);
    // body word 0x00030201; checksum = 0xffffffff - 0x20534451
    assert_eq!(&out[4..8], &[0xae, 0xbb, 0xac, 0xdf]);
    assert!(verify_checksum(&out, PBP_TARGET));
}

#[test]
fn checksum_fixed_point_all_small_lengths() {
    for len in 0..9usize {
        let body: Vec<u8> = (0..len).map(|i| (i as u8).wrapping_mul(37).wrapping_add(11)).collect();
        let out = build_pbp(&body);
        assert_eq!(out.len(), 8 + len.div_ceil(4) * 4);
        assert!(verify_checksum(&out, PBP_TARGET), "length {len}");
    }
}

#[test]
fn header_magic_stable() {
    for body in [vec![], vec![0xff], vec![0xde, 0xad, 0xbe, 0xef], vec![0u8; 1021]] {
        let out = build_pbp(&body);
        assert_eq!(&out[0..4], b"PBP ");
    }
}

#[test]
fn packaging_is_deterministic() {
    let body = vec![0x10, 0x32, 0x54, 0x76, 0x98, 0xba];
    let first = build_pbp(&body);
    let second = build_pbp(&body);
    assert_eq!(first, second);
    // Re-running the analysis over an already-packaged image reproduces the
    // target exactly.
    assert!(verify_checksum(&first, PBP_TARGET));
}

#[test]
fn verify_checksum_rejects_unaligned_and_wrong_sum() {
    assert!(!verify_checksum(&vec![0x00, 0x00, 0x00], PBP_TARGET));
    assert!(!verify_checksum(&vec![0x00, 0x00, 0x00, 0x00], PBP_TARGET));
    let mut out = build_pbp(&vec![0x01, 0x02, 0x03, 0x04]);
    out[8] ^= 0x01;
    assert!(!verify_checksum(&out, PBP_TARGET));
}

#[test]
fn header_placeholder_and_encoding() {
    let h = PbpHeader::placeholder();
    assert_eq!(h.magic, PBP_MAGIC);
    assert_eq!(h.checksum, 0);
    assert_eq!(h.encode(), vec![0x50, 0x42, 0x50, 0x20, 0x00, 0x00, 0x00, 0x00]);
    let h2 = PbpHeader { magic: PBP_MAGIC, checksum: 0 };
    assert_eq!(h, h2);
}
