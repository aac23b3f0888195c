use farmhash64::bands::{hash_len_0_to_16, hash_len_17_to_32, hash_len_33_to_64};
use farmhash64::blocks::weak_hash_len_32_with_seeds;
use farmhash64::farmhash64;
use farmhash64::mix::K2;

fn sentence(n: usize) -> Vec<u8> {
    b"The quick brown fox jumps over the lazy dog. "
        .iter()
        .cycle()
        .take(n)
        .copied()
        .collect()
}

#[test]
fn sixteen_bytes_belong_to_the_first_band() {
    let s = sentence(16);
    assert_eq!(farmhash64(&s), 0x3bf6bd3bebd31655);
    assert_eq!(farmhash64(&s), hash_len_0_to_16(&s));
    assert_eq!(hash_len_17_to_32(&s), 0x02105f25d3016c30);
    assert_ne!(farmhash64(&s), hash_len_17_to_32(&s));
}

#[test]
fn seventeen_bytes_belong_to_the_second_band() {
    let s = sentence(17);
    assert_eq!(farmhash64(&s), 0xc7a32da958c02dbd);
    assert_eq!(farmhash64(&s), hash_len_17_to_32(&s));
    assert_eq!(hash_len_0_to_16(&s), 0x4bade9b73d05342b);
    assert_ne!(farmhash64(&s), hash_len_0_to_16(&s));
}

#[test]
fn thirty_two_bytes_belong_to_the_second_band() {
    let s = sentence(32);
    assert_eq!(farmhash64(&s), 0xb65964dee7761262);
    assert_eq!(farmhash64(&s), hash_len_17_to_32(&s));
    assert_eq!(hash_len_33_to_64(&s), 0xbc39151618e577fe);
    assert_ne!(farmhash64(&s), hash_len_33_to_64(&s));
}

#[test]
fn thirty_three_bytes_belong_to_the_third_band() {
    let s = sentence(33);
    assert_eq!(farmhash64(&s), 0xf25fea09db06b3d6);
    assert_eq!(farmhash64(&s), hash_len_33_to_64(&s));
    assert_eq!(hash_len_17_to_32(&s), 0x823a3f52365a4d2b);
    assert_ne!(farmhash64(&s), hash_len_17_to_32(&s));
}

#[test]
fn sixty_four_bytes_belong_to_the_third_band() {
    let s = sentence(64);
    assert_eq!(farmhash64(&s), 0x8cc2288614b078a0);
    assert_eq!(farmhash64(&s), hash_len_33_to_64(&s));
}

#[test]
fn sixty_five_bytes_belong_to_the_last_band() {
    let s = sentence(65);
    assert_eq!(farmhash64(&s), 0x739d9bc2566b1cbc);
    assert_eq!(hash_len_33_to_64(&s), 0x5873f939baffae50);
    assert_ne!(farmhash64(&s), hash_len_33_to_64(&s));
}

#[test]
fn the_first_band_by_length() {
    assert_eq!(hash_len_0_to_16(b""), K2);
    let table: [(usize, u64); 10] = [
        (1, 0x12f77cd62637857a),
        (2, 0x5e667204f36de5f3),
        (3, 0x85887769ddcc73fd),
        (4, 0xf4ed8b2e41e836a5),
        (5, 0x7a321dbb03965387),
        (7, 0xfb3b4353192e2b87),
        (8, 0x46d0ffb3ee9d8c07),
        (12, 0xdeb1ca71b4dcc987),
        (16, 0x3bf6bd3bebd31655),
        (20, 0x89f107dbeac5377a),
    ];
    for (n, h) in table {
        assert_eq!(hash_len_0_to_16(&sentence(n)), h, "length {}", n);
    }
}

#[test]
fn one_to_three_bytes_are_read_at_the_first_the_middle_and_the_last_place() {
    // Two bytes: the middle place is the last one.
    assert_eq!(hash_len_0_to_16(b"ab"), 0xaa8d6e5242ada51e);
    assert_ne!(hash_len_0_to_16(b"ab"), hash_len_0_to_16(b"aa"));
    // Three bytes: each place is read.
    assert_eq!(hash_len_0_to_16(b"abc"), 0x24a5b3a074e7f369);
    assert_ne!(hash_len_0_to_16(b"abc"), hash_len_0_to_16(b"xbc"));
    assert_ne!(hash_len_0_to_16(b"abc"), hash_len_0_to_16(b"axc"));
    assert_ne!(hash_len_0_to_16(b"abc"), hash_len_0_to_16(b"abx"));
}

#[test]
fn the_second_band_by_length() {
    let table: [(usize, u64); 6] = [
        (16, 0x02105f25d3016c30),
        (17, 0xc7a32da958c02dbd),
        (24, 0x5d038073ebd56935),
        (32, 0xb65964dee7761262),
        (40, 0xb8d88fdf68b730a4),
        (100, 0x1cd5bc07877ad01e),
    ];
    for (n, h) in table {
        assert_eq!(hash_len_17_to_32(&sentence(n)), h, "length {}", n);
    }
}

#[test]
fn the_third_band_by_length() {
    let table: [(usize, u64); 6] = [
        (32, 0xbc39151618e577fe),
        (33, 0xf25fea09db06b3d6),
        (48, 0xa6e4e96b50284d42),
        (64, 0x8cc2288614b078a0),
        (70, 0xdffbcbf7cdeeb9ce),
        (200, 0x2a9f2b961f81910a),
    ];
    for (n, h) in table {
        assert_eq!(hash_len_33_to_64(&sentence(n)), h, "length {}", n);
    }
}

#[test]
fn lanes_of_32_bytes() {
    let s: Vec<u8> = (0u8..32).collect();
    let r = weak_hash_len_32_with_seeds(&s, 0xc3a5c85c97cb3127, 0xb492b66fbe98f273);
    assert_eq!(r.hi, 0xc4a4f0e843d3a2c9);
    assert_eq!(r.lo, 0x0fee0c9cd4036557);
    // Bytes after the first 32 are not read.
    let s: Vec<u8> = (0u8..40).collect();
    let r = weak_hash_len_32_with_seeds(&s, 1, 2);
    assert_eq!(r.hi, 0x5a18f016d5a5d493);
    assert_eq!(r.lo, 0x4c4844403c383431);
    let r = weak_hash_len_32_with_seeds(&s[..32], 1, 2);
    assert_eq!(r.hi, 0x5a18f016d5a5d493);
    assert_eq!(r.lo, 0x4c4844403c383431);
    let t = sentence(64);
    let r = weak_hash_len_32_with_seeds(&t, 3, 4);
    assert_eq!((r.hi, r.lo), (0x2c5b202cf2336163, 0x6865d4b029af189b));
    let r = weak_hash_len_32_with_seeds(&t[32..], 3, 4);
    assert_eq!((r.hi, r.lo), (0x7d70c6fd1222f462, 0x6071a0057274b561));
}
