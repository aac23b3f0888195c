use farmhash64::mix::{mix_64_to_32, K2};
use farmhash64::{farmhash32, farmhash64};

/// The first `n` bytes of a sentence that is repeated without end.
fn text(n: usize) -> Vec<u8> {
    b"The quick brown fox jumps over the lazy dog. "
        .iter()
        .cycle()
        .take(n)
        .copied()
        .collect()
}

#[test]
fn empty_input_is_k2() {
    assert_eq!(farmhash64(b""), 0x9ae16a3b2f90404f);
    assert_eq!(farmhash64(b""), K2);
    assert_eq!(farmhash64(&[]), K2);
    assert_eq!(farmhash32(b""), 0xfe0061e9);
}

#[test]
fn short_strings() {
    let table: [(&[u8], u64, u32); 10] = [
        (b"", 0x9ae16a3b2f90404f, 0xfe0061e9),
        (b"a", 0xb3454265b6df75e3, 0xd824662a),
        (b"ab", 0xaa8d6e5242ada51e, 0x15eb5ed6),
        (b"abc", 0x24a5b3a074e7f369, 0xcaf25fe2),
        (b"abcd", 0x1a5502de4a1f8101, 0xcf297808),
        (b"abcde", 0xc22f4663e54e04d4, 0x5f8d48db),
        (b"abcdef", 0xc329379e6a03c2cd, 0x16b8a2fd),
        (b"abcdefg", 0x3c40c92b1ccb7355, 0xcfc5f43d),
        (b"abcdefgh", 0xfee9d22990c82909, 0x08d1b642),
        (b"abcdefghi", 0x332c8ed4dae5ba42, 0xb382832e),
    ];
    for (input, h64, h32) in table {
        assert_eq!(farmhash64(input), h64, "input {:?}", input);
        assert_eq!(farmhash32(input), h32, "input {:?}", input);
    }
}

#[test]
fn known_words() {
    assert_eq!(farmhash64(b"hello world"), 6381520714923946011);
    assert_eq!(farmhash64(b"Hello"), 15404698994557526151);
    assert_eq!(farmhash64(b"World"), 18308117990299812472);
    assert_eq!(farmhash64(b"test"), 8581389452482819506);
    assert_eq!(farmhash32(b"hello world"), 0xb921f89a);
    assert_eq!(farmhash32(b"Hello"), 0x15cd8099);
    assert_eq!(farmhash32(b"World"), 0xef0443f5);
    assert_eq!(farmhash32(b"test"), 0x57c23fbb);
}

#[test]
fn known_fingerprints_as_signed_numbers() {
    assert_eq!(farmhash64(b"1footrue") as i64, -1541654101129638711);
    assert_eq!(farmhash64(b"2applefalse") as i64, 2794438866806483259);
    assert_eq!(farmhash64(b"3true") as i64, -4880158226897771312);
    assert_eq!(farmhash32(b"1footrue"), 0x68ed77f5);
    assert_eq!(farmhash32(b"2applefalse"), 0xcbed0300);
    assert_eq!(farmhash32(b"3true"), 0x5d1183fd);
}

#[test]
fn a_word_repeated_to_32_and_to_256_bytes() {
    let short = b"test".repeat(8);
    assert_eq!(short.len(), 32);
    assert_eq!(farmhash64(&short) as i64, -4196240717365766262);
    assert_eq!(farmhash32(&short), 0x6c747d46);
    let long = b"test".repeat(64);
    assert_eq!(long.len(), 256);
    assert_eq!(farmhash64(&long), 3500507768004279527);
    assert_eq!(farmhash32(&long), 0xf2f0a65e);
}

fn remix(h: u64) -> u64 {
    (h ^ (h >> 41)).wrapping_mul(949921979)
}

fn letter(h: u64) -> u8 {
    b'a' + ((h & 0xfffff) % 26) as u8
}

#[test]
fn a_chain_of_fingerprints_of_many_lengths() {
    let iterations: usize = 800;
    let mut buf = vec![0u8; iterations * 4];
    let mut len: usize = 0;
    let mut h: u64 = 0;
    for i in 0..iterations {
        h ^= farmhash64(&buf[..i]);
        h = remix(h);
        buf[len] = letter(h);
        len += 1;

        h ^= farmhash64(&buf[..i * i % len]);
        h = remix(h);
        buf[len] = letter(h);
        len += 1;

        h ^= farmhash64(&buf[..i * i * i % len]);
        h = remix(h);
        buf[len] = letter(h);
        len += 1;

        h ^= farmhash64(&buf[..len]);
        h = remix(h);
        buf[len] = letter(h);
        len += 1;

        let x0 = buf[len - 1] as usize;
        let x1 = buf[len - 2] as usize;
        let x2 = buf[len - 3] as usize;
        let x3 = buf[len / 2] as usize;
        buf[((x0 << 16) + (x1 << 8) + x2) % len] ^= x3 as u8;
        buf[((x1 << 16) + (x2 << 8) + x3) % len] ^= (i % 256) as u8;
    }
    assert_eq!(h, 0x7a1d67c50ec7e167);
}

#[test]
fn prefixes_of_a_text() {
    let table: [(usize, u64, u32); 26] = [
        (0, 0x9ae16a3b2f90404f, 0xfe0061e9),
        (1, 0x12f77cd62637857a, 0x8b6318be),
        (2, 0x5e667204f36de5f3, 0x0c536532),
        (3, 0x85887769ddcc73fd, 0x4682497b),
        (4, 0xf4ed8b2e41e836a5, 0xabb6d8fe),
        (7, 0xfb3b4353192e2b87, 0xf869edf9),
        (8, 0x46d0ffb3ee9d8c07, 0x3a25e9fb),
        (15, 0x7d582c15a5e865a7, 0x03bea23c),
        (16, 0x3bf6bd3bebd31655, 0xa05b7be5),
        (17, 0xc7a32da958c02dbd, 0x50163cbd),
        (31, 0x839ab5037d8b6353, 0x2eed66e7),
        (32, 0xb65964dee7761262, 0xa67d612b),
        (33, 0xf25fea09db06b3d6, 0xfffa4016),
        (63, 0xf2d8dc681d61d922, 0x2eaeebb6),
        (64, 0x8cc2288614b078a0, 0xbb38701c),
        (65, 0x739d9bc2566b1cbc, 0x0f01a1c2),
        (127, 0xccc0a6a5c0f55e8b, 0x53d5ec5d),
        (128, 0x5ae1aa6fecfd621a, 0xc4bd5971),
        (129, 0xfb199fbf9a28aad2, 0xbff0a8f3),
        (191, 0x2ac640fa17e015fc, 0x9f4168e4),
        (192, 0x497890ab030b2ccf, 0x712f9352),
        (193, 0xfdb57cdf1704908e, 0x7add34bf),
        (255, 0x2ceb5599e79ecf5b, 0x749d6386),
        (256, 0x137de21a5051e8cc, 0x451f13d4),
        (257, 0x836ac98b241a35fd, 0x76b2ead2),
        (600, 0x9fac284b0b308262, 0x490090bf),
    ];
    for (n, h64, h32) in table {
        let s = text(n);
        assert_eq!(farmhash64(&s), h64, "length {}", n);
        assert_eq!(farmhash32(&s), h32, "length {}", n);
    }
}

#[test]
fn bytes_that_are_all_zero_or_all_one() {
    let zeros = [0u8; 300];
    assert_eq!(farmhash64(&zeros[..1]), 0xbe6056edf5e94b54);
    assert_eq!(farmhash64(&zeros[..16]), 0x30902d4dcfed5815);
    assert_eq!(farmhash64(&zeros[..17]), 0x7ff10b9e7cfa9614);
    assert_eq!(farmhash64(&zeros[..64]), 0x5f487142ea192b16);
    assert_eq!(farmhash64(&zeros[..65]), 0x20460ab09f7f447f);
    assert_eq!(farmhash64(&zeros), 0xbc793c2b1c6de528);
    assert_eq!(farmhash32(&zeros), 0x38ee45b9);
    let ones = [0xffu8; 300];
    assert_eq!(farmhash64(&ones[..1]), 0x21a855c065a526e7);
    assert_eq!(farmhash64(&ones[..8]), 0x2fffe7a41fb59155);
    assert_eq!(farmhash64(&ones[..16]), 0xef2c139c8ec2f065);
    assert_eq!(farmhash64(&ones[..33]), 0x31ce2f5f4d90974d);
    assert_eq!(farmhash64(&ones[..65]), 0x61ffe3a446648955);
    assert_eq!(farmhash64(&ones), 0x08a9e3219d77c7a6);
    assert_eq!(farmhash32(&ones), 0xcb7075c7);
}

#[test]
fn every_length_up_to_600_is_accepted() {
    let s = text(600);
    let mut all64: u64 = 0;
    let mut all32: u32 = 0;
    for n in 0..=600 {
        all64 ^= farmhash64(&s[..n]);
        all32 ^= farmhash32(&s[..n]);
    }
    assert_eq!(all64, 0x7dbc05db388a0287);
    assert_eq!(all32, 0xbaab052b);
}

#[test]
fn repeated_calls_agree() {
    let s = text(600);
    for n in [0usize, 1, 5, 16, 17, 32, 33, 64, 65, 128, 129, 600] {
        let first = farmhash64(&s[..n]);
        let copy = s[..n].to_vec();
        assert_eq!(farmhash64(&s[..n]), first);
        assert_eq!(farmhash64(&copy), first);
        assert_eq!(farmhash32(&s[..n]), farmhash32(&copy));
    }
}

#[test]
fn thirty_two_bits_are_the_fold_of_the_sixty_four() {
    let s = text(600);
    for n in 0..=600 {
        assert_eq!(farmhash32(&s[..n]), mix_64_to_32(farmhash64(&s[..n])), "length {}", n);
    }
    assert_eq!(farmhash32(b"abc"), mix_64_to_32(0x24a5b3a074e7f369));
    assert_eq!(farmhash32(b""), mix_64_to_32(K2));
}

#[test]
fn one_changed_byte_changes_the_fingerprint() {
    let s = text(100);
    let h = farmhash64(&s);
    assert_eq!(h, 0xe45cd63b6bc3df32);
    for i in 0..s.len() {
        let mut t = s.clone();
        t[i] ^= 1;
        assert_ne!(farmhash64(&t), h, "byte {}", i);
    }
    let mut t = s.clone();
    t[0] ^= 1;
    assert_eq!(farmhash64(&t), 0xb6a8fdb279d6c1ba);
    let mut t = s.clone();
    t[36] ^= 1;
    assert_eq!(farmhash64(&t), 0xe4b10733f3ee93ed);
    let mut t = s.clone();
    t[99] ^= 1;
    assert_eq!(farmhash64(&t), 0xd460f167d9440aa6);
}

#[test]
fn one_changed_bit_of_a_long_input_changes_the_fingerprint() {
    let s = text(600);
    let h = farmhash64(&s);
    for i in 0..s.len() {
        for bit in 0..8 {
            let mut t = s.clone();
            t[i] ^= 1 << bit;
            assert_ne!(farmhash64(&t), h, "byte {} bit {}", i, bit);
        }
    }
}
