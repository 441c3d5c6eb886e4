use nsf_header::{
    decode, decode_header, decode_lenient, decode_with, encode, FormatError, NSFHeader,
    ProgramRegion, Warning, HEADER_SIZE,
};

/// A header with the signature, two songs, all addresses at 0x8000, the song
/// name "Test" and the given program length, followed by `payload` bytes.
fn sample(program_length: u32, payload: usize) -> Vec<u8> {
    let mut b: Vec<u8> = vec![0x4E, 0x45, 0x53, 0x4D, 0x1A, 0x01, 0x02, 0x01];
    b.extend_from_slice(&[0x00, 0x80, 0x00, 0x80, 0x00, 0x80]);
    let mut name = [0u8; 32];
    name[..4].copy_from_slice(b"Test");
    b.extend_from_slice(&name);
    b.extend_from_slice(&[0u8; 32]);
    b.extend_from_slice(&[0u8; 32]);
    b.extend_from_slice(&[0x3A, 0x01]);
    b.extend_from_slice(&[0u8; 8]);
    b.extend_from_slice(&[0x32, 0x01]);
    b.extend_from_slice(&[0x00, 0x00, 0x00]);
    b.push((program_length & 0xFF) as u8);
    b.push(((program_length >> 8) & 0xFF) as u8);
    b.push(((program_length >> 16) & 0xFF) as u8);
    assert_eq!(b.len(), 128);
    for i in 0..payload {
        b.push((i as u8).wrapping_mul(7).wrapping_add(1));
    }
    b
}

#[test]
fn header_size_is_128() {
    assert_eq!(HEADER_SIZE, 128);
}

#[test]
fn example_header_decodes_to_its_fields() {
    let source = sample(0, 9);
    let d = decode(&source).unwrap();
    let h = d.header;
    assert_eq!(h.magic, [0x4E, 0x45, 0x53, 0x4D, 0x1A]);
    assert_eq!(h.version, 1);
    assert_eq!(h.total_songs, 2);
    assert_eq!(h.starting_song, 1);
    assert_eq!(h.load_address, 0x8000);
    assert_eq!(h.init_address, 0x8000);
    assert_eq!(h.play_address, 0x8000);
    assert_eq!(h.song_name_text(), "Test");
    assert_eq!(h.artist_text(), "");
    assert_eq!(h.copyright_text(), "");
    assert_eq!(h.play_speed_ntsc, 0x013A);
    assert_eq!(h.bankswitch_init, [0u8; 8]);
    assert_eq!(h.play_speed_pal, 0x0132);
    assert_eq!(h.region_flags, 0);
    assert_eq!(h.expansion_flags, 0);
    assert_eq!(h.nsf2_reserved, 0);
    assert_eq!(h.program_data_length, 0);
    assert_eq!(d.program, ProgramRegion::RestOfSource);
    assert_eq!(d.program.slice(&source), Some(&source[128..]));
    assert!(d.warnings.is_empty());
}

#[test]
fn example_header_without_payload_decodes() {
    let source = sample(0, 0);
    let d = decode(&source).unwrap();
    assert_eq!(d.program, ProgramRegion::RestOfSource);
    assert_eq!(d.program.slice(&source), Some(&source[128..128]));
}

#[test]
fn empty_source_is_truncated() {
    assert_eq!(decode(&[]), Err(FormatError::Truncated));
    assert_eq!(decode_lenient(&[]), Err(FormatError::Truncated));
    assert_eq!(decode_header(&[]), Err(FormatError::Truncated));
}

#[test]
fn source_of_127_bytes_is_truncated() {
    let source = sample(0, 0);
    assert_eq!(decode(&source[..127]), Err(FormatError::Truncated));
    assert_eq!(decode_lenient(&source[..127]), Err(FormatError::Truncated));
    assert_eq!(decode_header(&source[..127]), Err(FormatError::Truncated));
}

#[test]
fn short_source_with_bad_signature_is_truncated() {
    let source = [0xFFu8; 20];
    assert_eq!(decode(&source), Err(FormatError::Truncated));
}

#[test]
fn every_length_below_128_is_truncated() {
    let source = sample(0, 0);
    for n in 0..128 {
        assert_eq!(decode(&source[..n]), Err(FormatError::Truncated));
    }
}

#[test]
fn wrong_signature_byte_is_bad_signature() {
    for i in 0..5 {
        let mut source = sample(0, 16);
        source[i] ^= 0x01;
        assert_eq!(decode(&source), Err(FormatError::BadSignature));
        assert_eq!(decode_lenient(&source), Err(FormatError::BadSignature));
        assert_eq!(decode_header(&source), Err(FormatError::BadSignature));
    }
}

#[test]
fn all_zero_source_is_bad_signature() {
    assert_eq!(decode(&[0u8; 128]), Err(FormatError::BadSignature));
}

#[test]
fn starting_song_beyond_total_is_a_warning() {
    let mut source = sample(0, 0);
    source[6] = 3;
    source[7] = 4;
    let d = decode(&source).unwrap();
    assert_eq!(d.header.total_songs, 3);
    assert_eq!(d.header.starting_song, 4);
    assert_eq!(d.warnings, vec![Warning::StartingSongOutOfRange]);
}

#[test]
fn starting_song_zero_is_a_warning() {
    let mut source = sample(0, 0);
    source[7] = 0;
    let d = decode(&source).unwrap();
    assert_eq!(d.warnings, vec![Warning::StartingSongOutOfRange]);
}

#[test]
fn starting_song_equal_to_total_is_fine() {
    let mut source = sample(0, 0);
    source[6] = 5;
    source[7] = 5;
    let d = decode(&source).unwrap();
    assert!(d.warnings.is_empty());
}

#[test]
fn reserved_region_bits_are_a_warning() {
    let mut source = sample(0, 0);
    source[0x7A] = 0x04;
    assert_eq!(decode(&source).unwrap().warnings, vec![Warning::ReservedBitsSet]);
    source[0x7A] = 0x03;
    assert!(decode(&source).unwrap().warnings.is_empty());
    source[0x7A] = 0x80;
    assert_eq!(decode(&source).unwrap().warnings, vec![Warning::ReservedBitsSet]);
}

#[test]
fn reserved_expansion_bit_is_a_warning() {
    let mut source = sample(0, 0);
    source[0x7B] = 0x80;
    assert_eq!(decode(&source).unwrap().warnings, vec![Warning::ReservedBitsSet]);
    source[0x7B] = 0x7F;
    assert!(decode(&source).unwrap().warnings.is_empty());
}

#[test]
fn low_address_is_a_warning() {
    for at in [0x08usize, 0x0A, 0x0C] {
        let mut source = sample(0, 0);
        source[at] = 0xFF;
        source[at + 1] = 0x7F;
        let d = decode(&source).unwrap();
        assert_eq!(d.warnings, vec![Warning::AddressOutOfExpectedRange]);
    }
}

#[test]
fn warnings_come_in_a_fixed_order() {
    let mut source = sample(0, 0);
    source[0x7A] = 0xFC;
    source[6] = 0;
    source[9] = 0x10;
    let d = decode(&source).unwrap();
    assert_eq!(
        d.warnings,
        vec![
            Warning::ReservedBitsSet,
            Warning::StartingSongOutOfRange,
            Warning::AddressOutOfExpectedRange
        ]
    );
    assert_eq!(d.warnings, d.header.warnings());
}

#[test]
fn unexpected_version_still_decodes() {
    let mut source = sample(0, 0);
    source[5] = 9;
    let d = decode(&source).unwrap();
    assert_eq!(d.header.version, 9);
}

#[test]
fn zero_length_takes_the_whole_trailing_blob() {
    let source = sample(0, 50);
    let d = decode(&source).unwrap();
    assert_eq!(d.header.program_data_length, 0);
    let data = d.program.slice(&source).unwrap();
    assert_eq!(data.len(), 50);
    assert_eq!(data, &source[128..178]);
}

#[test]
fn explicit_length_takes_the_first_bytes_of_the_blob() {
    let source = sample(10, 50);
    let d = decode(&source).unwrap();
    assert_eq!(d.header.program_data_length, 10);
    assert_eq!(d.program, ProgramRegion::Exact(10));
    let data = d.program.slice(&source).unwrap();
    assert_eq!(data.len(), 10);
    assert_eq!(data, &source[128..138]);
    let mut other = source.clone();
    for b in other[138..].iter_mut() {
        *b = !*b;
    }
    let e = decode(&other).unwrap();
    assert_eq!(e.program.slice(&other).unwrap(), data);
}

#[test]
fn explicit_length_equal_to_the_blob_decodes() {
    let source = sample(50, 50);
    let d = decode(&source).unwrap();
    assert_eq!(d.program.slice(&source), Some(&source[128..]));
}

#[test]
fn missing_program_bytes_are_truncated() {
    let source = sample(51, 50);
    assert_eq!(decode(&source), Err(FormatError::Truncated));
    assert_eq!(decode_with(&source, false), Err(FormatError::Truncated));
}

#[test]
fn lenient_mode_accepts_missing_program_bytes() {
    let source = sample(51, 50);
    let d = decode_lenient(&source).unwrap();
    assert_eq!(d.header.program_data_length, 51);
    assert_eq!(d.program, ProgramRegion::Exact(51));
    assert_eq!(d.program.slice(&source), None);
    assert_eq!(decode_with(&source, true), Ok(d));
}

#[test]
fn program_length_is_24_bit_little_endian() {
    let mut source = sample(0, 0);
    source[0x7D] = 0x01;
    source[0x7E] = 0x02;
    source[0x7F] = 0x03;
    let d = decode_lenient(&source).unwrap();
    assert_eq!(d.header.program_data_length, 0x030201);
    source[0x7D] = 0xFF;
    source[0x7E] = 0xFF;
    source[0x7F] = 0xFF;
    let d = decode_lenient(&source).unwrap();
    assert_eq!(d.header.program_data_length, 0xFF_FFFF);
}

#[test]
fn words_are_little_endian() {
    let mut source = sample(0, 0);
    source[0x08] = 0x34;
    source[0x09] = 0x92;
    source[0x0A] = 0xFF;
    source[0x0B] = 0xFF;
    source[0x0C] = 0x01;
    source[0x0D] = 0x80;
    source[0x6E] = 0x1A;
    source[0x6F] = 0x41;
    source[0x78] = 0x20;
    source[0x79] = 0x4E;
    let h = decode(&source).unwrap().header;
    assert_eq!(h.load_address, 0x9234);
    assert_eq!(h.init_address, 0xFFFF);
    assert_eq!(h.play_address, 0x8001);
    assert_eq!(h.play_speed_ntsc, 16666);
    assert_eq!(h.play_speed_pal, 20000);
}

#[test]
fn decode_header_gives_the_record_of_decode() {
    let source = sample(10, 50);
    assert_eq!(decode_header(&source), Ok(decode(&source).unwrap().header));
    assert_eq!(decode_header(&source[..128]), Ok(decode(&source).unwrap().header));
}

#[test]
fn encoding_gives_the_first_128_bytes_back() {
    let mut source: Vec<u8> = (0..200u32).map(|i| (i * 37 + 11) as u8).collect();
    source[..5].copy_from_slice(&[0x4E, 0x45, 0x53, 0x4D, 0x1A]);
    let d = decode_lenient(&source).unwrap();
    assert_eq!(encode(&d.header), &source[..128]);
}

#[test]
fn encoding_the_example_gives_it_back() {
    let source = sample(10, 50);
    let d = decode(&source).unwrap();
    assert_eq!(encode(&d.header), &source[..128]);
}

#[test]
fn decoding_an_encoded_record_gives_it_back() {
    let mut h = NSFHeader::new();
    h.magic = [0x4E, 0x45, 0x53, 0x4D, 0x1A];
    h.version = 2;
    h.total_songs = 12;
    h.starting_song = 3;
    h.load_address = 0x8123;
    h.init_address = 0x9ABC;
    h.play_address = 0xFFF0;
    h.song_name[..5].copy_from_slice(b"Title");
    h.artist = [b'a'; 32];
    h.copyright[31] = 0xC0;
    h.play_speed_ntsc = 16639;
    h.bankswitch_init = [0, 1, 2, 3, 4, 5, 6, 7];
    h.play_speed_pal = 19997;
    h.region_flags = 0x02;
    h.expansion_flags = 0x15;
    h.nsf2_reserved = 0x7E;
    h.program_data_length = 0x00AB_CDEF;
    let bytes = encode(&h);
    assert_eq!(bytes.len(), 128);
    assert_eq!(&bytes[0x7D..], &[0xEF, 0xCD, 0xAB]);
    assert_eq!(&bytes[0x08..0x0A], &[0x23, 0x81]);
    assert_eq!(decode_lenient(&bytes).unwrap().header, h);
}

#[test]
fn encoding_the_zero_record_gives_zeros() {
    assert_eq!(encode(&NSFHeader::new()), vec![0u8; 128]);
}
