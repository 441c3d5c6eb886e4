//! The layout of the header: which bytes make which field.
//!
//! | Offset | Size | Field |
//! |---|---|---|
//! | 0x00 | 5 | signature |
//! | 0x05 | 1 | version |
//! | 0x06 | 1 | total songs |
//! | 0x07 | 1 | starting song |
//! | 0x08 | 2 | load address |
//! | 0x0A | 2 | init address |
//! | 0x0C | 2 | play address |
//! | 0x0E | 32 | song name |
//! | 0x2E | 32 | artist |
//! | 0x4E | 32 | copyright |
//! | 0x6E | 2 | play speed, NTSC |
//! | 0x70 | 8 | bankswitch init values |
//! | 0x78 | 2 | play speed, PAL |
//! | 0x7A | 1 | region flags |
//! | 0x7B | 1 | expansion flags |
//! | 0x7C | 1 | NSF2 byte |
//! | 0x7D | 3 | program data length |
//!
//! Every integer of more than one byte is little-endian.

use vstd::prelude::*;
use crate::bytes::{
    le16,
    le16_bytes,
    le24,
    le24_bytes,
    lemma_le16_bytes_of_le16,
    lemma_le16_round_trip,
    lemma_le24_bytes_of_le24,
    lemma_le24_round_trip,
};
use crate::header::HeaderModel;

verus! {

/// The record that the first 128 bytes of `b` lay out.
pub open spec fn parse(b: Seq<u8>) -> HeaderModel
    recommends
        b.len() >= 128,
{
    HeaderModel {
        magic: b.subrange(0, 5),
        version: b[5],
        total_songs: b[6],
        starting_song: b[7],
        load_address: le16(b[8], b[9]),
        init_address: le16(b[10], b[11]),
        play_address: le16(b[12], b[13]),
        song_name: b.subrange(14, 46),
        artist: b.subrange(46, 78),
        copyright: b.subrange(78, 110),
        play_speed_ntsc: le16(b[110], b[111]),
        bankswitch_init: b.subrange(112, 120),
        play_speed_pal: le16(b[120], b[121]),
        region_flags: b[122],
        expansion_flags: b[123],
        nsf2_reserved: b[124],
        program_data_length: le24(b[125], b[126], b[127]),
    }
}

/// The bytes that lay out the record `m`, field after field.
pub open spec fn serialize(m: HeaderModel) -> Seq<u8> {
    m.magic + seq![m.version, m.total_songs, m.starting_song] + le16_bytes(m.load_address)
        + le16_bytes(m.init_address) + le16_bytes(m.play_address) + m.song_name + m.artist
        + m.copyright + le16_bytes(m.play_speed_ntsc) + m.bankswitch_init + le16_bytes(
        m.play_speed_pal,
    ) + seq![m.region_flags, m.expansion_flags, m.nsf2_reserved] + le24_bytes(
        m.program_data_length,
    )
}

/// Laying out the record of 128 bytes gives those bytes again.
pub proof fn lemma_serialize_parse(b: Seq<u8>)
    requires
        b.len() == 128,
    ensures
        serialize(parse(b)) == b,
{
    lemma_le16_bytes_of_le16(b[8], b[9]);
    lemma_le16_bytes_of_le16(b[10], b[11]);
    lemma_le16_bytes_of_le16(b[12], b[13]);
    lemma_le16_bytes_of_le16(b[110], b[111]);
    lemma_le16_bytes_of_le16(b[120], b[121]);
    lemma_le24_bytes_of_le24(b[125], b[126], b[127]);
    assert(serialize(parse(b)) =~= b);
}

/// Reading the bytes of a well-formed record gives that record again.
pub proof fn lemma_parse_serialize(m: HeaderModel)
    requires
        m.wf(),
    ensures
        serialize(m).len() == 128,
        parse(serialize(m)) == m,
{
    let b = serialize(m);
    let p = parse(b);
    lemma_le16_round_trip(m.load_address);
    lemma_le16_round_trip(m.init_address);
    lemma_le16_round_trip(m.play_address);
    lemma_le16_round_trip(m.play_speed_ntsc);
    lemma_le16_round_trip(m.play_speed_pal);
    lemma_le24_round_trip(m.program_data_length);
    assert(p.magic =~= m.magic);
    assert(p.song_name =~= m.song_name);
    assert(p.artist =~= m.artist);
    assert(p.copyright =~= m.copyright);
    assert(p.bankswitch_init =~= m.bankswitch_init);
}

/// The record depends on the first 128 bytes alone: what follows the header
/// does not change it.
pub proof fn lemma_parse_reads_header_only(source: Seq<u8>)
    requires
        source.len() >= 128,
    ensures
        parse(source) == parse(source.subrange(0, 128)),
{
    let head = source.subrange(0, 128);
    assert(head.subrange(0, 5) =~= source.subrange(0, 5));
    assert(head.subrange(14, 46) =~= source.subrange(14, 46));
    assert(head.subrange(46, 78) =~= source.subrange(46, 78));
    assert(head.subrange(78, 110) =~= source.subrange(78, 110));
    assert(head.subrange(112, 120) =~= source.subrange(112, 120));
}

} // verus!
