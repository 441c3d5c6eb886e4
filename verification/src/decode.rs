//! Decoding a byte source into a header record.

use vstd::prelude::*;
use crate::bytes::{lemma_le24_bytes_of_le24, read_le16, read_le24, read_slot};
use crate::header::{signature, HeaderModel, NSFHeader, ProgramRegion, Warning, HEADER_SIZE};
use crate::layout::{
    lemma_parse_reads_header_only,
    lemma_parse_serialize,
    lemma_serialize_parse,
    parse,
    serialize,
};

verus! {

/// Why a source is not an NSF file.
#[derive(Clone, Copy, Debug, PartialEq, Eq, Hash, Structural)]
pub enum FormatError {
    /// The source does not start with the signature `N E S M 0x1A`.
    BadSignature,
    /// The source is shorter than the header, or shorter than the header
    /// and the program length that the header declares.
    Truncated,
}

/// What decoding a source gives: the record, the soft constraints that it
/// violates, and where the program data lies.
#[derive(Clone, Debug, PartialEq, Eq)]
pub struct Decoded {
    pub header: NSFHeader,
    pub warnings: Vec<Warning>,
    pub program: ProgramRegion,
}

/// A decoding result as plain mathematical values.
pub struct DecodedModel {
    pub header: HeaderModel,
    pub warnings: Seq<Warning>,
    pub program: ProgramRegion,
}

impl View for Decoded {
    type V = DecodedModel;

    open spec fn view(&self) -> DecodedModel {
        DecodedModel { header: self.header@, warnings: self.warnings@, program: self.program }
    }
}

/// `source` holds a whole header that starts with the signature.
pub open spec fn has_header(source: Seq<u8>) -> bool {
    source.len() >= 128 && source.subrange(0, 5) == signature()
}

/// `source` holds as many bytes behind the header as the header declares.
pub open spec fn has_declared_program(source: Seq<u8>) -> bool
    recommends
        source.len() >= 128,
{
    128 + parse(source).program_data_length <= source.len()
}

/// What decoding `source` gives. A lenient decoding does not ask that the
/// declared program data is there.
pub open spec fn decode_outcome(source: Seq<u8>, lenient: bool) -> Result<
    DecodedModel,
    FormatError,
> {
    if source.len() < 128 {
        Err(FormatError::Truncated)
    } else if source.subrange(0, 5) != signature() {
        Err(FormatError::BadSignature)
    } else if !lenient && !has_declared_program(source) {
        Err(FormatError::Truncated)
    } else {
        let header = parse(source);
        Ok(
            DecodedModel {
                header,
                warnings: header.warnings(),
                program: header.program_region(),
            },
        )
    }
}

/// `r` is the outcome `expected`, the value of an `Ok` taken by its view.
pub open spec fn is_outcome(
    r: Result<Decoded, FormatError>,
    expected: Result<DecodedModel, FormatError>,
) -> bool {
    match r {
        Ok(d) => expected == Ok::<DecodedModel, FormatError>(d@),
        Err(e) => expected == Err::<DecodedModel, FormatError>(e),
    }
}

/// Whether `source`, of at least five bytes, starts with the signature.
fn starts_with_signature(source: &[u8]) -> (b: bool)
    requires
        source@.len() >= 5,
    ensures
        b == (source@.subrange(0, 5) == signature()),
{
    let b = source[0] == 0x4E && source[1] == 0x45 && source[2] == 0x53 && source[3] == 0x4D
        && source[4] == 0x1A;
    proof {
        let head = source@.subrange(0, 5);
        assert(head[0] == source@[0] && head[1] == source@[1] && head[2] == source@[2] && head[3]
            == source@[3] && head[4] == source@[4]);
        assert(b == (head =~= signature()));
    }
    b
}

/// Reads every field off a source that holds a whole header.
fn read_fields(source: &[u8]) -> (h: NSFHeader)
    requires
        source@.len() >= 128,
    ensures
        h@ == parse(source@),
        h.wf(),
{
    NSFHeader {
        magic: read_slot::<5>(source, 0),
        version: source[5],
        total_songs: source[6],
        starting_song: source[7],
        load_address: read_le16(source, 8),
        init_address: read_le16(source, 10),
        play_address: read_le16(source, 12),
        song_name: read_slot::<32>(source, 14),
        artist: read_slot::<32>(source, 46),
        copyright: read_slot::<32>(source, 78),
        play_speed_ntsc: read_le16(source, 110),
        bankswitch_init: read_slot::<8>(source, 112),
        play_speed_pal: read_le16(source, 120),
        region_flags: source[122],
        expansion_flags: source[123],
        nsf2_reserved: source[124],
        program_data_length: read_le24(source, 125),
    }
}

/// Decodes the header alone: fails with `Truncated` on fewer than 128
/// bytes, else with `BadSignature` where the first five bytes are not the
/// signature, and else gives the record of the first 128 bytes.
pub fn decode_header(source: &[u8]) -> (r: Result<NSFHeader, FormatError>)
    ensures
        source@.len() < 128 ==> r == Err::<NSFHeader, FormatError>(FormatError::Truncated),
        source@.len() >= 128 && source@.subrange(0, 5) != signature() ==> r == Err::<
            NSFHeader,
            FormatError,
        >(FormatError::BadSignature),
        has_header(source@) ==> r is Ok,
        r is Ok ==> r->Ok_0@ == parse(source@) && r->Ok_0.wf() && r->Ok_0@.magic == signature(),
        r is Ok ==> serialize(r->Ok_0@) == source@.subrange(0, 128),
{
    if source.len() < HEADER_SIZE {
        return Err(FormatError::Truncated);
    }
    if !starts_with_signature(source) {
        return Err(FormatError::BadSignature);
    }
    proof {
        lemma_parse_reads_header_only(source@);
        lemma_serialize_parse(source@.subrange(0, 128));
    }
    Ok(read_fields(source))
}

/// Decodes `source`, which starts with the header, in the given mode.
///
/// Decoding goes in this order. Fewer than 128 bytes: `Truncated`. First
/// five bytes not the signature: `BadSignature`. Unless `lenient`, fewer
/// bytes behind the header than a non-zero program length declares:
/// `Truncated`. Otherwise the result is the record of the first 128 bytes
/// with its warnings and its program region; a soft-constraint violation
/// never fails the decoding.
pub fn decode_with(source: &[u8], lenient: bool) -> (r: Result<Decoded, FormatError>)
    ensures
        is_outcome(r, decode_outcome(source@, lenient)),
        source@.len() < 128 ==> r == Err::<Decoded, FormatError>(FormatError::Truncated),
        source@.len() >= 128 && source@.subrange(0, 5) != signature() ==> r == Err::<
            Decoded,
            FormatError,
        >(FormatError::BadSignature),
        r is Ok <==> has_header(source@) && (lenient || has_declared_program(source@)),
        r is Ok ==> r->Ok_0.header.wf(),
        r is Ok ==> serialize(r->Ok_0.header@) == source@.subrange(0, 128),
        r is Ok && r->Ok_0.header.starting_song > r->Ok_0.header.total_songs
            ==> r->Ok_0.warnings@.contains(Warning::StartingSongOutOfRange),
{
    let header = match decode_header(source) {
        Ok(h) => h,
        Err(e) => {
            return Err(e);
        },
    };
    let behind: usize = source.len() - HEADER_SIZE;
    if !lenient && (behind as u64) < (header.program_data_length as u64) {
        return Err(FormatError::Truncated);
    }
    let warnings = header.warnings();
    let program = header.program_region();
    proof {
        lemma_starting_song_warning(header@);
    }
    Ok(Decoded { header, warnings, program })
}

/// Decodes `source` and asks that the declared program data is there.
pub fn decode(source: &[u8]) -> (r: Result<Decoded, FormatError>)
    ensures
        is_outcome(r, decode_outcome(source@, false)),
        source@.len() < 128 ==> r == Err::<Decoded, FormatError>(FormatError::Truncated),
        source@.len() >= 128 && source@.subrange(0, 5) != signature() ==> r == Err::<
            Decoded,
            FormatError,
        >(FormatError::BadSignature),
        r is Ok <==> has_header(source@) && has_declared_program(source@),
        r is Ok ==> r->Ok_0.header.wf(),
        r is Ok ==> serialize(r->Ok_0.header@) == source@.subrange(0, 128),
        r is Ok && r->Ok_0.header.starting_song > r->Ok_0.header.total_songs
            ==> r->Ok_0.warnings@.contains(Warning::StartingSongOutOfRange),
{
    decode_with(source, false)
}

/// Decodes `source` without asking that the declared program data is there:
/// for a source that is still arriving.
pub fn decode_lenient(source: &[u8]) -> (r: Result<Decoded, FormatError>)
    ensures
        is_outcome(r, decode_outcome(source@, true)),
        source@.len() < 128 ==> r == Err::<Decoded, FormatError>(FormatError::Truncated),
        source@.len() >= 128 && source@.subrange(0, 5) != signature() ==> r == Err::<
            Decoded,
            FormatError,
        >(FormatError::BadSignature),
        r is Ok <==> has_header(source@),
        r is Ok ==> r->Ok_0.header.wf(),
        r is Ok ==> serialize(r->Ok_0.header@) == source@.subrange(0, 128),
        r is Ok && r->Ok_0.header.starting_song > r->Ok_0.header.total_songs
            ==> r->Ok_0.warnings@.contains(Warning::StartingSongOutOfRange),
{
    decode_with(source, true)
}

/// A record earns the starting-song warning exactly when its starting song
/// is zero or beyond the number of songs.
pub proof fn lemma_starting_song_warning(m: HeaderModel)
    ensures
        m.warnings().contains(Warning::StartingSongOutOfRange) <==> (m.starting_song < 1
            || m.starting_song > m.total_songs),
{
    let w = m.warnings();
    if m.starting_song_out_of_range() {
        let k: int = if m.reserved_bits_set() {
            1
        } else {
            0
        };
        assert(w[k] == Warning::StartingSongOutOfRange);
    } else {
        assert forall|i: int| 0 <= i < w.len() implies w[i] != Warning::StartingSongOutOfRange by {}
    }
}

/// A starting song beyond the number of songs does not fail the decoding:
/// the outcome is what it would be otherwise, with the warning in it.
pub proof fn lemma_starting_song_is_soft(source: Seq<u8>, lenient: bool)
    requires
        has_header(source),
        lenient || has_declared_program(source),
        source[7] > source[6],
    ensures
        decode_outcome(source, lenient) is Ok,
        decode_outcome(source, lenient)->Ok_0.header == parse(source),
        decode_outcome(source, lenient)->Ok_0.warnings.contains(Warning::StartingSongOutOfRange),
{
    lemma_starting_song_warning(parse(source));
}

/// With a program length of zero the region is every byte behind the header.
pub proof fn lemma_region_rest_of_source(source: Seq<u8>, lenient: bool)
    requires
        has_header(source),
        parse(source).program_data_length == 0,
    ensures
        decode_outcome(source, lenient) is Ok,
        decode_outcome(source, lenient)->Ok_0.program.resolve(source) == Some(
            source.subrange(128, source.len() as int),
        ),
{
}

/// With a non-zero program length the region is that many bytes behind the
/// header, whatever follows them.
pub proof fn lemma_region_exact(source: Seq<u8>, lenient: bool)
    requires
        has_header(source),
        parse(source).program_data_length != 0,
        has_declared_program(source),
    ensures
        decode_outcome(source, lenient) is Ok,
        decode_outcome(source, lenient)->Ok_0.program.resolve(source) == Some(
            source.subrange(128, 128 + parse(source).program_data_length),
        ),
{
}

/// Every source that holds a whole header with the signature decodes, and
/// writing the decoded record back gives the first 128 bytes of the source
/// again. A decoding that is not lenient asks in addition that the declared
/// program data is there.
pub proof fn lemma_decode_round_trip(source: Seq<u8>, lenient: bool)
    requires
        has_header(source),
        lenient || has_declared_program(source),
    ensures
        decode_outcome(source, lenient) is Ok,
        decode_outcome(source, lenient)->Ok_0.header.wf(),
        serialize(decode_outcome(source, lenient)->Ok_0.header) == source.subrange(0, 128),
{
    lemma_parse_reads_header_only(source);
    lemma_serialize_parse(source.subrange(0, 128));
    lemma_le24_bytes_of_le24(source[125], source[126], source[127]);
}

/// The bytes of a well-formed record that carries the signature decode to
/// that record again.
pub proof fn lemma_decode_serialized(m: HeaderModel)
    requires
        m.wf(),
        m.magic == signature(),
    ensures
        decode_outcome(serialize(m), true) is Ok,
        decode_outcome(serialize(m), true)->Ok_0.header == m,
{
    lemma_parse_serialize(m);
    assert(serialize(m).subrange(0, 5) =~= m.magic);
}

} // verus!
