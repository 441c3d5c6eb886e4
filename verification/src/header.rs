//! The header record, its mathematical model and what can be read off it.

use vstd::prelude::*;

verus! {

/// A soft-constraint violation. The record is still usable.
#[derive(Clone, Copy, Debug, PartialEq, Eq, Hash, Structural)]
pub enum Warning {
    /// A reserved bit of the region flags or of the expansion flags is set.
    ReservedBitsSet,
    /// The starting song is zero or lies beyond the number of songs.
    StartingSongOutOfRange,
    /// The load, init or play address lies below 0x8000.
    AddressOutOfExpectedRange,
}

/// An expansion audio chip that a tune may ask for.
#[derive(Clone, Copy, Debug, PartialEq, Eq, Hash, Structural)]
pub enum ExpansionChip {
    Vrc6,
    Vrc7,
    Fds,
    Mmc5,
    Namco163,
    Sunsoft5B,
    Vt02Plus,
}

/// Where the program data lies. It always starts at offset 128.
#[derive(Clone, Copy, Debug, PartialEq, Eq, Hash, Structural)]
pub enum ProgramRegion {
    /// Every byte from offset 128 to the end of the source.
    RestOfSource,
    /// Exactly this many bytes from offset 128 on.
    Exact(u32),
}

/// The size of the header in bytes, and the offset of the program data.
pub const HEADER_SIZE: usize = 128;

/// The parsed form of the 128-byte header.
#[derive(Clone, Copy, Debug, PartialEq, Eq, Hash)]
pub struct NSFHeader {
    /// The file signature, `N E S M 0x1A` in a valid file.
    pub magic: [u8; 5],
    /// 1 for NSF, 2 for NSF2.
    pub version: u8,
    pub total_songs: u8,
    /// One-based index of the first song to play.
    pub starting_song: u8,
    pub load_address: u16,
    pub init_address: u16,
    pub play_address: u16,
    /// Raw text slot, NUL-terminated or NUL-padded.
    pub song_name: [u8; 32],
    /// Raw text slot, NUL-terminated or NUL-padded.
    pub artist: [u8; 32],
    /// Raw text slot, NUL-terminated or NUL-padded.
    pub copyright: [u8; 32],
    /// Tick interval in microseconds for NTSC playback.
    pub play_speed_ntsc: u16,
    /// Initial bankswitch register values; all zero means no bankswitching.
    pub bankswitch_init: [u8; 8],
    /// Tick interval in microseconds for PAL playback.
    pub play_speed_pal: u16,
    /// Bit 0: PAL; bit 1: dual region; the rest reserved.
    pub region_flags: u8,
    /// Bits 0 to 6: one expansion chip each; bit 7 reserved.
    pub expansion_flags: u8,
    /// The byte at offset 0x7C; it has a meaning only in version 2.
    pub nsf2_reserved: u8,
    /// 24-bit byte count of the program data; 0 means "to the end".
    pub program_data_length: u32,
}

/// The record as plain mathematical values.
pub struct HeaderModel {
    pub magic: Seq<u8>,
    pub version: u8,
    pub total_songs: u8,
    pub starting_song: u8,
    pub load_address: u16,
    pub init_address: u16,
    pub play_address: u16,
    pub song_name: Seq<u8>,
    pub artist: Seq<u8>,
    pub copyright: Seq<u8>,
    pub play_speed_ntsc: u16,
    pub bankswitch_init: Seq<u8>,
    pub play_speed_pal: u16,
    pub region_flags: u8,
    pub expansion_flags: u8,
    pub nsf2_reserved: u8,
    pub program_data_length: u32,
}

/// The five signature bytes `N E S M 0x1A`.
pub open spec fn signature() -> Seq<u8> {
    seq![0x4Eu8, 0x45u8, 0x53u8, 0x4Du8, 0x1Au8]
}

impl ExpansionChip {
    /// The bit of the expansion flags that stands for this chip.
    pub open spec fn mask(self) -> u8 {
        match self {
            ExpansionChip::Vrc6 => 0x01u8,
            ExpansionChip::Vrc7 => 0x02u8,
            ExpansionChip::Fds => 0x04u8,
            ExpansionChip::Mmc5 => 0x08u8,
            ExpansionChip::Namco163 => 0x10u8,
            ExpansionChip::Sunsoft5B => 0x20u8,
            ExpansionChip::Vt02Plus => 0x40u8,
        }
    }

    /// The bit of the expansion flags that stands for this chip.
    pub fn bit(self) -> (m: u8)
        ensures
            m == self.mask(),
    {
        match self {
            ExpansionChip::Vrc6 => 0x01u8,
            ExpansionChip::Vrc7 => 0x02u8,
            ExpansionChip::Fds => 0x04u8,
            ExpansionChip::Mmc5 => 0x08u8,
            ExpansionChip::Namco163 => 0x10u8,
            ExpansionChip::Sunsoft5B => 0x20u8,
            ExpansionChip::Vt02Plus => 0x40u8,
        }
    }
}

impl HeaderModel {
    /// Every slot has its fixed size and the program length fits in 24 bits.
    pub open spec fn wf(self) -> bool {
        &&& self.magic.len() == 5
        &&& self.song_name.len() == 32
        &&& self.artist.len() == 32
        &&& self.copyright.len() == 32
        &&& self.bankswitch_init.len() == 8
        &&& self.program_data_length < 0x100_0000
    }

    /// A reserved bit is set: bits 2 to 7 of the region flags, or bit 7 of
    /// the expansion flags.
    pub open spec fn reserved_bits_set(self) -> bool {
        self.region_flags & 0xFCu8 != 0 || self.expansion_flags & 0x80u8 != 0
    }

    /// The starting song is not within `1..=total_songs`.
    pub open spec fn starting_song_out_of_range(self) -> bool {
        self.starting_song < 1 || self.starting_song > self.total_songs
    }

    /// One of the three addresses lies outside `0x8000..=0xFFFF`.
    pub open spec fn address_out_of_range(self) -> bool {
        self.load_address < 0x8000 || self.init_address < 0x8000 || self.play_address < 0x8000
    }

    /// The warnings that this record earns, each at most once, in the order
    /// reserved bits, starting song, addresses.
    pub open spec fn warnings(self) -> Seq<Warning> {
        (if self.reserved_bits_set() {
            seq![Warning::ReservedBitsSet]
        } else {
            Seq::<Warning>::empty()
        }) + (if self.starting_song_out_of_range() {
            seq![Warning::StartingSongOutOfRange]
        } else {
            Seq::<Warning>::empty()
        }) + (if self.address_out_of_range() {
            seq![Warning::AddressOutOfExpectedRange]
        } else {
            Seq::<Warning>::empty()
        })
    }

    /// The region that the program length declares.
    pub open spec fn program_region(self) -> ProgramRegion {
        if self.program_data_length == 0 {
            ProgramRegion::RestOfSource
        } else {
            ProgramRegion::Exact(self.program_data_length)
        }
    }
}

impl View for NSFHeader {
    type V = HeaderModel;

    open spec fn view(&self) -> HeaderModel {
        HeaderModel {
            magic: self.magic@,
            version: self.version,
            total_songs: self.total_songs,
            starting_song: self.starting_song,
            load_address: self.load_address,
            init_address: self.init_address,
            play_address: self.play_address,
            song_name: self.song_name@,
            artist: self.artist@,
            copyright: self.copyright@,
            play_speed_ntsc: self.play_speed_ntsc,
            bankswitch_init: self.bankswitch_init@,
            play_speed_pal: self.play_speed_pal,
            region_flags: self.region_flags,
            expansion_flags: self.expansion_flags,
            nsf2_reserved: self.nsf2_reserved,
            program_data_length: self.program_data_length,
        }
    }
}

impl NSFHeader {
    /// The program length fits in the 24 bits that the layout gives it.
    pub open spec fn wf(&self) -> bool {
        self.program_data_length < 0x100_0000
    }

    /// A record with every field zero. It does not carry the signature.
    pub fn new() -> (h: Self)
        ensures
            h.wf(),
            h@.magic == crate::bytes::zeros(5),
            h@.song_name == crate::bytes::zeros(32),
            h@.artist == crate::bytes::zeros(32),
            h@.copyright == crate::bytes::zeros(32),
            h@.bankswitch_init == crate::bytes::zeros(8),
            h.version == 0 && h.total_songs == 0 && h.starting_song == 0,
            h.load_address == 0 && h.init_address == 0 && h.play_address == 0,
            h.play_speed_ntsc == 0 && h.play_speed_pal == 0,
            h.region_flags == 0 && h.expansion_flags == 0 && h.nsf2_reserved == 0,
            h.program_data_length == 0,
    {
        let h = Self {
            magic: [0u8; 5],
            version: 0,
            total_songs: 0,
            starting_song: 0,
            load_address: 0,
            init_address: 0,
            play_address: 0,
            song_name: [0u8; 32],
            artist: [0u8; 32],
            copyright: [0u8; 32],
            play_speed_ntsc: 0,
            bankswitch_init: [0u8; 8],
            play_speed_pal: 0,
            region_flags: 0,
            expansion_flags: 0,
            nsf2_reserved: 0,
            program_data_length: 0,
        };
        assert(h@.magic =~= crate::bytes::zeros(5));
        assert(h@.song_name =~= crate::bytes::zeros(32));
        assert(h@.artist =~= crate::bytes::zeros(32));
        assert(h@.copyright =~= crate::bytes::zeros(32));
        assert(h@.bankswitch_init =~= crate::bytes::zeros(8));
        h
    }

    /// Whether the magic field holds the signature.
    pub fn has_signature(&self) -> (b: bool)
        ensures
            b == (self@.magic == signature()),
    {
        let b = self.magic[0] == 0x4E && self.magic[1] == 0x45 && self.magic[2] == 0x53
            && self.magic[3] == 0x4D && self.magic[4] == 0x1A;
        assert(b == (self@.magic =~= signature()));
        b
    }

    /// The song name as text.
    pub fn song_name_text(&self) -> (text: String)
        ensures
            text@ == crate::text::text_of(self@.song_name),
    {
        crate::text::decode_text(self.song_name.as_slice())
    }

    /// The artist as text.
    pub fn artist_text(&self) -> (text: String)
        ensures
            text@ == crate::text::text_of(self@.artist),
    {
        crate::text::decode_text(self.artist.as_slice())
    }

    /// The copyright holder as text.
    pub fn copyright_text(&self) -> (text: String)
        ensures
            text@ == crate::text::text_of(self@.copyright),
    {
        crate::text::decode_text(self.copyright.as_slice())
    }

    /// Whether the file declares itself as NSF2.
    pub fn is_nsf2(&self) -> (b: bool)
        ensures
            b == (self.version == 2),
    {
        self.version == 2
    }

    /// The NSF2 byte: present only in version 2.
    pub fn nsf2_byte(&self) -> (r: Option<u8>)
        ensures
            r == (if self.version == 2 {
                Some(self.nsf2_reserved)
            } else {
                None
            }),
    {
        if self.version == 2 {
            Some(self.nsf2_reserved)
        } else {
            None
        }
    }

    /// Whether the tune is a PAL tune (bit 0 of the region flags); an NTSC
    /// tune otherwise.
    pub fn is_pal(&self) -> (b: bool)
        ensures
            b == (self.region_flags & 0x01u8 != 0),
    {
        self.region_flags & 0x01u8 != 0
    }

    /// Whether the tune plays in both regions (bit 1 of the region flags).
    pub fn is_dual_region(&self) -> (b: bool)
        ensures
            b == (self.region_flags & 0x02u8 != 0),
    {
        self.region_flags & 0x02u8 != 0
    }

    /// Whether the tune asks for the given expansion chip.
    pub fn uses_chip(&self, chip: ExpansionChip) -> (b: bool)
        ensures
            b == (self.expansion_flags & chip.mask() != 0),
    {
        self.expansion_flags & chip.bit() != 0
    }

    /// Whether any bankswitch register starts non-zero.
    pub fn uses_bankswitching(&self) -> (b: bool)
        ensures
            b == (self@.bankswitch_init != crate::bytes::zeros(8)),
    {
        let mut i: usize = 0;
        while i < 8
            invariant
                i <= 8,
                forall|j: int| 0 <= j < i ==> self.bankswitch_init@[j] == 0,
            decreases 8 - i,
        {
            if self.bankswitch_init[i] != 0 {
                assert(crate::bytes::zeros(8)[i as int] == 0);
                return true;
            }
            i += 1;
        }
        assert(self@.bankswitch_init =~= crate::bytes::zeros(8));
        false
    }

    /// The region that the program length declares.
    pub fn program_region(&self) -> (r: ProgramRegion)
        ensures
            r == self@.program_region(),
    {
        if self.program_data_length == 0 {
            ProgramRegion::RestOfSource
        } else {
            ProgramRegion::Exact(self.program_data_length)
        }
    }

    /// The soft constraints that this record violates.
    pub fn warnings(&self) -> (w: Vec<Warning>)
        ensures
            w@ == self@.warnings(),
    {
        let mut w: Vec<Warning> = Vec::new();
        if self.region_flags & 0xFCu8 != 0 || self.expansion_flags & 0x80u8 != 0 {
            w.push(Warning::ReservedBitsSet);
        }
        if self.starting_song < 1 || self.starting_song > self.total_songs {
            w.push(Warning::StartingSongOutOfRange);
        }
        if self.load_address < 0x8000 || self.init_address < 0x8000 || self.play_address < 0x8000 {
            w.push(Warning::AddressOutOfExpectedRange);
        }
        assert(w@ =~= self@.warnings());
        w
    }
}

impl ProgramRegion {
    /// The bytes of `source` that the region covers, if `source` holds them
    /// all.
    pub open spec fn resolve(self, source: Seq<u8>) -> Option<Seq<u8>> {
        match self {
            ProgramRegion::RestOfSource => if source.len() >= 128 {
                Some(source.subrange(128, source.len() as int))
            } else {
                None
            },
            ProgramRegion::Exact(n) => if 128 + n <= source.len() {
                Some(source.subrange(128, 128 + n))
            } else {
                None
            },
        }
    }

    /// The program data inside `source`, which starts with the header.
    /// `None` where `source` is too short to hold the region.
    pub fn slice<'a>(&self, source: &'a [u8]) -> (r: Option<&'a [u8]>)
        ensures
            match r {
                Some(data) => self.resolve(source@) == Some(data@),
                None => self.resolve(source@) is None,
            },
    {
        let len: usize = source.len();
        if len < HEADER_SIZE {
            return None;
        }
        match *self {
            ProgramRegion::RestOfSource => Some(vstd::slice::slice_subrange(source, HEADER_SIZE, len)),
            ProgramRegion::Exact(n) => {
                if (len - HEADER_SIZE) as u64 >= n as u64 {
                    Some(vstd::slice::slice_subrange(source, HEADER_SIZE, HEADER_SIZE + n as usize))
                } else {
                    None
                }
            },
        }
    }
}

/// Two records with the same model are the same record.
pub proof fn lemma_view_injective(a: NSFHeader, b: NSFHeader)
    requires
        a@ == b@,
    ensures
        a == b,
{
    assert(a.magic =~= b.magic);
    assert(a.song_name =~= b.song_name);
    assert(a.artist =~= b.artist);
    assert(a.copyright =~= b.copyright);
    assert(a.bankswitch_init =~= b.bankswitch_init);
}

} // verus!
