//! Writing a record back into its 128 bytes.

use vstd::prelude::*;
use crate::bytes::{write_le16, write_le24, write_slot};
use crate::header::NSFHeader;
use crate::layout::serialize;

verus! {

/// Writes the record as the 128 bytes of a header.
pub fn encode(header: &NSFHeader) -> (out: Vec<u8>)
    requires
        header.wf(),
    ensures
        out@ == serialize(header@),
        out@.len() == 128,
{
    let mut out: Vec<u8> = Vec::with_capacity(128);
    write_slot(&mut out, header.magic.as_slice());
    out.push(header.version);
    out.push(header.total_songs);
    out.push(header.starting_song);
    write_le16(&mut out, header.load_address);
    write_le16(&mut out, header.init_address);
    write_le16(&mut out, header.play_address);
    write_slot(&mut out, header.song_name.as_slice());
    write_slot(&mut out, header.artist.as_slice());
    write_slot(&mut out, header.copyright.as_slice());
    write_le16(&mut out, header.play_speed_ntsc);
    write_slot(&mut out, header.bankswitch_init.as_slice());
    write_le16(&mut out, header.play_speed_pal);
    out.push(header.region_flags);
    out.push(header.expansion_flags);
    out.push(header.nsf2_reserved);
    write_le24(&mut out, header.program_data_length);
    assert(out@ =~= serialize(header@));
    out
}

} // verus!

