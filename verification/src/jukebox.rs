//! The disc-reading side of the music player: big-endian field readers for
//! the disc's file table, the mapping from a music file's name to the stage
//! it belongs to, and the translation of standard disc offsets into offsets
//! of a block-compressed disc image.

use vstd::prelude::*;
use vstd::string::StringSliceAdditionalSpecFns;

verus! {

/// Messages the music player's worker understands.
#[derive(Clone, Copy, Debug)]
pub enum Message {
    StartSong(u64, usize),
    StopMusic,
    SetVolume(VolumeControl, u8),
    JukeboxDropped,
}

/// Which of the three volume knobs a volume message turns.
#[derive(Clone, Copy, Debug, PartialEq, Eq, Structural)]
pub enum VolumeControl {
    Melee,
    DolphinSystem,
    DolphinMusic,
}

/// The value of the three big-endian bytes of `bytes` at `offset`.
pub open spec fn spec_read_u24(bytes: Seq<u8>, offset: int) -> u32
    recommends
        0 <= offset,
        offset + 3 <= bytes.len(),
{
    (bytes[offset] * 0x10000 + bytes[offset + 1] * 0x100 + bytes[offset + 2]) as u32
}

/// The value of the four big-endian bytes of `bytes` at `offset`.
pub open spec fn spec_read_u32(bytes: Seq<u8>, offset: int) -> u32 {
    (bytes[offset] * 0x1000000 + bytes[offset + 1] * 0x10000 + bytes[offset + 2] * 0x100 + bytes[
        offset + 3]) as u32
}

/// Reads an unsigned 24-bit big-endian integer out of a byte slice.
pub fn read_u24(bytes: &[u8], offset: usize) -> (r: u32)
    requires
        offset + 3 <= bytes@.len(),
    ensures
        r == spec_read_u24(bytes@, offset as int),
{
    let b0 = bytes[offset] as u32;
    let b1 = bytes[offset + 1] as u32;
    let b2 = bytes[offset + 2] as u32;
    b0 * 0x10000 + b1 * 0x100 + b2
}

/// Reads an unsigned 32-bit big-endian integer out of a byte slice.
pub fn read_u32(bytes: &[u8], offset: usize) -> (r: u32)
    requires
        offset + 4 <= bytes@.len(),
    ensures
        r == spec_read_u32(bytes@, offset as int),
{
    let b0 = bytes[offset] as u32;
    let b1 = bytes[offset + 1] as u32;
    let b2 = bytes[offset + 2] as u32;
    let b3 = bytes[offset + 3] as u32;
    proof {
        assert(b0 * 0x1000000 + b1 * 0x10000 + b2 * 0x100 + b3 <= 0xffffffff) by {
            assert(b0 <= 255 && b1 <= 255 && b2 <= 255 && b3 <= 255);
        }
    }
    b0 * 0x1000000 + b1 * 0x10000 + b2 * 0x100 + b3
}

/// The stage a music file's name belongs to, when it is one the player
/// knows.
pub open spec fn spec_hps_stage(hps: Seq<char>) -> Option<Seq<char>> {
    if hps == ("hyaku2.hps")@ || hps == ("sp_end.hps")@ {
        Some(("final_destination")@)
    } else if hps == ("hyaku.hps")@ || hps == ("sp_zako.hps")@ {
        Some(("battlefield")@)
    } else if hps == ("ystory.hps")@ {
        Some(("yoshis_story")@)
    } else if hps == ("izumi.hps")@ {
        Some(("fountain_of_dreams")@)
    } else if hps == ("old_kb.hps")@ {
        Some(("dreamland")@)
    } else if hps == ("pokesta.hps")@ || hps == ("pstadium.hps")@ {
        Some(("pokemon_stadium")@)
    } else if hps == ("menu3.hps")@ || hps == ("menu02.hps")@ || hps == ("menu01.hps")@ {
        Some(("menu")@)
    } else if hps == ("target.hps")@ {
        Some(("target_test")@)
    } else if hps == ("yorster.hps")@ || hps == ("smari3.hps")@ {
        Some(("yoshis_island")@)
    } else if hps == ("old_ys.hps")@ {
        Some(("yoshis_island_2")@)
    } else if hps == ("old_dk.hps")@ {
        Some(("kongo_jungle")@)
    } else if hps == ("kraid.hps")@ {
        Some(("brinstar_depths")@)
    } else if hps == ("fourside.hps")@ {
        Some(("fourside")@)
    } else if hps == ("bigblue.hps")@ || hps == ("mrider.hps")@ {
        Some(("big_blue")@)
    } else if hps == ("pura.hps")@ {
        Some(("poke_floats")@)
    } else if hps == ("inis1_01.hps")@ || hps == ("docmari.hps")@ {
        Some(("kingdom")@)
    } else if hps == ("inis2_01.hps")@ {
        Some(("kingdom_2")@)
    } else if hps == ("zebes.hps")@ {
        Some(("brinstar")@)
    } else if hps == ("onetto2.hps")@ || hps == ("onetto.hps")@ {
        Some(("onett")@)
    } else if hps == ("mutecity.hps")@ {
        Some(("mute_city")@)
    } else if hps == ("rcruise.hps")@ {
        Some(("rainbow_cruise")@)
    } else if hps == ("kongo.hps")@ {
        Some(("jungle_japes")@)
    } else if hps == ("shrine.hps")@ {
        Some(("temple")@)
    } else if hps == ("greens.hps")@ {
        Some(("green_greens")@)
    } else if hps == ("venom.hps")@ {
        Some(("venom")@)
    } else if hps == ("baloon.hps")@ || hps == ("icemt.hps")@ {
        Some(("icicle_mountain")@)
    } else if hps == ("castle.hps")@ {
        Some(("princess_peachs_castle")@)
    } else if hps == ("garden.hps")@ {
        Some(("kongo_jungle")@)
    } else if hps == ("saria.hps")@ || hps == ("greatbay.hps")@ {
        Some(("great_bay")@)
    } else if hps == ("corneria.hps")@ {
        Some(("corneria")@)
    } else if hps == ("flatzone.hps")@ {
        Some(("flatzone")@)
    } else {
        None
    }
}

/// Converts a music file's name to the stage it plays on, for names the
/// player knows.
pub fn hps_to_stage(hps: &str) -> (r: Option<String>)
    ensures
        match r {
            Some(stage) => spec_hps_stage(hps@) == Some(stage@),
            None => spec_hps_stage(hps@) is None,
        },
{
    if crate::strutil::str_eq(hps, "hyaku2.hps") || crate::strutil::str_eq(hps, "sp_end.hps") {
        Some(("final_destination").to_owned())
    } else if crate::strutil::str_eq(hps, "hyaku.hps") || crate::strutil::str_eq(hps, "sp_zako.hps") {
        Some(("battlefield").to_owned())
    } else if crate::strutil::str_eq(hps, "ystory.hps") {
        Some(("yoshis_story").to_owned())
    } else if crate::strutil::str_eq(hps, "izumi.hps") {
        Some(("fountain_of_dreams").to_owned())
    } else if crate::strutil::str_eq(hps, "old_kb.hps") {
        Some(("dreamland").to_owned())
    } else if crate::strutil::str_eq(hps, "pokesta.hps") || crate::strutil::str_eq(hps, "pstadium.hps") {
        Some(("pokemon_stadium").to_owned())
    } else if crate::strutil::str_eq(hps, "menu3.hps") || crate::strutil::str_eq(hps, "menu02.hps") || crate::strutil::str_eq(hps, "menu01.hps") {
        Some(("menu").to_owned())
    } else if crate::strutil::str_eq(hps, "target.hps") {
        Some(("target_test").to_owned())
    } else if crate::strutil::str_eq(hps, "yorster.hps") || crate::strutil::str_eq(hps, "smari3.hps") {
        Some(("yoshis_island").to_owned())
    } else if crate::strutil::str_eq(hps, "old_ys.hps") {
        Some(("yoshis_island_2").to_owned())
    } else if crate::strutil::str_eq(hps, "old_dk.hps") {
        Some(("kongo_jungle").to_owned())
    } else if crate::strutil::str_eq(hps, "kraid.hps") {
        Some(("brinstar_depths").to_owned())
    } else if crate::strutil::str_eq(hps, "fourside.hps") {
        Some(("fourside").to_owned())
    } else if crate::strutil::str_eq(hps, "bigblue.hps") || crate::strutil::str_eq(hps, "mrider.hps") {
        Some(("big_blue").to_owned())
    } else if crate::strutil::str_eq(hps, "pura.hps") {
        Some(("poke_floats").to_owned())
    } else if crate::strutil::str_eq(hps, "inis1_01.hps") || crate::strutil::str_eq(hps, "docmari.hps") {
        Some(("kingdom").to_owned())
    } else if crate::strutil::str_eq(hps, "inis2_01.hps") {
        Some(("kingdom_2").to_owned())
    } else if crate::strutil::str_eq(hps, "zebes.hps") {
        Some(("brinstar").to_owned())
    } else if crate::strutil::str_eq(hps, "onetto2.hps") || crate::strutil::str_eq(hps, "onetto.hps") {
        Some(("onett").to_owned())
    } else if crate::strutil::str_eq(hps, "mutecity.hps") {
        Some(("mute_city").to_owned())
    } else if crate::strutil::str_eq(hps, "rcruise.hps") {
        Some(("rainbow_cruise").to_owned())
    } else if crate::strutil::str_eq(hps, "kongo.hps") {
        Some(("jungle_japes").to_owned())
    } else if crate::strutil::str_eq(hps, "shrine.hps") {
        Some(("temple").to_owned())
    } else if crate::strutil::str_eq(hps, "greens.hps") {
        Some(("green_greens").to_owned())
    } else if crate::strutil::str_eq(hps, "venom.hps") {
        Some(("venom").to_owned())
    } else if crate::strutil::str_eq(hps, "baloon.hps") || crate::strutil::str_eq(hps, "icemt.hps") {
        Some(("icicle_mountain").to_owned())
    } else if crate::strutil::str_eq(hps, "castle.hps") {
        Some(("princess_peachs_castle").to_owned())
    } else if crate::strutil::str_eq(hps, "garden.hps") {
        Some(("kongo_jungle").to_owned())
    } else if crate::strutil::str_eq(hps, "saria.hps") || crate::strutil::str_eq(hps, "greatbay.hps") {
        Some(("great_bay").to_owned())
    } else if crate::strutil::str_eq(hps, "corneria.hps") {
        Some(("corneria").to_owned())
    } else if crate::strutil::str_eq(hps, "flatzone.hps") {
        Some(("flatzone").to_owned())
    } else {
        None
    }
}

/// The layout of a block-compressed disc image: the size of each block and
/// which blocks of the standard image are present, in order.
#[derive(Clone, Debug)]
pub struct CisoHeader {
    pub block_size: u32,
    pub block_map: Vec<bool>,
}

/// How many of the first `n` blocks are present.
pub open spec fn spec_blocks_present(map: Seq<bool>, n: int) -> int
    decreases n,
        when 0 <= n <= map.len()
{
    if n <= 0 {
        0
    } else {
        spec_blocks_present(map, n - 1) + (if map[n - 1] {
            1int
        } else {
            0int
        })
    }
}

/// At most `n` of the first `n` blocks are present.
proof fn lemma_blocks_present_bound(map: Seq<bool>, n: int)
    requires
        0 <= n <= map.len(),
    ensures
        0 <= spec_blocks_present(map, n) <= n,
    decreases n,
{
    if n > 0 {
        lemma_blocks_present_bound(map, n - 1);
    }
}

/// Where an offset of the standard disc image falls in a block-compressed
/// one: behind the compressed image's header come only the blocks that are
/// present, in order, so the offset lands in its block's position among the
/// present blocks — or nowhere, when its block was dropped.
pub open spec fn spec_ciso_offset(h: CisoHeader, offset: u64) -> Option<int>
    recommends
        h.block_size > 0,
{
    let block = offset as int / h.block_size as int;
    if block < h.block_map@.len() && h.block_map@[block] {
        Some(0x8000 + spec_blocks_present(h.block_map@, block) * h.block_size as int + offset as int % h.block_size as int)
    } else {
        None
    }
}

/// Caches the disc-image inspection done up front; afterwards it turns
/// offsets of the standard image into offsets of the image on hand, which
/// differ when that image is block-compressed.
#[derive(Clone, Debug)]
pub struct OffsetLocator(pub Option<CisoHeader>);

impl OffsetLocator {
    /// Determines the real offset of a standard-image offset in the image on
    /// hand: unchanged for a standard image, translated block-wise for a
    /// compressed one, and nothing when the offset's block is absent.
    pub fn get_real_offset(&self, offset: u64) -> (r: Option<u64>)
        requires
            self.0 matches Some(h) ==> h.block_size > 0 && offset + h.block_size + 0x8000
                <= u64::MAX,
        ensures
            match self.0 {
                Some(h) => (match r {
                    Some(v) => spec_ciso_offset(h, offset) == Some(v as int),
                    None => spec_ciso_offset(h, offset) is None,
                }),
                None => r == Some(offset),
            },
    {
        match &self.0 {
            Some(h) => {
                let block_size = h.block_size as u64;
                let block = offset / block_size;
                if block < h.block_map.len() as u64 && h.block_map[block as usize] {
                    let idx = block as usize;
                    let mut present: u64 = 0;
                    let mut i: usize = 0;
                    proof {
                        lemma_blocks_present_bound(h.block_map@, idx as int);
                    }
                    while i < idx
                        invariant
                            0 <= i <= idx < h.block_map@.len(),
                            present == spec_blocks_present(h.block_map@, i as int),
                            present <= i,
                        decreases idx - i,
                    {
                        if h.block_map[i] {
                            present = present + 1;
                        }
                        i = i + 1;
                    }
                    let within = offset % block_size;
                    proof {
                        vstd::arithmetic::div_mod::lemma_fundamental_div_mod(
                            offset as int,
                            block_size as int,
                        );
                        vstd::arithmetic::mul::lemma_mul_inequality(
                            present as int,
                            block as int,
                            block_size as int,
                        );
                        vstd::arithmetic::div_mod::lemma_mod_division_less_than_divisor(
                            offset as int,
                            block_size as int,
                        );
                    }
                    Some(0x8000 + present * block_size + within)
                } else {
                    None
                }
            },
            None => Some(offset),
        }
    }
}

} // verus!
