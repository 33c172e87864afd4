//! The tile archive: a POSIX tar of tile blobs.
//!
//! An archive is a run of members, each a 512-byte header block followed by
//! the member's bytes padded to whole blocks, ended by an all-zero block or
//! the end of the buffer. A member's name encodes the tile it holds, as the
//! hierarchy level and the zero-padded three-digit groups of the tile
//! identifier. The parser walks the blocks and yields each member's tile
//! coordinates and byte range; it fails on a malformed header, a truncated
//! member, or a name that is not a tile path.
use vstd::prelude::*;

use crate::Error;

verus! {

/// Size of one archive block.
pub const BLOCK_BYTES: usize = 512;

/// One archive member: the tile coordinates its name encodes and the byte
/// range of its data.
#[derive(Clone, Copy, PartialEq, Eq, Structural, Debug)]
pub struct TarEntry {
    /// Hierarchy level from the member name.
    pub level: u32,
    /// Tile identifier from the member name.
    pub tileid: u32,
    /// Byte offset of the member's data.
    pub off: usize,
    /// Byte length of the member's data.
    pub len: usize,
}

/// Whether the block at `pos` is all zero: the archive terminator.
pub open spec fn spec_block_zero(s: Seq<u8>, pos: int) -> bool {
    forall|i: int| pos <= i < pos + 512 ==> #[trigger] s[i] == 0
}

/// Whether a size field of eleven octal digits and a terminator stands at
/// `lo`.
pub open spec fn spec_octal_digits(s: Seq<u8>, lo: int) -> bool {
    &&& forall|i: int| lo <= i < lo + 11 ==> 48 <= #[trigger] s[i] <= 55
    &&& s[lo + 11] == 0
}

/// The value of the first `n` octal digits at `lo`; a byte outside the
/// octal digits counts as zero.
pub open spec fn spec_octal_val(s: Seq<u8>, lo: int, n: int) -> int
    decreases n,
{
    if n <= 0 {
        0
    } else {
        spec_octal_val(s, lo, n - 1) * 8 + (if 48 <= s[lo + n - 1] <= 55 {
            s[lo + n - 1] - 48
        } else {
            0
        })
    }
}

/// The largest value `n` octal digits can hold.
pub open spec fn spec_octal_max(n: int) -> int {
    if n <= 0 {
        0
    } else if n == 1 {
        7
    } else if n == 2 {
        63
    } else if n == 3 {
        511
    } else if n == 4 {
        4095
    } else if n == 5 {
        32767
    } else if n == 6 {
        262143
    } else if n == 7 {
        2097151
    } else if n == 8 {
        16777215
    } else if n == 9 {
        134217727
    } else if n == 10 {
        1073741823
    } else {
        8589934591
    }
}

/// Whether the byte is a decimal digit.
pub open spec fn spec_is_digit(c: u8) -> bool {
    48 <= c <= 57
}

/// Whether the member name at the header at `pos` is a tile path: one
/// level digit and three three-digit groups, with the tile suffix, ended
/// by the name field's terminator.
pub open spec fn spec_name_ok(s: Seq<u8>, pos: int) -> bool {
    &&& spec_is_digit(s[pos])
    &&& s[pos + 1] == 47
    &&& spec_is_digit(s[pos + 2]) && spec_is_digit(s[pos + 3]) && spec_is_digit(s[pos + 4])
    &&& s[pos + 5] == 47
    &&& spec_is_digit(s[pos + 6]) && spec_is_digit(s[pos + 7]) && spec_is_digit(s[pos + 8])
    &&& s[pos + 9] == 47
    &&& spec_is_digit(s[pos + 10]) && spec_is_digit(s[pos + 11]) && spec_is_digit(s[pos + 12])
    &&& s[pos + 13] == 46 && s[pos + 14] == 103 && s[pos + 15] == 112 && s[pos + 16] == 104
    &&& s[pos + 17] == 0
}

/// The hierarchy level a member name encodes.
pub open spec fn spec_name_level(s: Seq<u8>, pos: int) -> int {
    s[pos] - 48
}

/// The tile identifier a member name encodes: the nine digits of the
/// three groups read as one decimal number.
pub open spec fn spec_name_tileid(s: Seq<u8>, pos: int) -> int {
    (s[pos + 2] - 48) * 100000000 + (s[pos + 3] - 48) * 10000000 + (s[pos + 4] - 48) * 1000000 + (
    s[pos + 6] - 48) * 100000 + (s[pos + 7] - 48) * 10000 + (s[pos + 8] - 48) * 1000 + (s[pos + 10]
        - 48) * 100 + (s[pos + 11] - 48) * 10 + (s[pos + 12] - 48)
}

/// Whether a valid member header stands at `pos`: a tile-path name, an
/// octal size field, the archive magic, and a regular-file type flag.
pub open spec fn spec_header_ok(s: Seq<u8>, pos: int) -> bool {
    &&& spec_name_ok(s, pos)
    &&& spec_octal_digits(s, pos + 124)
    &&& s[pos + 156] == 48 || s[pos + 156] == 0
    &&& s[pos + 257] == 117 && s[pos + 258] == 115 && s[pos + 259] == 116 && s[pos + 260] == 97
        && s[pos + 261] == 114
}

/// The members of the archive from `pos` on, or nothing when a header is
/// malformed or a member is truncated.
pub open spec fn spec_tar_parse(s: Seq<u8>, pos: int) -> Option<Seq<TarEntry>>
    decreases s.len() - pos
        when 0 <= pos <= s.len()
{
    if pos == s.len() {
        Some(Seq::empty())
    } else if pos + 512 > s.len() {
        None
    } else if spec_block_zero(s, pos) {
        Some(Seq::empty())
    } else if !spec_header_ok(s, pos) {
        None
    } else {
        let raw = spec_octal_val(s, pos + 124, 11);
        let size = if raw < 0 {
            0
        } else {
            raw
        };
        let data_end = pos + 512 + 512 * ((size + 511) / 512);
        if data_end > s.len() {
            None
        } else {
            let entry = TarEntry {
                level: spec_name_level(s, pos) as u32,
                tileid: spec_name_tileid(s, pos) as u32,
                off: (pos + 512) as usize,
                len: size as usize,
            };
            match spec_tar_parse(s, data_end) {
                None => None,
                Some(rest) => Some(seq![entry] + rest),
            }
        }
    }
}

/// Whether the block at `pos` is all zero.
fn check_zero_block(b: &Vec<u8>, pos: usize) -> (r: bool)
    requires
        pos + 512 <= b@.len(),
    ensures
        r == spec_block_zero(b@, pos as int),
{
    let blen: usize = b.len();
    let mut j: usize = 0;
    while j < 512
        invariant
            pos + 512 <= b@.len(),
            blen == b@.len(),
            j <= 512,
            forall|i: int| pos <= i < pos + j ==> #[trigger] b@[i] == 0,
        decreases 512 - j,
    {
        if b[pos + j] != 0 {
            return false;
        }
        j = j + 1;
    }
    true
}

/// Whether a valid member header stands at `pos`.
fn check_header(b: &Vec<u8>, pos: usize) -> (r: bool)
    requires
        pos + 512 <= b@.len(),
    ensures
        r == spec_header_ok(b@, pos as int),
{
    let blen: usize = b.len();
    let name_ok = b[pos] >= 48 && b[pos] <= 57 && b[pos + 1] == 47 && b[pos + 2] >= 48 && b[pos + 2]
        <= 57 && b[pos + 3] >= 48 && b[pos + 3] <= 57 && b[pos + 4] >= 48 && b[pos + 4] <= 57 && b[pos
        + 5] == 47 && b[pos + 6] >= 48 && b[pos + 6] <= 57 && b[pos + 7] >= 48 && b[pos + 7] <= 57
        && b[pos + 8] >= 48 && b[pos + 8] <= 57 && b[pos + 9] == 47 && b[pos + 10] >= 48 && b[pos
        + 10] <= 57 && b[pos + 11] >= 48 && b[pos + 11] <= 57 && b[pos + 12] >= 48 && b[pos + 12]
        <= 57 && b[pos + 13] == 46 && b[pos + 14] == 103 && b[pos + 15] == 112 && b[pos + 16] == 104
        && b[pos + 17] == 0;
    if !name_ok {
        return false;
    }
    let mut j: usize = 0;
    while j < 11
        invariant
            pos + 512 <= b@.len(),
            blen == b@.len(),
            j <= 11,
            forall|i: int| pos + 124 <= i < pos + 124 + j ==> 48 <= #[trigger] b@[i] <= 55,
        decreases 11 - j,
    {
        if b[pos + 124 + j] < 48 || b[pos + 124 + j] > 55 {
            return false;
        }
        j = j + 1;
    }
    if b[pos + 135] != 0 {
        return false;
    }
    if !(b[pos + 156] == 48 || b[pos + 156] == 0) {
        return false;
    }
    b[pos + 257] == 117 && b[pos + 258] == 115 && b[pos + 259] == 116 && b[pos + 260] == 97 && b[pos
        + 261] == 114
}

/// Reads the eleven-digit octal size field at `lo`.
fn read_octal(b: &Vec<u8>, lo: usize) -> (r: u64)
    requires
        lo + 12 <= b@.len(),
        spec_octal_digits(b@, lo as int),
    ensures
        r == spec_octal_val(b@, lo as int, 11),
        r < 0x200000000,
{
    let blen: usize = b.len();
    let mut val: u64 = 0;
    let mut j: usize = 0;
    while j < 11
        invariant
            lo + 12 <= b@.len(),
            blen == b@.len(),
            spec_octal_digits(b@, lo as int),
            j <= 11,
            val == spec_octal_val(b@, lo as int, j as int),
            val <= spec_octal_max(j as int),
        decreases 11 - j,
    {
        let d = b[lo + j];
        proof {
            assert(48 <= b@[lo + j] <= 55);
        }
        val = val * 8 + (d - 48) as u64;
        j = j + 1;
        proof {
            assert(spec_octal_val(b@, lo as int, j as int) == spec_octal_val(
                b@,
                lo as int,
                j - 1,
            ) * 8 + (b@[lo + j - 1] - 48));
        }
    }
    val
}

/// Reads the tile coordinates the member name at `pos` encodes.
fn read_name(b: &Vec<u8>, pos: usize) -> (r: (u32, u32))
    requires
        pos + 512 <= b@.len(),
        spec_name_ok(b@, pos as int),
    ensures
        r.0 == spec_name_level(b@, pos as int),
        r.1 == spec_name_tileid(b@, pos as int),
{
    let blen: usize = b.len();
    let level = (b[pos] - 48) as u32;
    let tileid = (b[pos + 2] - 48) as u32 * 100000000 + (b[pos + 3] - 48) as u32 * 10000000 + (b[pos
        + 4] - 48) as u32 * 1000000 + (b[pos + 6] - 48) as u32 * 100000 + (b[pos + 7] - 48) as u32
        * 10000 + (b[pos + 8] - 48) as u32 * 1000 + (b[pos + 10] - 48) as u32 * 100 + (b[pos + 11]
        - 48) as u32 * 10 + (b[pos + 12] - 48) as u32;
    (level, tileid)
}

/// Parses the archive into its member list. Succeeds exactly when every
/// member up to the terminator has a valid header, a tile-path name and a
/// complete data run.
pub fn parse_archive(b: &Vec<u8>) -> (r: Result<Vec<TarEntry>, Error>)
    ensures
        r is Ok <==> spec_tar_parse(b@, 0) is Some,
        r is Ok ==> r->Ok_0@ == spec_tar_parse(b@, 0)->0,
{
    let len: usize = b.len();
    let mut pos: usize = 0;
    let mut out: Vec<TarEntry> = Vec::new();
    while pos < len
        invariant
            len == b@.len(),
            pos <= len,
            spec_tar_parse(b@, 0) is Some <==> spec_tar_parse(b@, pos as int) is Some,
            spec_tar_parse(b@, 0) is Some ==> spec_tar_parse(b@, 0)->0 == out@ + spec_tar_parse(
                b@,
                pos as int,
            )->0,
        decreases len - pos,
    {
        if len - pos < 512 {
            return Err(Error::ArchiveError);
        }
        if check_zero_block(b, pos) {
            proof {
                assert(out@ + spec_tar_parse(b@, pos as int)->0 =~= out@);
            }
            return Ok(out);
        }
        if !check_header(b, pos) {
            return Err(Error::ArchiveError);
        }
        let size = read_octal(b, pos + 124);
        let padded: u64 = 512 * ((size + 511) / 512);
        let rest: u64 = len as u64 - (pos as u64 + 512);
        if padded > rest {
            return Err(Error::ArchiveError);
        }
        let data_end: u64 = pos as u64 + 512 + padded;
        let name = read_name(b, pos);
        let entry = TarEntry {
            level: name.0,
            tileid: name.1,
            off: pos + 512,
            len: size as usize,
        };
        let ghost prev_pos = pos as int;
        let ghost prev_out = out@;
        out.push(entry);
        pos = data_end as usize;
        proof {
            assert(spec_tar_parse(b@, prev_pos) is Some <==> spec_tar_parse(b@, pos as int)
                is Some);
            if spec_tar_parse(b@, pos as int) is Some {
                assert(spec_tar_parse(b@, prev_pos)->0 =~= seq![entry] + spec_tar_parse(
                    b@,
                    pos as int,
                )->0);
                assert(prev_out + spec_tar_parse(b@, prev_pos)->0 =~= out@ + spec_tar_parse(
                    b@,
                    pos as int,
                )->0);
            }
        }
    }
    proof {
        assert(out@ + spec_tar_parse(b@, pos as int)->0 =~= out@);
    }
    Ok(out)
}

} // verus!
