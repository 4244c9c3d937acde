use vstd::prelude::*;
use vstd::slice::slice_subrange;

verus! {

/// A big-endian 24-bit integer starting at `i`.
pub open spec fn be24(d: Seq<u8>, i: int) -> int {
    d[i] as int * 65536 + d[i + 1] as int * 256 + d[i + 2] as int
}

/// A big-endian 32-bit integer starting at `i`.
pub open spec fn be32(d: Seq<u8>, i: int) -> int {
    d[i] as int * 16777216 + d[i + 1] as int * 65536 + d[i + 2] as int * 256 + d[i + 3] as int
}

/// A little-endian 32-bit integer starting at `i`.
pub open spec fn le32(d: Seq<u8>, i: int) -> int {
    d[i] as int + d[i + 1] as int * 256 + d[i + 2] as int * 65536 + d[i + 3] as int * 16777216
}

/// Some byte in `[a, c)` is `=`.
pub open spec fn has_equals(d: Seq<u8>, a: int, c: int) -> bool {
    exists|j: int| a <= j < c && d[j] == 0x3Du8
}

/// `k` comments, each a 32-bit little-endian length and that many bytes
/// holding a `=`, start at `i` and fit in `d`.
pub open spec fn comments_fit(d: Seq<u8>, i: int, k: nat) -> bool
    decreases k,
{
    if k == 0 {
        true
    } else {
        &&& i + 4 <= d.len()
        &&& i + 4 + le32(d, i) <= d.len()
        &&& has_equals(d, i + 4, i + 4 + le32(d, i))
        &&& comments_fit(d, i + 4 + le32(d, i), (k - 1) as nat)
    }
}

/// A Vorbis comment block: vendor string, comment count and comments fit.
pub open spec fn vorbis_fits(d: Seq<u8>) -> bool {
    &&& 4 <= d.len()
    &&& 8 + le32(d, 0) <= d.len()
    &&& comments_fit(d, 8 + le32(d, 0), le32(d, 4 + le32(d, 0)) as nat)
}

/// `k` cue sheet tracks start at `i` and fit in `d`: 36 bytes each, the last
/// of which counts the track's indices, then 12 bytes per index.
pub open spec fn tracks_fit(d: Seq<u8>, i: int, k: nat) -> bool
    decreases k,
{
    if k == 0 {
        true
    } else {
        &&& i + 36 <= d.len()
        &&& i + 36 + 12 * (d[i + 35] as int) <= d.len()
        &&& tracks_fit(d, i + 36 + 12 * (d[i + 35] as int), (k - 1) as nat)
    }
}

/// A cue sheet block: its 396-byte header, whose last byte counts the
/// tracks, and the tracks fit.
pub open spec fn cuesheet_fits(d: Seq<u8>) -> bool {
    396 <= d.len() && tracks_fit(d, 396, d[395] as nat)
}

/// A picture block: type, MIME string, description, four dimensions and the
/// picture data fit.
pub open spec fn picture_fits(d: Seq<u8>) -> bool {
    let m = 8 + be32(d, 4);
    let e = m + 4 + be32(d, m);
    &&& 8 <= d.len()
    &&& m + 4 <= d.len()
    &&& e + 20 <= d.len()
    &&& e + 20 + be32(d, e + 16) <= d.len()
}

/// The body of a metadata block of type `t` holds what its parser reads.
pub open spec fn block_fits(t: u8, d: Seq<u8>) -> bool {
    if t == 0 {
        d.len() >= 34
    } else if t == 2 {
        d.len() >= 4
    } else if t == 4 {
        vorbis_fits(d)
    } else if t == 5 {
        cuesheet_fits(d)
    } else if t == 6 {
        picture_fits(d)
    } else {
        true
    }
}

/// From `p` on, metadata blocks follow one another, each with its full
/// declared length present and a body that fits its type, up to the block
/// flagged as the last.
pub open spec fn blocks_fit(b: Seq<u8>, p: int) -> bool
    decreases b.len() - p,
{
    if p < 0 || p + 4 > b.len() {
        false
    } else {
        let q = p + 4 + be24(b, p + 1);
        &&& q <= b.len()
        &&& block_fits(b[p] & 0x7Fu8, b.subrange(p + 4, q))
        &&& (b[p] & 0x80u8 == 0 ==> blocks_fit(b, q))
    }
}

/// The bytes are the `fLaC` marker at `p`.
pub open spec fn marker_at(b: Seq<u8>, p: int) -> bool {
    &&& 0 <= p
    &&& p + 4 <= b.len()
    &&& b[p] == 0x66u8 && b[p + 1] == 0x4Cu8 && b[p + 2] == 0x61u8 && b[p + 3] == 0x43u8
}

/// Whether the file starts with an ID3v2.2, v2.3 or v2.4 tag.
pub open spec fn starts_with_id3(b: Seq<u8>) -> bool {
    &&& 4 <= b.len()
    &&& b[0] == 0x49u8 && b[1] == 0x44u8 && b[2] == 0x33u8
    &&& 2 <= b[3] <= 4
}

/// Where the `fLaC` marker is looked for: after a leading ID3 tag (its
/// 10-byte header, its size in four 7-bit bytes, and a 10-byte footer when
/// its flags say so), else at the start.
pub open spec fn marker_position(b: Seq<u8>) -> int {
    if starts_with_id3(b) && 10 <= b.len() {
        let size = (b[6] & 0x7Fu8) as int * 0x20_0000 + (b[7] & 0x7Fu8) as int * 0x4000 + (b[8]
            & 0x7Fu8) as int * 0x80 + (b[9] & 0x7Fu8) as int;
        10 + size + if b[5] & 0x10u8 != 0 {
            10int
        } else {
            0int
        }
    } else {
        0
    }
}

/// The metadata of a FLAC file is framed soundly: the marker is in place and
/// every metadata block holds what its reader indexes.
pub open spec fn metadata_framed(b: Seq<u8>) -> bool {
    &&& marker_at(b, marker_position(b))
    &&& blocks_fit(b, marker_position(b) + 4)
}

fn be3(d: &[u8], i: usize) -> (r: u64)
    requires
        i + 3 <= d@.len(),
    ensures
        r == be24(d@, i as int),
{
    (d[i] as u64) * 65536 + (d[i + 1] as u64) * 256 + (d[i + 2] as u64)
}

fn be4(d: &[u8], i: usize) -> (r: u64)
    requires
        i + 4 <= d@.len(),
    ensures
        r == be32(d@, i as int),
{
    (d[i] as u64) * 16777216 + (d[i + 1] as u64) * 65536 + (d[i + 2] as u64) * 256 + (d[i
        + 3] as u64)
}

fn le4(d: &[u8], i: usize) -> (r: u64)
    requires
        i + 4 <= d@.len(),
    ensures
        r == le32(d@, i as int),
{
    (d[i] as u64) + (d[i + 1] as u64) * 256 + (d[i + 2] as u64) * 65536 + (d[i + 3] as u64)
        * 16777216
}

fn equals_in(d: &[u8], a: usize, c: usize) -> (r: bool)
    requires
        a <= c <= d@.len(),
    ensures
        r == has_equals(d@, a as int, c as int),
{
    let mut j = a;
    while j < c
        invariant
            a <= j <= c <= d@.len(),
            forall|k: int| a <= k < j ==> d@[k] != 0x3Du8,
        decreases c - j,
    {
        if d[j] == 0x3D {
            return true;
        }
        j = j + 1;
    }
    false
}

fn comments_fit_from(d: &[u8], start: usize, count: u64) -> (r: bool)
    requires
        start <= d@.len(),
    ensures
        r == comments_fit(d@, start as int, count as nat),
{
    let n = d.len();
    let mut i = start;
    let mut k = count;
    while k > 0
        invariant
            i <= n == d@.len(),
            comments_fit(d@, start as int, count as nat) == comments_fit(d@, i as int, k as nat),
        decreases k,
    {
        if n - i < 4 {
            return false;
        }
        let len = le4(d, i);
        if len > (n - i - 4) as u64 {
            return false;
        }
        let end = i + 4 + len as usize;
        if !equals_in(d, i + 4, end) {
            return false;
        }
        i = end;
        k = k - 1;
    }
    true
}

fn vorbis_fits_exec(d: &[u8]) -> (r: bool)
    ensures
        r == vorbis_fits(d@),
{
    let n = d.len();
    if n < 4 {
        return false;
    }
    let vendor = le4(d, 0);
    if vendor > (n - 4) as u64 || (n - 4 - vendor as usize) < 4 {
        return false;
    }
    let at = 4 + vendor as usize;
    let count = le4(d, at);
    comments_fit_from(d, at + 4, count)
}

fn cuesheet_fits_exec(d: &[u8]) -> (r: bool)
    ensures
        r == cuesheet_fits(d@),
{
    let n = d.len();
    if n < 396 {
        return false;
    }
    let count = d[395];
    let mut i: usize = 396;
    let mut k: u8 = count;
    while k > 0
        invariant
            396 <= i <= n == d@.len(),
            count == d@[395],
            tracks_fit(d@, 396, count as nat) == tracks_fit(d@, i as int, k as nat),
        decreases k,
    {
        proof {
            reveal_with_fuel(tracks_fit, 2);
        }
        if n - i < 36 {
            return false;
        }
        let indices = d[i + 35] as usize;
        if 12 * indices > n - i - 36 {
            return false;
        }
        i = i + 36 + 12 * indices;
        k = k - 1;
    }
    true
}

fn picture_fits_exec(d: &[u8]) -> (r: bool)
    ensures
        r == picture_fits(d@),
{
    let n = d.len();
    if n < 8 {
        return false;
    }
    let mime = be4(d, 4);
    if mime > (n - 8) as u64 || n - 8 - (mime as usize) < 4 {
        return false;
    }
    let m = 8 + mime as usize;
    let desc = be4(d, m);
    if desc > (n - m - 4) as u64 || n - m - 4 - (desc as usize) < 20 {
        return false;
    }
    let e = m + 4 + desc as usize;
    let data = be4(d, e + 16);
    data <= (n - e - 20) as u64
}

fn block_fits_exec(t: u8, d: &[u8]) -> (r: bool)
    ensures
        r == block_fits(t, d@),
{
    if t == 0 {
        d.len() >= 34
    } else if t == 2 {
        d.len() >= 4
    } else if t == 4 {
        vorbis_fits_exec(d)
    } else if t == 5 {
        cuesheet_fits_exec(d)
    } else if t == 6 {
        picture_fits_exec(d)
    } else {
        true
    }
}

/// Whether the metadata of `bytes` is framed soundly: the `fLaC` marker,
/// after an optional leading ID3 tag, then metadata blocks whose declared
/// lengths are present and whose bodies hold what each block type's reader
/// indexes, up to the block flagged as the last.
pub fn check_metadata_framing(bytes: &[u8]) -> (r: bool)
    ensures
        r == metadata_framed(bytes@),
{
    let n = bytes.len();
    let mut p: usize = 0;
    if n >= 10 && bytes[0] == 0x49 && bytes[1] == 0x44 && bytes[2] == 0x33 && 2 <= bytes[3]
        && bytes[3] <= 4 {
        let size = ((bytes[6] & 0x7F) as u64) * 0x20_0000 + ((bytes[7] & 0x7F) as u64) * 0x4000
            + ((bytes[8] & 0x7F) as u64) * 0x80 + ((bytes[9] & 0x7F) as u64);
        let skip: u64 = if bytes[5] & 0x10 != 0 {
            size + 20
        } else {
            size + 10
        };
        if skip > n as u64 {
            return false;
        }
        p = skip as usize;
    }
    assert(p == marker_position(bytes@));
    if n - p < 4 || bytes[p] != 0x66 || bytes[p + 1] != 0x4C || bytes[p + 2] != 0x61 || bytes[p
        + 3] != 0x43 {
        return false;
    }
    p = p + 4;
    loop
        invariant
            p <= n == bytes@.len(),
            metadata_framed(bytes@) == blocks_fit(bytes@, p as int),
        decreases n - p,
    {
        if n - p < 4 {
            return false;
        }
        let len = be3(bytes, p + 1);
        if len > (n - p - 4) as u64 {
            return false;
        }
        let q = p + 4 + len as usize;
        let kind = bytes[p] & 0x7F;
        if !block_fits_exec(kind, slice_subrange(bytes, p + 4, q)) {
            return false;
        }
        if bytes[p] & 0x80 != 0 {
            return true;
        }
        p = q;
    }
}

} // verus!
