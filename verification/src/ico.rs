//! Choosing the image to load from an ICO file: the largest one.
//!
//! An ICO file starts with a 6-byte header whose last two bytes count the
//! images, followed by one 16-byte directory entry per image: width, height
//! (0 meaning 256), four other bytes, then the image's byte length and byte
//! offset as little-endian 32-bit numbers.

use vstd::prelude::*;

verus! {

/// Little-endian 32-bit number at `at`.
pub open spec fn le32(d: Seq<u8>, at: int) -> nat {
    (d[at] + 256 * d[at + 1] + 65536 * d[at + 2] + 16777216 * d[at + 3]) as nat
}

/// Number of images announced by the header.
pub open spec fn icon_count(d: Seq<u8>) -> nat {
    (d[4] + 256 * d[5]) as nat
}

/// Position of directory entry `i`.
pub open spec fn entry_pos(i: int) -> int {
    6 + 16 * i
}

/// Directory entry `i` lies within the data.
pub open spec fn entry_in_bounds(d: Seq<u8>, i: int) -> bool {
    0 <= i && entry_pos(i) + 16 <= d.len()
}

/// Size of image `i`: the larger of width and height, 256 when the width
/// byte is 0.
pub open spec fn entry_size(d: Seq<u8>, i: int) -> nat {
    let w = d[entry_pos(i)];
    let h = d[entry_pos(i) + 1];
    if w == 0 {
        256
    } else if w >= h {
        w as nat
    } else {
        h as nat
    }
}

/// Byte length of image `i`.
pub open spec fn entry_len(d: Seq<u8>, i: int) -> nat {
    le32(d, entry_pos(i) + 8)
}

/// Byte offset of image `i`.
pub open spec fn entry_offset(d: Seq<u8>, i: int) -> nat {
    le32(d, entry_pos(i) + 12)
}

/// Image `i` can be used: its entry and its bytes lie within the data.
pub open spec fn entry_valid(d: Seq<u8>, i: int) -> bool {
    entry_in_bounds(d, i) && entry_offset(d, i) + entry_len(d, i) <= d.len()
}

/// Index of the image chosen among the first `k`: the first usable one of
/// the largest size.
pub open spec fn best_entry(d: Seq<u8>, k: nat) -> Option<int>
    decreases k,
{
    if k == 0 {
        None
    } else {
        let prev = best_entry(d, (k - 1) as nat);
        let i = k - 1;
        if entry_valid(d, i) && (prev is None || entry_size(d, i) > entry_size(d, prev->0)) {
            Some(i)
        } else {
            prev
        }
    }
}

/// Offset and length of the image to load, if any.
pub open spec fn ico_choice(d: Seq<u8>) -> Option<(nat, nat)> {
    if d.len() < 6 {
        None
    } else {
        match best_entry(d, icon_count(d)) {
            Some(i) => Some((entry_offset(d, i), entry_len(d, i))),
            None => None,
        }
    }
}

/// Entries past the end of the data change nothing.
proof fn lemma_best_entry_stable(d: Seq<u8>, i: nat, k: nat)
    requires
        i <= k,
        !entry_in_bounds(d, i as int),
    ensures
        best_entry(d, k) == best_entry(d, i),
    decreases k,
{
    if k > i {
        lemma_best_entry_stable(d, i, (k - 1) as nat);
        assert(!entry_in_bounds(d, k - 1));
    }
}

/// The chosen image is usable, no usable image is larger, and every usable
/// image before it is strictly smaller; there is no choice exactly when no
/// image is usable.
pub proof fn lemma_best_entry_is_largest(d: Seq<u8>, k: nat)
    ensures
        best_entry(d, k) matches Some(i) ==> {
            &&& 0 <= i < k
            &&& entry_valid(d, i)
            &&& forall|j: int| 0 <= j < k && entry_valid(d, j) ==> entry_size(d, j) <= entry_size(d, i)
            &&& forall|j: int| 0 <= j < i && entry_valid(d, j) ==> entry_size(d, j) < entry_size(d, i)
        },
        best_entry(d, k) is None ==> forall|j: int| 0 <= j < k ==> !entry_valid(d, j),
    decreases k,
{
    if k > 0 {
        lemma_best_entry_is_largest(d, (k - 1) as nat);
    }
}

/// Little-endian 32-bit number from four bytes.
fn read_le32(d: &[u8], at: usize) -> (r: u32)
    requires
        at + 4 <= d@.len(),
    ensures
        r as nat == le32(d@, at as int),
{
    d[at] as u32 + (d[at + 1] as u32) * 256 + (d[at + 2] as u32) * 65536 + (d[at + 3] as u32)
        * 16777216
}

/// Offset and length of the largest usable image of an ICO file (the first
/// of them when several share the largest size), or `None` when the data is
/// too short or no image is usable. Entries are read until the announced
/// count or the end of the data.
pub fn ico_largest_image(data: &[u8]) -> (r: Option<(usize, u32)>)
    ensures
        match ico_choice(data@) {
            Some((off, len)) => r matches Some((o, l)) && o as nat == off && l as nat == len,
            None => r is None,
        },
{
    if data.len() < 6 {
        return None;
    }
    let count = (data[4] as usize) + (data[5] as usize) * 256;
    let ghost d = data@;
    let mut best: Option<(usize, usize, u32)> = None;
    let ghost mut best_i: int = 0;
    let mut i: usize = 0;
    while i < count
        invariant
            d == data@,
            d.len() >= 6,
            count == icon_count(d),
            i <= count,
            match best_entry(d, i as nat) {
                Some(bi) => best matches Some((bs, bo, bl)) && bi == best_i && bs as nat
                    == entry_size(d, bi) && bo as nat == entry_offset(d, bi) && bl as nat
                    == entry_len(d, bi),
                None => best is None,
            },
        ensures
            d == data@,
            d.len() >= 6,
            count == icon_count(d),
            match best_entry(d, count as nat) {
                Some(bi) => best matches Some((bs, bo, bl)) && bo as nat == entry_offset(d, bi)
                    && bl as nat == entry_len(d, bi),
                None => best is None,
            },
        decreases count - i,
    {
        let entry = 6 + i * 16;
        if entry + 16 > data.len() {
            proof {
                lemma_best_entry_stable(d, i as nat, count as nat);
            }
            break;
        }
        let width = data[entry] as usize;
        let height = data[entry + 1] as usize;
        let size = if width == 0 {
            256
        } else if width >= height {
            width
        } else {
            height
        };
        let len = read_le32(data, entry + 8);
        let off = read_le32(data, entry + 12);
        let fits = (off as u64) + (len as u64) <= data.len() as u64;
        let better = match best {
            None => true,
            Some((bs, _, _)) => size > bs,
        };
        if fits && better {
            best = Some((size, off as usize, len));
            proof {
                best_i = i as int;
            }
        }
        i = i + 1;
    }
    match best {
        Some((_, off, len)) => Some((off, len)),
        None => None,
    }
}

} // verus!
