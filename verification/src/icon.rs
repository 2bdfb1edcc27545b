//! Choosing one bitmap out of a multi-resolution icon container.
//!
//! A container starts with a six-byte header (a reserved field, a type field
//! and the number of entries, two bytes each, little-endian). The directory
//! follows: sixteen bytes per entry, of which the first is the nominal width,
//! bytes 8..12 the size of the image data and bytes 12..16 its offset from
//! the start of the container.

use vstd::prelude::*;

verus! {

/// Length of the container header in bytes.
pub const HEADER_LEN: usize = 6;

/// Length of one directory entry in bytes.
pub const ENTRY_LEN: usize = 16;

/// The width that a stored width of zero stands for.
pub const LARGEST_WIDTH: u16 = 256;

/// One directory entry: the nominal width in pixels and the place of the
/// image data inside the container.
#[derive(Clone, Copy, Debug, PartialEq, Eq, Structural)]
pub struct IconEntry {
    pub width: u16,
    pub size: u32,
    pub offset: u32,
}

/// Why no image could be taken from a container.
#[derive(Clone, Copy, Debug, PartialEq, Eq, Structural)]
pub enum IconError {
    /// The buffer is shorter than the header.
    TruncatedHeader,
    /// The buffer ends before the directory that the header announces.
    TruncatedDirectory,
    /// The header announces no entry.
    Empty,
    /// The chosen entry's data region does not lie inside the buffer.
    ImageOutOfBounds,
}

/// The little-endian 16-bit number at `at`.
pub open spec fn le_u16(data: Seq<u8>, at: int) -> int {
    data[at] + 256 * data[at + 1]
}

/// The little-endian 32-bit number at `at`.
pub open spec fn le_u32(data: Seq<u8>, at: int) -> int {
    data[at] + 256 * data[at + 1] + 65536 * data[at + 2] + 16777216 * data[at + 3]
}

/// The width that a stored width byte denotes: zero stands for the largest
/// size, every other value for itself.
pub open spec fn nominal_width(stored: u8) -> int {
    if stored == 0 {
        256
    } else {
        stored as int
    }
}

/// The number of entries that the header announces.
pub open spec fn declared_count(data: Seq<u8>) -> int {
    le_u16(data, 4)
}

/// The header and the whole directory lie inside the buffer.
pub open spec fn has_directory(data: Seq<u8>) -> bool {
    &&& data.len() >= 6
    &&& 6 + 16 * declared_count(data) <= data.len()
}

/// The `i`-th directory entry.
pub open spec fn entry_at(data: Seq<u8>, i: int) -> IconEntry {
    IconEntry {
        width: nominal_width(data[6 + 16 * i]) as u16,
        size: le_u32(data, 6 + 16 * i + 8) as u32,
        offset: le_u32(data, 6 + 16 * i + 12) as u32,
    }
}

/// The directory of a container, in the order in which it is stored.
pub open spec fn directory(data: Seq<u8>) -> Seq<IconEntry> {
    Seq::new(declared_count(data) as nat, |i: int| entry_at(data, i))
}

/// Some entry has exactly the wanted width.
pub open spec fn has_exact(dir: Seq<IconEntry>, target: int) -> bool {
    exists|j: int| 0 <= j < dir.len() && (#[trigger] dir[j]).width == target
}

/// Some entry is at least as wide as wanted.
pub open spec fn has_at_least(dir: Seq<IconEntry>, target: int) -> bool {
    exists|j: int| 0 <= j < dir.len() && (#[trigger] dir[j]).width >= target
}

/// Entry `k` is the one that the selection policy picks for `target`:
/// an entry of exactly that width if there is one (the last of them);
/// otherwise the narrowest entry that is at least that wide; otherwise the
/// widest entry. Of several entries of the winning width that are not exact
/// matches, the first is picked.
pub open spec fn is_choice(dir: Seq<IconEntry>, target: int, k: int) -> bool {
    &&& 0 <= k < dir.len()
    &&& if has_exact(dir, target) {
        &&& dir[k].width == target
        &&& forall|j: int| k < j < dir.len() ==> (#[trigger] dir[j]).width != target
    } else if has_at_least(dir, target) {
        &&& dir[k].width >= target
        &&& forall|j: int|
            0 <= j < dir.len() && (#[trigger] dir[j]).width >= target ==> dir[k].width
                <= dir[j].width
        &&& forall|j: int| 0 <= j < k ==> (#[trigger] dir[j]).width != dir[k].width
    } else {
        &&& forall|j: int| 0 <= j < dir.len() ==> (#[trigger] dir[j]).width <= dir[k].width
        &&& forall|j: int| 0 <= j < k ==> (#[trigger] dir[j]).width != dir[k].width
    }
}

/// The index that the selection policy picks (meaningful for a directory
/// that is not empty).
pub open spec fn choice(dir: Seq<IconEntry>, target: int) -> int {
    choose|k: int| is_choice(dir, target, k)
}

/// The policy picks at most one entry.
pub proof fn lemma_choice_unique(dir: Seq<IconEntry>, target: int, a: int, b: int)
    requires
        is_choice(dir, target, a),
        is_choice(dir, target, b),
    ensures
        a == b,
{
    if a < b {
        assert(dir[a].width == dir[b].width);
    } else if b < a {
        assert(dir[b].width == dir[a].width);
    }
}

/// An index that meets the policy is the chosen one.
pub proof fn lemma_choice_is(dir: Seq<IconEntry>, target: int, k: int)
    requires
        is_choice(dir, target, k),
    ensures
        choice(dir, target) == k,
{
    lemma_choice_unique(dir, target, k, choice(dir, target));
}

/// What `select_image` returns for a container and a wanted width: the
/// bounds of the chosen entry's data region, or the reason why there is none.
pub open spec fn image_range(data: Seq<u8>, target: int) -> Result<(int, int), IconError> {
    if data.len() < 6 {
        Err(IconError::TruncatedHeader)
    } else if data.len() < 6 + 16 * declared_count(data) {
        Err(IconError::TruncatedDirectory)
    } else if declared_count(data) == 0 {
        Err(IconError::Empty)
    } else {
        let e = directory(data)[choice(directory(data), target)];
        if e.offset + e.size > data.len() {
            Err(IconError::ImageOutOfBounds)
        } else {
            Ok((e.offset as int, e.offset + e.size))
        }
    }
}

fn read_u16(data: &[u8], at: usize) -> (r: u16)
    requires
        at + 2 <= data@.len(),
    ensures
        r == le_u16(data@, at as int),
{
    let lo: u16 = data[at] as u16;
    let hi: u16 = data[at + 1] as u16;
    lo + hi * 256
}

fn read_u32(data: &[u8], at: usize) -> (r: u32)
    requires
        at + 4 <= data@.len(),
    ensures
        r == le_u32(data@, at as int),
{
    let b0: u32 = data[at] as u32;
    let b1: u32 = data[at + 1] as u32;
    let b2: u32 = data[at + 2] as u32;
    let b3: u32 = data[at + 3] as u32;
    b0 + b1 * 256 + b2 * 65536 + b3 * 16777216
}

/// Reads the directory of a container.
pub fn read_directory(data: &[u8]) -> (r: Result<Vec<IconEntry>, IconError>)
    ensures
        match r {
            Ok(dir) => has_directory(data@) && dir@ == directory(data@),
            Err(e) => e == (if data@.len() < 6 {
                IconError::TruncatedHeader
            } else {
                IconError::TruncatedDirectory
            }) && !has_directory(data@),
        },
        r matches Ok(dir) ==> forall|j: int|
            0 <= j < dir@.len() ==> 1 <= (#[trigger] dir@[j]).width <= 256,
{
    if data.len() < HEADER_LEN {
        return Err(IconError::TruncatedHeader);
    }
    let count: usize = read_u16(data, 4) as usize;
    if (data.len() - HEADER_LEN) / ENTRY_LEN < count {
        return Err(IconError::TruncatedDirectory);
    }
    let mut dir: Vec<IconEntry> = Vec::new();
    let mut i: usize = 0;
    while i < count
        invariant
            i <= count,
            count == declared_count(data@),
            6 + 16 * count <= data@.len(),
            dir@.len() == i,
            forall|j: int| 0 <= j < i ==> dir@[j] == entry_at(data@, j),
            forall|j: int| 0 <= j < i ==> 1 <= (#[trigger] dir@[j]).width <= 256,
        decreases count - i,
    {
        let base: usize = HEADER_LEN + ENTRY_LEN * i;
        let stored: u8 = data[base];
        let width: u16 = if stored == 0 {
            LARGEST_WIDTH
        } else {
            stored as u16
        };
        let size: u32 = read_u32(data, base + 8);
        let offset: u32 = read_u32(data, base + 12);
        dir.push(IconEntry { width, size, offset });
        i = i + 1;
    }
    assert(dir@ =~= directory(data@));
    Ok(dir)
}

/// Whether an entry `e` is to be preferred to an entry `b` that stands
/// before it in the directory.
pub open spec fn displaces(e: IconEntry, b: IconEntry, target: int) -> bool {
    ||| e.width == target
    ||| b.width != target && e.width >= target && (b.width < target || e.width < b.width)
    ||| b.width < target && e.width > b.width
}

/// The choice in a directory follows from the choice in the directory
/// without its last entry: it is the last entry if that is to be preferred
/// to the earlier choice, and the earlier choice if not.
pub proof fn lemma_choice_step(dir: Seq<IconEntry>, target: int, best: int)
    requires
        dir.len() >= 2,
        is_choice(dir.drop_last(), target, best),
    ensures
        is_choice(
            dir,
            target,
            if displaces(dir.last(), dir[best], target) {
                dir.len() - 1
            } else {
                best
            },
        ),
{
    let before = dir.drop_last();
    let e = dir.last();
    assert forall|j: int| 0 <= j < before.len() implies #[trigger] before[j] == dir[j] by {}
    assert(has_exact(dir, target) == (has_exact(before, target) || e.width == target)) by {
        if has_exact(before, target) {
            let j = choose|j: int| 0 <= j < before.len() && (#[trigger] before[j]).width == target;
            assert(dir[j].width == target);
        }
        if e.width == target {
            assert(dir[dir.len() - 1].width == target);
        }
        if has_exact(dir, target) {
            let j = choose|j: int| 0 <= j < dir.len() && (#[trigger] dir[j]).width == target;
            if j < before.len() {
                assert(before[j].width == target);
            }
        }
    }
    assert(has_at_least(dir, target) == (has_at_least(before, target) || e.width >= target)) by {
        if has_at_least(before, target) {
            let j = choose|j: int| 0 <= j < before.len() && (#[trigger] before[j]).width >= target;
            assert(dir[j].width >= target);
        }
        if e.width >= target {
            assert(dir[dir.len() - 1].width >= target);
        }
        if has_at_least(dir, target) {
            let j = choose|j: int| 0 <= j < dir.len() && (#[trigger] dir[j]).width >= target;
            if j < before.len() {
                assert(before[j].width >= target);
            }
        }
    }
    let b = before[best];
    assert(dir[best] == b);
    if b.width == target {
        assert(has_exact(before, target));
    }
    if b.width >= target {
        assert(has_at_least(before, target));
    }
    assert forall|j: int| 0 <= j < dir.len() implies #[trigger] dir[j] == (if j < before.len() {
        before[j]
    } else {
        e
    }) by {}
}

/// Picks the entry that fits a wanted width best: see `is_choice`.
/// `None` is returned for an empty directory and for no other.
pub fn choose_entry(dir: &Vec<IconEntry>, target: u32) -> (r: Option<usize>)
    ensures
        r is None <==> dir@.len() == 0,
        r matches Some(k) ==> is_choice(dir@, target as int, k as int) && k == choice(
            dir@,
            target as int,
        ),
{
    if dir.len() == 0 {
        return None;
    }
    let mut best: usize = 0;
    let mut i: usize = 1;
    assert(dir@.take(1)[0] == dir@[0]);
    while i < dir.len()
        invariant
            1 <= i <= dir@.len(),
            best < i,
            is_choice(dir@.take(i as int), target as int, best as int),
        decreases dir@.len() - i,
    {
        let e: IconEntry = dir[i];
        let b: IconEntry = dir[best];
        let prefer: bool = e.width as u32 == target || (b.width as u32 != target && e.width as u32
            >= target && ((b.width as u32) < target || e.width < b.width)) || ((b.width as u32)
            < target && e.width > b.width);
        proof {
            let longer = dir@.take(i + 1);
            assert(longer.drop_last() =~= dir@.take(i as int));
            assert(longer.last() == e && longer[best as int] == b);
            lemma_choice_step(longer, target as int, best as int);
        }
        if prefer {
            best = i;
        }
        i = i + 1;
    }
    proof {
        assert(dir@.take(i as int) =~= dir@);
        lemma_choice_is(dir@, target as int, best as int);
    }
    Some(best)
}

/// The data region of the entry that fits `target` best.
///
/// The region is handed out as it is stored; decoding it is left to the
/// caller.
pub fn select_image(data: &[u8], target: u32) -> (r: Result<&[u8], IconError>)
    ensures
        match r {
            Ok(image) => image_range(data@, target as int) matches Ok((from, to)) && image@
                == data@.subrange(from, to),
            Err(e) => image_range(data@, target as int) == Err::<(int, int), IconError>(e),
        },
{
    let dir: Vec<IconEntry> = match read_directory(data) {
        Ok(dir) => dir,
        Err(e) => {
            return Err(e);
        },
    };
    match choose_entry(&dir, target) {
        None => Err(IconError::Empty),
        Some(k) => {
            let e: IconEntry = dir[k];
            let from: usize = e.offset as usize;
            if from > data.len() || e.size as usize > data.len() - from {
                Err(IconError::ImageOutOfBounds)
            } else {
                Ok(vstd::slice::slice_subrange(data, from, from + e.size as usize))
            }
        },
    }
}

} // verus!
