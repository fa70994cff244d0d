//! Finding the settings that were put into a binary: a region of fixed size
//! that holds text closed by a zero byte. What is found here is bytes; the
//! host reads them as settings.

use vstd::prelude::*;

verus! {

/// Size in bytes of the region kept for the settings.
pub const LICENSE_SIZE: usize = 4096;

/// The offsets at which a region is looked for are the multiples of this.
pub const STRIDE: usize = 4;

/// A region holds settings only if its text is longer than this.
pub const MIN_TEXT: usize = 10;

/// The byte that opens the text of settings.
pub const OPENING: u8 = 0x7b;

/// Whether the text in `region` is its first `len` bytes: none of them is
/// zero, and a zero byte follows unless the text fills the region.
pub open spec fn text_ends(region: Seq<u8>, len: int) -> bool {
    &&& 0 <= len <= region.len()
    &&& forall|i: int| 0 <= i < len ==> region[i] != 0
    &&& len < region.len() ==> region[len] == 0
}

/// Whether a region that may hold settings begins at `offset` in `image`,
/// with text of `len` bytes: the offset is a multiple of the stride, the
/// region ends before the image does, opens with a brace, and its text is
/// long enough.
pub open spec fn holds_text(image: Seq<u8>, offset: int, len: int) -> bool {
    &&& 0 <= offset
    &&& offset % (STRIDE as int) == 0
    &&& offset + LICENSE_SIZE < image.len()
    &&& image[offset] == OPENING
    &&& text_ends(image.subrange(offset, offset + LICENSE_SIZE), len)
    &&& len > MIN_TEXT
}

/// The text of a region has one length only.
pub proof fn lemma_text_ends_once(region: Seq<u8>, a: int, b: int)
    requires
        text_ends(region, a),
        text_ends(region, b),
    ensures
        a == b,
{
    if a < b {
        assert(region[a] != 0);
    } else if b < a {
        assert(region[b] != 0);
    }
}

fn text_len(image: &[u8], start: usize, end: usize) -> (len: usize)
    requires
        start <= end <= image@.len(),
    ensures
        text_ends(image@.subrange(start as int, end as int), len as int),
{
    let ghost region = image@.subrange(start as int, end as int);
    let mut i: usize = start;
    while i < end && image[i] != 0
        invariant
            start <= i <= end <= image@.len(),
            region == image@.subrange(start as int, end as int),
            forall|j: int| 0 <= j < i - start ==> region[j] != 0,
        decreases end - i,
    {
        i += 1;
    }
    i - start
}

/// Length of the text that `region` holds: the bytes before its first zero
/// byte, or all of them where it has none.
pub fn embedded_len(region: &[u8]) -> (len: usize)
    ensures
        text_ends(region@, len as int),
{
    assert(region@.subrange(0, region@.len() as int) =~= region@);
    text_len(region, 0, region.len())
}

/// The first region at or after `from` in `image` that may hold settings:
/// its offset and the length of its text. `None` where no such region is
/// left.
pub fn next_candidate(image: &[u8], from: usize) -> (found: Option<(usize, usize)>)
    ensures
        match found {
            Some((offset, len)) => {
                &&& from <= offset
                &&& holds_text(image@, offset as int, len as int)
                &&& forall|o: int, l: int| from <= o < offset ==> !holds_text(image@, o, l)
            },
            None => forall|o: int, l: int| from <= o ==> !holds_text(image@, o, l),
        },
{
    if image.len() <= LICENSE_SIZE || from >= image.len() - LICENSE_SIZE {
        return None;
    }
    let limit = image.len() - LICENSE_SIZE;
    let mut offset = from;
    if from % STRIDE != 0 {
        offset = from + (STRIDE - from % STRIDE);
    }
    while offset < limit
        invariant
            from <= offset,
            offset % STRIDE == 0,
            limit == image@.len() - LICENSE_SIZE,
            forall|o: int, l: int| from <= o < offset ==> !holds_text(image@, o, l),
        decreases limit + STRIDE - offset,
    {
        if image[offset] == OPENING {
            let len = text_len(image, offset, offset + LICENSE_SIZE);
            if len > MIN_TEXT {
                return Some((offset, len));
            }
            assert forall|l: int| !holds_text(image@, offset as int, l) by {
                if holds_text(image@, offset as int, l) {
                    lemma_text_ends_once(
                        image@.subrange(offset as int, offset + LICENSE_SIZE),
                        len as int,
                        l,
                    );
                }
            }
        }
        assert forall|o: int, l: int| from <= o < offset + STRIDE implies !holds_text(
            image@,
            o,
            l,
        ) by {
            if offset < o {
                assert(o % (STRIDE as int) != 0);
            }
        }
        offset += STRIDE;
    }
    None
}

} // verus!
