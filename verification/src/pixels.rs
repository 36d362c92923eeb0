use vstd::prelude::*;

verus! {

/// Byte `i` of `pixels` after the red and blue bytes of every complete 4-byte
/// pixel were swapped; bytes of an incomplete trailing pixel keep their place.
pub open spec fn swapped_byte(pixels: Seq<u8>, i: int) -> u8 {
    let complete = pixels.len() - pixels.len() % 4;
    if i < complete && i % 4 == 0 {
        pixels[i + 2]
    } else if i < complete && i % 4 == 2 {
        pixels[i - 2]
    } else {
        pixels[i]
    }
}

/// Turns RGBA pixels into BGRA in place (the byte order of ARGB8888 memory on
/// little-endian systems) by swapping the first and third byte of every
/// complete 4-byte pixel.
pub fn swap_red_blue(pixels: &mut Vec<u8>)
    ensures
        final(pixels)@.len() == old(pixels)@.len(),
        forall|i: int|
            0 <= i < old(pixels)@.len() ==> #[trigger] final(pixels)@[i] == swapped_byte(
                old(pixels)@,
                i,
            ),
{
    let ghost start = pixels@;
    let len = pixels.len();
    let mut i: usize = 0;
    while len - i >= 4
        invariant
            len == start.len(),
            pixels@.len() == len,
            i % 4 == 0,
            i <= len,
            forall|j: int| 0 <= j < i ==> #[trigger] pixels@[j] == swapped_byte(start, j),
            forall|j: int| i <= j < len ==> #[trigger] pixels@[j] == start[j],
        decreases len - i,
    {
        let red = pixels[i];
        let blue = pixels[i + 2];
        pixels.set(i, blue);
        pixels.set(i + 2, red);
        i = i + 4;
    }
}

/// Swapping red and blue twice gives back the original pixels.
pub proof fn swap_red_blue_twice_restores(pixels: Seq<u8>, once: Seq<u8>, twice: Seq<u8>)
    requires
        once.len() == pixels.len(),
        forall|i: int| 0 <= i < pixels.len() ==> #[trigger] once[i] == swapped_byte(pixels, i),
        twice.len() == once.len(),
        forall|i: int| 0 <= i < once.len() ==> #[trigger] twice[i] == swapped_byte(once, i),
    ensures
        twice == pixels,
{
    assert forall|i: int| 0 <= i < pixels.len() implies twice[i] == pixels[i] by {
        let complete = pixels.len() - pixels.len() % 4;
        if i < complete && i % 4 == 0 {
            assert(once[i + 2] == swapped_byte(pixels, i + 2));
        } else if i < complete && i % 4 == 2 {
            assert(once[i - 2] == swapped_byte(pixels, i - 2));
        } else {
            assert(once[i] == swapped_byte(pixels, i));
        }
    }
    assert(twice =~= pixels);
}

} // verus!
