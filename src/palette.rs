//! The 32-colour palette in which pixel values are drawn.
use vstd::prelude::*;

verus! {

/// Maps pixel values to colours.
pub struct Blend32 {}

/// The red, green and blue of pixel value `p`; values past the palette
/// draw as white.
pub open spec fn palette_rgb(p: u8) -> Seq<u8> {
    if p == 0 {
        seq![255u8, 255u8, 255u8]
    } else if p == 1 {
        seq![0u8, 0u8, 0u8]
    } else if p == 2 {
        seq![31u8, 0u8, 71u8]
    } else if p == 3 {
        seq![59u8, 0u8, 88u8]
    } else if p == 4 {
        seq![115u8, 0u8, 94u8]
    } else if p == 5 {
        seq![191u8, 36u8, 50u8]
    } else if p == 6 {
        seq![236u8, 132u8, 26u8]
    } else if p == 7 {
        seq![255u8, 247u8, 104u8]
    } else if p == 8 {
        seq![164u8, 237u8, 58u8]
    } else if p == 9 {
        seq![70u8, 186u8, 41u8]
    } else if p == 10 {
        seq![32u8, 135u8, 90u8]
    } else if p == 11 {
        seq![8u8, 81u8, 102u8]
    } else if p == 12 {
        seq![0u8, 45u8, 126u8]
    } else if p == 13 {
        seq![0u8, 108u8, 196u8]
    } else if p == 14 {
        seq![32u8, 167u8, 222u8]
    } else if p == 15 {
        seq![111u8, 232u8, 255u8]
    } else if p == 16 {
        seq![144u8, 255u8, 229u8]
    } else if p == 17 {
        seq![191u8, 224u8, 224u8]
    } else if p == 18 {
        seq![153u8, 173u8, 193u8]
    } else if p == 19 {
        seq![101u8, 111u8, 149u8]
    } else if p == 20 {
        seq![74u8, 66u8, 112u8]
    } else if p == 21 {
        seq![104u8, 4u8, 137u8]
    } else if p == 22 {
        seq![167u8, 35u8, 178u8]
    } else if p == 23 {
        seq![219u8, 82u8, 185u8]
    } else if p == 24 {
        seq![255u8, 150u8, 203u8]
    } else if p == 25 {
        seq![255u8, 205u8, 217u8]
    } else if p == 26 {
        seq![255u8, 222u8, 161u8]
    } else if p == 27 {
        seq![208u8, 150u8, 118u8]
    } else if p == 28 {
        seq![167u8, 92u8, 67u8]
    } else if p == 29 {
        seq![129u8, 52u8, 49u8]
    } else if p == 30 {
        seq![89u8, 17u8, 49u8]
    } else if p == 31 {
        seq![58u8, 1u8, 33u8]
    } else {
        seq![255u8, 255u8, 255u8]
    }
}

impl Blend32 {
    /// The colour of a pixel value.
    pub fn u8_to_rgb(pixel: u8) -> (r: [u8; 3])
        ensures
            r@ == palette_rgb(pixel),
    {
        let r: [u8; 3] = match pixel {
            0 => [255, 255, 255],
            1 => [0, 0, 0],
            2 => [31, 0, 71],
            3 => [59, 0, 88],
            4 => [115, 0, 94],
            5 => [191, 36, 50],
            6 => [236, 132, 26],
            7 => [255, 247, 104],
            8 => [164, 237, 58],
            9 => [70, 186, 41],
            10 => [32, 135, 90],
            11 => [8, 81, 102],
            12 => [0, 45, 126],
            13 => [0, 108, 196],
            14 => [32, 167, 222],
            15 => [111, 232, 255],
            16 => [144, 255, 229],
            17 => [191, 224, 224],
            18 => [153, 173, 193],
            19 => [101, 111, 149],
            20 => [74, 66, 112],
            21 => [104, 4, 137],
            22 => [167, 35, 178],
            23 => [219, 82, 185],
            24 => [255, 150, 203],
            25 => [255, 205, 217],
            26 => [255, 222, 161],
            27 => [208, 150, 118],
            28 => [167, 92, 67],
            29 => [129, 52, 49],
            30 => [89, 17, 49],
            31 => [58, 1, 33],
            _ => [255, 255, 255],
        };
        assert(r@ =~= palette_rgb(pixel));
        r
    }
}

} // verus!
