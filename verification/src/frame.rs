use vstd::prelude::*;

use crate::geometry::{screen_wf, SCREEN_COLS, SCREEN_ROWS};

verus! {

use vstd::string::StringExecFns;

/// A rendered frame: a grayscale image of the outside codec library.
/// Verus sees the image only through `frame_data`, `frame_width` and
/// `frame_height`; the `image` field itself is for the unverified
/// driver, which encodes and writes it.
#[verifier::external_body]
pub struct Frame {
    pub image: image::GrayImage,
}

/// The bytes a frame's image holds, one per pixel, in row-major order.
pub uninterp spec fn frame_data(f: Frame) -> Seq<u8>;

/// The pixel width a frame's image was created with.
pub uninterp spec fn frame_width(f: Frame) -> u32;

/// The pixel height a frame's image was created with.
pub uninterp spec fn frame_height(f: Frame) -> u32;

/// Relies on image::ImageBuffer::from_raw: a buffer of exactly
/// width * height bytes (one byte per pixel for an 8-bit grayscale
/// image) fits, is accepted, and becomes the image's contents.
#[verifier::external_body]
fn frame_from_raw(width: u32, height: u32, data: Vec<u8>) -> (r: Option<Frame>)
    requires
        data@.len() == width * height,
    ensures
        r is Some,
        frame_width(r->Some_0) == width,
        frame_height(r->Some_0) == height,
        frame_data(r->Some_0) == data@,
{
    match image::GrayImage::from_raw(width, height, data) {
        Some(image) => Some(Frame { image }),
        None => None,
    }
}

/// Packs the screen's bytes into a grayscale image frame of the fixed
/// screen dimensions; the frame holds exactly the screen's pixels.
pub fn screen_to_image(screen: &Vec<u8>) -> (f: Frame)
    requires
        screen_wf(screen@),
    ensures
        frame_width(f) == SCREEN_COLS as u32,
        frame_height(f) == SCREEN_ROWS as u32,
        frame_data(f) == screen@,
{
    let data = screen.clone();
    proof {
        assert forall|i: int| 0 <= i < data@.len() implies data@[i] == screen@[i] by {}
        assert(data@ =~= screen@);
    }
    match frame_from_raw(SCREEN_COLS as u32, SCREEN_ROWS as u32, data) {
        Some(f) => f,
        None => vstd::pervasive::unreached(),
    }
}

/// The decimal digit `d` as a character.
pub open spec fn spec_digit_char(d: int) -> char {
    if d == 0 {
        '0'
    } else if d == 1 {
        '1'
    } else if d == 2 {
        '2'
    } else if d == 3 {
        '3'
    } else if d == 4 {
        '4'
    } else if d == 5 {
        '5'
    } else if d == 6 {
        '6'
    } else if d == 7 {
        '7'
    } else if d == 8 {
        '8'
    } else {
        '9'
    }
}

/// The file name of frame `i`: `frame_`, then `i` zero-padded to
/// three decimal digits, then `.png`.
pub open spec fn spec_frame_name(i: int) -> Seq<char> {
    seq![
        'f',
        'r',
        'a',
        'm',
        'e',
        '_',
        spec_digit_char(i / 100),
        spec_digit_char((i / 10) % 10),
        spec_digit_char(i % 10),
        '.',
        'p',
        'n',
        'g',
    ]
}

/// The decimal digit `d` as a one-character string slice.
fn digit_str(d: usize) -> (s: &'static str)
    requires
        d < 10,
    ensures
        s@ =~= seq![spec_digit_char(d as int)],
{
    proof {
        reveal_strlit("0");
        reveal_strlit("1");
        reveal_strlit("2");
        reveal_strlit("3");
        reveal_strlit("4");
        reveal_strlit("5");
        reveal_strlit("6");
        reveal_strlit("7");
        reveal_strlit("8");
        reveal_strlit("9");
    }
    match d {
        0 => "0",
        1 => "1",
        2 => "2",
        3 => "3",
        4 => "4",
        5 => "5",
        6 => "6",
        7 => "7",
        8 => "8",
        _ => "9",
    }
}

/// Builds the image file name of frame `i`, `frame_<NNN>.png`, with
/// the frame number zero-padded to three digits.
pub fn frame_file_name(i: usize) -> (name: String)
    requires
        i < 1000,
    ensures
        name@ == spec_frame_name(i as int),
{
    proof {
        reveal_strlit("frame_");
        reveal_strlit(".png");
        vstd::arithmetic::div_mod::lemma_div_is_ordered(i as int, 999, 100);
        vstd::arithmetic::div_mod::lemma_mod_bound(i as int / 10, 10);
        vstd::arithmetic::div_mod::lemma_mod_bound(i as int, 10);
    }
    let mut name = String::from_str("frame_");
    name.append(digit_str(i / 100));
    name.append(digit_str((i / 10) % 10));
    name.append(digit_str(i % 10));
    name.append(".png");
    proof {
        assert(name@ =~= spec_frame_name(i as int));
    }
    name
}

} // verus!
