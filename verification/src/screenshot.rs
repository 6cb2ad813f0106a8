//! Screenshots: when one is taken, where it goes, and its bytes.
use vstd::prelude::*;

use crate::control::RunControl;
use crate::text::push_decimal_two;

verus! {

/// Declares `png::EncodingError`, the error of the encoder. It is carried
/// through unread.
#[verifier::external_type_specification]
#[verifier::external_body]
pub struct ExEncodingError(png::EncodingError);

/// Why an image could not be turned into a file.
#[derive(Debug)]
pub enum ScreenshotError {
    /// The header could not be written.
    Header(png::EncodingError),
    /// The pixels could not be written.
    Write(png::EncodingError),
}

/// A pixel: red, green, blue and alpha.
#[derive(Clone, Copy, Debug, PartialEq, Eq, Structural)]
pub struct Pixel {
    pub r: u8,
    pub g: u8,
    pub b: u8,
    pub a: u8,
}

/// The bytes of a row of pixels, four for each.
pub open spec fn pixel_bytes(pixels: Seq<Pixel>) -> Seq<u8> {
    Seq::new(
        4 * pixels.len(),
        |i: int|
            {
                let p = pixels[i / 4];
                if i % 4 == 0 {
                    p.r
                } else if i % 4 == 1 {
                    p.g
                } else if i % 4 == 2 {
                    p.b
                } else {
                    p.a
                }
            },
    )
}

/// The bytes start with the eight that mark a PNG file.
pub open spec fn is_png(file: Seq<u8>) -> bool {
    &&& file.len() >= 8
    &&& file.take(8) == seq![137u8, 80u8, 78u8, 71u8, 13u8, 10u8, 26u8, 10u8]
}

/// The PNG file that the `png` crate makes of eight-bit RGBA samples.
pub uninterp spec fn png_file(width: u32, height: u32, samples: Seq<u8>) -> Seq<u8>;

/// Encodes eight-bit RGBA samples with `png::Encoder`, its `write_header` and
/// `Writer::write_image_data`, into a buffer in memory. The header is refused
/// exactly when a side is zero, the samples exactly when they are not four per
/// pixel, and otherwise the file is determined by the size and the samples.
/// The encoder counts runs within a row, and its filter byte, in 32 bits, so a
/// row must not be longer than that.
/// The file starts with the signature of the format; what follows it is not
/// stated.
#[verifier::external_body]
fn encode_rgba(width: u32, height: u32, samples: &Vec<u8>) -> (r: Result<Vec<u8>, ScreenshotError>)
    requires
        4 * (width * height) <= usize::MAX,
        4 * width + 1 <= u32::MAX,
    ensures
        (r is Err && r->Err_0 is Header) == (width == 0 || height == 0),
        (r is Err && r->Err_0 is Write) == (width > 0 && height > 0 && samples@.len() != 4 * (width
            * height)),
        r is Ok ==> r->Ok_0@ == png_file(width, height, samples@),
        r is Ok ==> is_png(r->Ok_0@),
{
    let mut file: Vec<u8> = Vec::new();
    let mut encoder = png::Encoder::new(&mut file, width, height);
    encoder.set_color(png::ColorType::Rgba);
    encoder.set_depth(png::BitDepth::Eight);
    match encoder.write_header() {
        Ok(mut writer) => match writer.write_image_data(samples) {
            Ok(()) => {},
            Err(e) => return Err(ScreenshotError::Write(e)),
        },
        Err(e) => return Err(ScreenshotError::Header(e)),
    }
    Ok(file)
}

/// Lays pixels out as bytes, four for each.
pub fn flatten(pixels: &Vec<Pixel>) -> (bytes: Vec<u8>)
    ensures
        bytes@ == pixel_bytes(pixels@),
        bytes@.len() == 4 * pixels@.len(),
        forall|i: int|
            #![trigger pixels@[i]]
            0 <= i < pixels@.len() ==> bytes@[4 * i] == pixels@[i].r && bytes@[4 * i + 1]
                == pixels@[i].g && bytes@[4 * i + 2] == pixels@[i].b && bytes@[4 * i + 3]
                == pixels@[i].a,
{
    let mut bytes: Vec<u8> = Vec::new();
    let mut i: usize = 0;
    while i < pixels.len()
        invariant
            i <= pixels@.len(),
            bytes@ == pixel_bytes(pixels@.take(i as int)),
        decreases pixels@.len() - i,
    {
        let p: Pixel = pixels[i];
        bytes.push(p.r);
        bytes.push(p.g);
        bytes.push(p.b);
        bytes.push(p.a);
        i = i + 1;
        assert(bytes@ =~= pixel_bytes(pixels@.take(i as int)));
    }
    assert(pixels@.take(i as int) =~= pixels@);
    bytes
}

/// The file for an image. A header error comes exactly for an image without
/// width or height, a write error exactly when the pixels do not fill it.
pub fn encode(width: u32, height: u32, pixels: &Vec<Pixel>) -> (r: Result<
    Vec<u8>,
    ScreenshotError,
>)
    requires
        4 * (width * height) <= usize::MAX,
        4 * width + 1 <= u32::MAX,
    ensures
        (r is Err && r->Err_0 is Header) == (width == 0 || height == 0),
        (r is Err && r->Err_0 is Write) == (width > 0 && height > 0 && pixels@.len() != width
            * height),
        r is Ok ==> r->Ok_0@ == png_file(width, height, pixel_bytes(pixels@)),
        r is Ok ==> is_png(r->Ok_0@),
{
    encode_rgba(width, height, &flatten(pixels))
}

/// Screenshots asked for and taken so far. Each press of the key counts, and
/// each image that was asked for gets the next number.
#[derive(Clone, Copy, Debug, PartialEq, Eq, Structural)]
pub struct ScreenshotState {
    /// How often the key was pressed.
    pub counter: u32,
    /// How many images have arrived of those asked for.
    pub taken: u32,
}

/// What has to be done about the keys of a frame.
#[derive(Clone, Copy, Debug, PartialEq, Eq, Structural)]
pub struct KeyEffects {
    /// Ask the window for an image of itself.
    pub request_image: bool,
    /// Wake the waiting workers.
    pub wake: bool,
}

impl ScreenshotState {
    /// No more images were taken than asked for.
    pub open spec fn valid(self) -> bool {
        self.taken <= self.counter
    }

    /// An image was asked for and has not arrived.
    pub open spec fn pending(self) -> bool {
        self.taken < self.counter
    }

    /// The state after the key was pressed.
    pub open spec fn pressed(self) -> ScreenshotState {
        ScreenshotState { counter: (self.counter + 1) as u32, ..self }
    }

    /// The state after an image has arrived.
    pub open spec fn arrived(self) -> ScreenshotState {
        if self.pending() {
            ScreenshotState { taken: (self.taken + 1) as u32, ..self }
        } else {
            self
        }
    }

    /// The state after a number of images have arrived.
    pub open spec fn arrivals(self, n: nat) -> ScreenshotState
        decreases n,
    {
        if n == 0 {
            self
        } else {
            self.arrivals((n - 1) as nat).arrived()
        }
    }

    /// No screenshot yet.
    pub fn new() -> (s: Self)
        ensures
            s == (ScreenshotState { counter: 0, taken: 0 }),
            s.valid(),
    {
        ScreenshotState { counter: 0, taken: 0 }
    }

    /// Takes in an image from the window. If one was asked for, it is given
    /// the next number, and the name of the file it goes to is returned.
    pub fn image_arrived(&mut self, program: &str) -> (path: Option<String>)
        ensures
            *final(self) == old(self).arrived(),
            old(self).valid() ==> final(self).valid(),
            path is Some <==> old(self).pending(),
            path is Some <==> old(self).taken < old(self).counter,
            final(self).counter == old(self).counter,
            path is Some ==> final(self).taken == old(self).taken + 1,
            path is None ==> final(self).taken == old(self).taken,
            path matches Some(p) ==> p@ == program@ + crate::text::decimal_two(old(self).taken + 1)
                + ".png"@,
    {
        if self.taken >= self.counter {
            return None;
        }
        self.taken = self.taken + 1;
        let mut s = String::new();
        s.append(program);
        push_decimal_two(&mut s, self.taken as u64);
        s.append(".png");
        assert(s@ =~= program@ + crate::text::decimal_two(self.taken as int) + ".png"@);
        Some(s)
    }

    /// Takes in the keys pressed in a frame. `S` freezes the run and asks for
    /// a screenshot; the space bar is the main command, and comes after.
    pub fn keys(&mut self, space: bool, s_key: bool, control: &mut RunControl) -> (e: KeyEffects)
        requires
            s_key ==> old(self).counter < u32::MAX,
        ensures
            *final(self) == (if s_key {
                old(self).pressed()
            } else {
                *old(self)
            }),
            old(self).valid() ==> final(self).valid(),
            final(self).taken == old(self).taken,
            final(self).counter == (if s_key {
                old(self).counter + 1
            } else {
                old(self).counter as int
            }),
            final(control).step_mode == old(control).step_mode,
            !space || old(control).step_mode ==> final(control).paused == (old(control).paused
                || s_key),
            space && !old(control).step_mode ==> final(control).paused == !(old(control).paused
                || s_key),
            !space || !old(control).step_mode ==> final(control).step_epoch
                == old(control).step_epoch,
            space && old(control).step_mode && old(control).step_epoch < u64::MAX
                ==> final(control).step_epoch == old(control).step_epoch + 1,
            e.request_image == s_key,
            ({
                let frozen = if s_key {
                    old(control).with_paused(true)
                } else {
                    *old(control)
                };
                &&& *final(control) == (if space {
                    frozen.advanced()
                } else {
                    frozen
                })
                &&& e.wake == (space && (frozen.step_mode || frozen.paused))
            }),
    {
        if s_key {
            let _ = control.set_paused(true);
            self.counter = self.counter + 1;
        }
        let wake: bool = if space {
            control.advance()
        } else {
            false
        };
        KeyEffects { request_image: s_key, wake }
    }
}

/// Every press gets its file: once as many images have arrived as are still
/// missing, as many were taken as the key was pressed, and not before.
pub proof fn law_every_press_is_answered(s: ScreenshotState, n: nat)
    requires
        s.valid(),
        n <= s.counter - s.taken,
    ensures
        s.arrivals(n).taken == s.taken + n,
        s.arrivals(n).counter == s.counter,
        s.arrivals(n).pending() <==> n < s.counter - s.taken,
    decreases n,
{
    if n > 0 {
        law_every_press_is_answered(s, (n - 1) as nat);
    }
}

/// No image overwrites another: different numbers give different file names.
pub proof fn law_every_image_has_its_file(program: Seq<char>, one: int, other: int)
    requires
        0 <= one,
        0 <= other,
        one != other,
    ensures
        program + crate::text::decimal_two(one) + ".png"@ != program + crate::text::decimal_two(
            other,
        ) + ".png"@,
{
    let a = crate::text::decimal_two(one);
    let b = crate::text::decimal_two(other);
    let end = ".png"@;
    crate::text::law_decimal_reads_back(one);
    crate::text::law_decimal_reads_back(other);
    if program + a + end == program + b + end {
        let start = program.len() as int;
        assert((program + a + end).len() == program.len() + a.len() + end.len());
        assert((program + b + end).len() == program.len() + b.len() + end.len());
        assert((program + a + end).subrange(start, start + a.len()) =~= a);
        assert((program + b + end).subrange(start, start + b.len()) =~= b);
    }
}

/// The line printed once a screenshot is on disk.
pub fn saved_line(path: &str) -> (text: String)
    ensures
        text@ == "Screenshot saved: "@ + path@,
{
    let mut s = String::new();
    s.append("Screenshot saved: ");
    s.append(path);
    assert(s@ =~= "Screenshot saved: "@ + path@);
    s
}

} // verus!
