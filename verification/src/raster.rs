//! Pictures of the screen.

use vstd::arithmetic::div_mod::lemma_fundamental_div_mod;
use vstd::prelude::*;

verus! {

/// A picture with four bytes (red, green, blue, alpha) for each pixel, row by
/// row from the top left.
#[derive(Debug)]
pub struct RgbaImage {
    width: u32,
    height: u32,
    pixels: Vec<u8>,
}

/// What an [`RgbaImage`] shows.
pub struct ImageView {
    pub width: u32,
    pub height: u32,
    pub pixels: Seq<u8>,
}

impl ImageView {
    /// A picture has four bytes for each of its pixels.
    pub open spec fn complete(self) -> bool {
        self.pixels.len() == 4 * self.width * self.height
    }

    /// The four bytes of the pixel in column `x` of row `y`.
    pub open spec fn pixel(self, x: int, y: int) -> Seq<u8> {
        let at = 4 * (y * self.width + x);
        self.pixels.subrange(at, at + 4)
    }

    /// The part of the picture that starts at column `x` of row `y` and is
    /// `width` columns by `height` rows large.
    pub open spec fn part(self, x: u32, y: u32, width: u32, height: u32) -> ImageView {
        ImageView {
            width,
            height,
            pixels: Seq::new(
                (4 * width * height) as nat,
                |k: int|
                    self.pixels[4 * ((y + k / 4 / width as int) * self.width + x + k / 4
                        % width as int) + k % 4],
            ),
        }
    }
}

impl View for RgbaImage {
    type V = ImageView;

    closed spec fn view(&self) -> ImageView {
        ImageView { width: self.width, height: self.height, pixels: self.pixels@ }
    }
}

/// What `image::load_from_memory` makes of an encoded picture, turned into
/// eight-bit RGBA by `image::DynamicImage::to_rgba8`: width, height and pixel
/// bytes, or the text of the error.
pub uninterp spec fn decoded_picture(bytes: Seq<u8>) -> Result<(u32, u32, Seq<u8>), Seq<char>>;

/// Decodes a picture.
///
/// Calls `image::load_from_memory`, which finds the format by the built-in
/// signatures and takes the built-in decoder of that format, then `to_rgba8`.
/// Neither reads the hooks that a process can register with the `image` crate,
/// so the outcome is a function of the bytes, and [`decoded_picture`] names
/// it. The buffer has four bytes for each pixel and no more.
#[verifier::external_body]
fn load_picture(bytes: &[u8]) -> (res: Result<(u32, u32, Vec<u8>), String>)
    ensures
        match res {
            Ok((width, height, pixels)) => {
                &&& decoded_picture(bytes@) == Ok::<(u32, u32, Seq<u8>), Seq<char>>(
                    (width, height, pixels@),
                )
                &&& pixels@.len() == 4 * width * height
            },
            Err(text) => decoded_picture(bytes@) == Err::<(u32, u32, Seq<u8>), Seq<char>>(text@),
        },
{
    match image::load_from_memory(bytes) {
        Ok(picture) => {
            let rgba = picture.to_rgba8();
            Ok((rgba.width(), rgba.height(), rgba.into_raw()))
        },
        Err(err) => Err(err.to_string()),
    }
}

/// Cuts a part out of a picture and returns its bytes.
///
/// Calls `image::imageops::crop_imm` and `to_image` on the view that it
/// yields, on an `image::RgbaImage` made of the same bytes. A part that lies
/// within the picture is copied pixel by pixel.
#[verifier::external_body]
fn crop_bytes(
    picture_width: u32,
    picture_height: u32,
    pixels: &Vec<u8>,
    x: u32,
    y: u32,
    width: u32,
    height: u32,
) -> (res: Vec<u8>)
    requires
        pixels@.len() == 4 * picture_width * picture_height,
        0 < width,
        0 < height,
        x + width <= picture_width,
        y + height <= picture_height,
    ensures
        res@ == (ImageView {
            width: picture_width,
            height: picture_height,
            pixels: pixels@,
        }).part(x, y, width, height).pixels,
{
    let picture = image::RgbaImage::from_raw(picture_width, picture_height, pixels.clone()).unwrap();
    image::imageops::crop_imm(&picture, x, y, width, height).to_image().into_raw()
}

impl RgbaImage {
    #[verifier::type_invariant]
    spec fn well_formed(self) -> bool {
        self.pixels@.len() == 4 * self.width * self.height
    }

    /// A picture of the given size with the given bytes, where they are as
    /// many as its pixels need.
    pub fn from_raw(width: u32, height: u32, pixels: Vec<u8>) -> (res: Option<Self>)
        ensures
            match res {
                Some(picture) => picture@ == (ImageView { width, height, pixels: pixels@ })
                    && picture@.complete() && pixels@.len() == 4 * width * height,
                None => pixels@.len() != 4 * width * height,
            },
    {
        let needed: u128 = needed_bytes(width, height);
        if pixels.len() as u128 == needed {
            Some(RgbaImage { width, height, pixels })
        } else {
            None
        }
    }

    /// The number of columns.
    pub fn width(&self) -> (res: u32)
        ensures
            res == self@.width,
    {
        self.width
    }

    /// The number of rows.
    pub fn height(&self) -> (res: u32)
        ensures
            res == self@.height,
    {
        self.height
    }

    /// The bytes of the pixels.
    pub fn as_raw(&self) -> (res: &Vec<u8>)
        ensures
            res@ == self@.pixels,
            self@.complete(),
    {
        proof {
            use_type_invariant(self);
        }
        &self.pixels
    }

    /// Decodes a picture, see [`decoded_picture`]; the error is a text.
    pub fn decode(bytes: &[u8]) -> (res: Result<RgbaImage, String>)
        ensures
            match res {
                Ok(picture) => decoded_picture(bytes@) == Ok::<(u32, u32, Seq<u8>), Seq<char>>(
                    (picture@.width, picture@.height, picture@.pixels),
                ),
                Err(text) => decoded_picture(bytes@) == Err::<(u32, u32, Seq<u8>), Seq<char>>(
                    text@,
                ),
            },
    {
        match load_picture(bytes) {
            Ok((width, height, pixels)) => Ok(RgbaImage { width, height, pixels }),
            Err(text) => Err(text),
        }
    }

    /// Cuts out a part that lies within the picture.
    pub fn crop(&self, x: u32, y: u32, width: u32, height: u32) -> (res: RgbaImage)
        requires
            0 < width,
            0 < height,
            x + width <= self@.width,
            y + height <= self@.height,
        ensures
            res@ == self@.part(x, y, width, height),
    {
        proof {
            use_type_invariant(self);
        }
        let pixels: Vec<u8> = crop_bytes(
            self.width,
            self.height,
            &self.pixels,
            x,
            y,
            width,
            height,
        );
        assert(4 * width * height >= 0) by (nonlinear_arith);
        RgbaImage { width, height, pixels }
    }
}

fn needed_bytes(width: u32, height: u32) -> (res: u128)
    ensures
        res == 4 * width * height,
{
    assert(width * height <= 0xffff_ffff * 0xffff_ffff) by (nonlinear_arith)
        requires
            width <= 0xffff_ffff,
            height <= 0xffff_ffff,
    ;
    assert(width * height >= 0) by (nonlinear_arith);
    assert(4 * width * height == 4 * (width * height)) by (nonlinear_arith);
    let area: u128 = (width as u128) * (height as u128);
    4 * area
}

/// A part of a picture shows, pixel for pixel, what the picture shows there.
pub proof fn law_part_pixels(
    picture: ImageView,
    x: u32,
    y: u32,
    width: u32,
    height: u32,
    column: int,
    row: int,
)
    requires
        picture.complete(),
        x + width <= picture.width,
        y + height <= picture.height,
        0 <= column < width,
        0 <= row < height,
    ensures
        picture.part(x, y, width, height).complete(),
        picture.part(x, y, width, height).pixel(column, row) == picture.pixel(x + column, y + row),
{
    let part = picture.part(x, y, width, height);
    assert(4 * width * height >= 0) by (nonlinear_arith);
    let at = 4 * (row * width + column);
    assert(0 <= at && at + 4 <= 4 * width * height) by (nonlinear_arith)
        requires
            at == 4 * (row * width + column),
            0 <= column < width,
            0 <= row < height,
    ;
    let from = 4 * ((y + row) * picture.width + (x + column));
    assert(0 <= from && from + 4 <= 4 * picture.width * picture.height) by (nonlinear_arith)
        requires
            from == 4 * ((y + row) * picture.width + (x + column)),
            0 <= x + column < picture.width,
            0 <= y + row < picture.height,
    ;
    assert forall|c: int| 0 <= c < 4 implies #[trigger] part.pixel(column, row)[c] == picture.pixel(
        x + column,
        y + row,
    )[c] by {
        let k = at + c;
        let cell = row * width + column;
        assert(k / 4 == cell && k % 4 == c) by {
            assert(k == 4 * cell + c);
        }
        assert(cell / width as int == row && cell % width as int == column) by {
            vstd::arithmetic::div_mod::lemma_fundamental_div_mod_converse(
                cell,
                width as int,
                row,
                column,
            );
        }
    }
    assert(part.pixel(column, row) =~= picture.pixel(x + column, y + row));
}

/// The part that is as large as the picture is the picture.
pub proof fn law_whole_part(picture: ImageView)
    requires
        picture.complete(),
    ensures
        picture.part(0, 0, picture.width, picture.height) == picture,
{
    let part = picture.part(0, 0, picture.width, picture.height);
    assert(4 * picture.width * picture.height >= 0) by (nonlinear_arith);
    assert forall|k: int| 0 <= k < picture.pixels.len() implies part.pixels[k]
        == picture.pixels[k] by {
        let width = picture.width as int;
        assert(width != 0) by {
            if width == 0 {
                assert(4 * picture.width * picture.height == 0) by (nonlinear_arith)
                    requires
                        picture.width == 0,
                ;
            }
        }
        lemma_fundamental_div_mod(k / 4, width);
        assert((k / 4 / width) * width == width * (k / 4 / width)) by (nonlinear_arith);
    }
    assert(part.pixels =~= picture.pixels);
}

/// A part of a picture has the size that was asked for, and each of its bytes
/// is the byte at the same place of the picture, counted from where the part
/// starts.
pub proof fn law_part_bytes(
    picture: ImageView,
    x: u32,
    y: u32,
    width: u32,
    height: u32,
    column: int,
    row: int,
    channel: int,
)
    requires
        0 <= column < width,
        0 <= row < height,
        0 <= channel < 4,
    ensures
        picture.part(x, y, width, height).width == width,
        picture.part(x, y, width, height).height == height,
        picture.part(x, y, width, height).pixels.len() == 4 * width * height,
        picture.part(x, y, width, height).pixels[4 * (row * width + column) + channel]
            == picture.pixels[4 * ((y + row) * picture.width + (x + column)) + channel],
{
    assert(4 * width * height >= 0) by (nonlinear_arith);
    let cell = row * width + column;
    let k = 4 * cell + channel;
    assert(0 <= k < 4 * width * height) by (nonlinear_arith)
        requires
            k == 4 * (row * width + column) + channel,
            0 <= column < width,
            0 <= row < height,
            0 <= channel < 4,
    ;
    assert(k / 4 == cell && k % 4 == channel);
    vstd::arithmetic::div_mod::lemma_fundamental_div_mod_converse(cell, width as int, row, column);
}

/// A picture is complete where it has four bytes for each pixel, and a pixel
/// is the four bytes at its place, counted row by row.
pub proof fn law_pixels_stand_row_by_row(picture: ImageView, x: int, y: int, channel: int)
    requires
        0 <= channel < 4,
        0 <= x < picture.width,
        0 <= y < picture.height,
        picture.complete(),
    ensures
        picture.pixels.len() == 4 * picture.width * picture.height,
        picture.pixel(x, y).len() == 4,
        picture.pixel(x, y)[channel] == picture.pixels[4 * (y * picture.width + x) + channel],
{
    let at = 4 * (y * picture.width + x);
    assert(0 <= at && at + 4 <= 4 * picture.width * picture.height) by (nonlinear_arith)
        requires
            at == 4 * (y * picture.width + x),
            0 <= x < picture.width,
            0 <= y < picture.height,
    ;
}

} // verus!
