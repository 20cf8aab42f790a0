//! Checking a QR code image against a code. The image arrives as grey
//! levels; finding and decoding the QR grids is left to `rqrr`.
use vstd::prelude::*;

verus! {

/// A greyscale image: `luma` holds the grey level of each pixel, row by row,
/// `width` pixels to a row.
#[derive(Debug)]
pub struct GreyImage {
    pub width: usize,
    pub height: usize,
    pub luma: Vec<u8>,
}

impl GreyImage {
    /// There is one grey level for each pixel.
    pub open spec fn well_formed(&self) -> bool {
        self.luma@.len() == self.width * self.height
    }

    /// The grey level of the pixel in column `x` of row `y`.
    pub fn pixel(&self, x: usize, y: usize) -> (r: u8)
        requires
            self.well_formed(),
            x < self.width,
            y < self.height,
        ensures
            r == self.luma@[y * self.width + x],
    {
        let w = self.width;
        let h = self.height;
        let pixel_count = self.luma.len();
        assert(y * w + x < w * h && y * w <= y * w + x) by (nonlinear_arith)
            requires
                x < w,
                y < h,
        ;
        assert(y * w + x < pixel_count);
        let row_start = y * w;
        self.luma[row_start + x]
    }
}

/// What `rqrr` finds in a greyscale image of `width` by `height` pixels with
/// grey levels `luma`: for each QR grid it detects, in the order it lists
/// them, the decoded text, or `None` where the grid does not decode; a
/// function of the image alone.
pub uninterp spec fn spec_qr_grids(width: nat, height: nat, luma: Seq<u8>) -> Seq<Option<Seq<char>>>;

/// `rqrr`'s `PreparedImage::prepare_from_greyscale`, `detect_grids`, and
/// `Grid::decode` of each grid found: the text of each grid, `None` where
/// decoding fails. What it finds is named by `spec_qr_grids`.
#[verifier::external_body]
fn qr_grid_contents(img: &GreyImage) -> (r: Vec<Option<String>>)
    requires
        img.well_formed(),
    ensures
        r.deep_view() == spec_qr_grids(img.width as nat, img.height as nat, img.luma@),
{
    let mut prepared = rqrr::PreparedImage::prepare_from_greyscale(img.width, img.height, |x, y| img.pixel(x, y));
    prepared.detect_grids().iter().map(|g| g.decode().ok().map(|(_meta, content)| content)).collect()
}

/// The image holds exactly one QR grid, and that grid decodes.
pub open spec fn has_single_readable_grid(img: GreyImage) -> bool {
    let grids = spec_qr_grids(img.width as nat, img.height as nat, img.luma@);
    &&& grids.len() == 1
    &&& grids[0] is Some
}

/// Checks the QR code of an image against `input_code`. Without an image
/// (none could be read) the answer is `false`. An image must hold exactly
/// one QR grid, which must decode; its text is read, and the answer is
/// `false` whatever it holds.
pub fn verify_qr_code(img: Option<GreyImage>, input_code: String) -> (r: bool)
    requires
        img matches Some(i) ==> i.well_formed() && has_single_readable_grid(i),
    ensures
        r == false,
{
    let is_valid = false;
    match img {
        None => is_valid,
        Some(img) => {
            let grids = qr_grid_contents(&img);
            let _content = &grids[0];
            is_valid
        },
    }
}

/// `verify_qr_code` where its conditions hold: `None` when an image is given
/// whose grey levels do not fill it, or that does not hold exactly one QR
/// grid that decodes; otherwise `Some` of the answer.
pub fn try_verify_qr_code(img: Option<GreyImage>, input_code: String) -> (r: Option<bool>)
    ensures
        match img {
            None => r == Some(false),
            Some(i) => if i.well_formed() && has_single_readable_grid(i) {
                r == Some(false)
            } else {
                r is None
            },
        },
{
    match img {
        None => Some(verify_qr_code(None, input_code)),
        Some(i) => {
            let len = i.luma.len();
            let fits = match i.width.checked_mul(i.height) {
                Some(n) => n == len,
                None => false,
            };
            if !fits {
                return None;
            }
            let grids = qr_grid_contents(&i);
            if grids.len() == 1 && grids[0].is_some() {
                proof {
                    assert(grids.deep_view()[0] == grids@[0].deep_view());
                }
                Some(verify_qr_code(Some(i), input_code))
            } else {
                proof {
                    if grids.len() == 1 {
                        assert(grids.deep_view()[0] == grids@[0].deep_view());
                    }
                }
                None
            }
        },
    }
}

} // verus!
