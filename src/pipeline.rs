use vstd::prelude::*;

use image::ImageFormat;

use crate::grid::{resize_fits, resize_rgb, resized_rgb, rgb_len, PixelGrid};
use crate::interleave::{alternate_pixels, interleavable, interleaved};
use crate::output::{FloatingImage, ImageDataErrors, OUTPUT_CAPACITY};
use crate::reconcile::{reconcile, smaller_dims, ResizeTarget};

verus! {

#[verifier::external_type_specification]
#[verifier::external_body]
pub struct ExImageFormat(ImageFormat);

/// Relies on the derived `==` of image::ImageFormat, an enum without fields: two values
/// compare equal exactly when they name the same format.
#[verifier::external_body]
fn same_format(a: &ImageFormat, b: &ImageFormat) -> (r: bool)
    ensures
        r == (*a == *b),
{
    a == b
}

/// The common size of two images.
pub open spec fn target_of(one: PixelGrid, two: PixelGrid) -> (u32, u32) {
    smaller_dims(one.dims(), two.dims())
}

/// The pixels of `g` at size `width` x `height`: unchanged where it already has that
/// size, resampled otherwise.
pub open spec fn fitted(g: PixelGrid, width: u32, height: u32) -> Seq<u8> {
    if g.dims() == (width, height) {
        g.data@
    } else {
        resized_rgb(g.data@, g.width, g.height, width, height)
    }
}

/// Whether both images can be resampled to their common size on this machine.
pub open spec fn standardise_fits(one: PixelGrid, two: PixelGrid) -> bool {
    let t = target_of(one, two);
    resize_fits(one.width, one.height, t.0, t.1) && resize_fits(two.width, two.height, t.0, t.1)
}

/// Number of bytes of the merged image of `one` and `two`.
pub open spec fn merged_len(one: PixelGrid, two: PixelGrid) -> nat {
    rgb_len(target_of(one, two).0, target_of(one, two).1)
}

/// The bytes of the merged image of `one` and `two`.
pub open spec fn merged_data(one: PixelGrid, two: PixelGrid) -> Seq<u8> {
    let t = target_of(one, two);
    interleaved(fitted(one, t.0, t.1), fitted(two, t.0, t.1))
}

/// `img` is the merge of `one` and `two`, to be written to `output`.
pub open spec fn is_merge_of(img: FloatingImage, one: PixelGrid, two: PixelGrid, output: String) -> bool {
    &&& (img.width, img.height) == target_of(one, two)
    &&& img.name == output
    &&& img.capacity == OUTPUT_CAPACITY
    &&& img.data@ == merged_data(one, two)
    &&& img.wf()
}

/// Brings both images to their common size, resampling the one whose size differs.
pub fn standardise_size(image_one: PixelGrid, image_two: PixelGrid) -> (r: (PixelGrid, PixelGrid))
    requires
        image_one.wf(),
        image_two.wf(),
        standardise_fits(image_one, image_two),
    ensures
        r.0.dims() == target_of(image_one, image_two),
        r.1.dims() == target_of(image_one, image_two),
        r.0.data@ == fitted(image_one, r.0.width, r.0.height),
        r.1.data@ == fitted(image_two, r.1.width, r.1.height),
        r.0.wf(),
        r.1.wf(),
{
    let rec = reconcile((image_one.width, image_one.height), (image_two.width, image_two.height));
    match rec.resize {
        ResizeTarget::First => (resize_rgb(image_one, rec.width, rec.height), image_two),
        ResizeTarget::Second => (image_one, resize_rgb(image_two, rec.width, rec.height)),
        ResizeTarget::Neither => (image_one, image_two),
    }
}

/// Interleaves the pixel bytes of two images of the same size.
pub fn combine_images(image_one: PixelGrid, image_two: PixelGrid) -> (r: Result<Vec<u8>, ImageDataErrors>)
    ensures
        r is Ok <==> interleavable(image_one.data@, image_two.data@),
        r matches Ok(v) ==> v@ == interleaved(image_one.data@, image_two.data@),
        r matches Err(e) ==> e == ImageDataErrors::OutOfRange,
{
    alternate_pixels(image_one.data, image_two.data)
}

fn resize_fits_exec(width: u32, height: u32, new_width: u32, new_height: u32) -> (r: bool)
    ensures
        r == resize_fits(width, height, new_width, new_height),
{
    assert(16 * ((width as nat) * (new_height as nat)) <= u128::MAX) by (nonlinear_arith)
        requires
            width <= u32::MAX,
            new_height <= u32::MAX,
    ;
    assert(16 * ((width as nat) * (height as nat)) <= u128::MAX) by (nonlinear_arith)
        requires
            width <= u32::MAX,
            height <= u32::MAX,
    ;
    assert(3 * ((new_width as nat) * (new_height as nat)) <= u128::MAX) by (nonlinear_arith)
        requires
            new_width <= u32::MAX,
            new_height <= u32::MAX,
    ;
    let limit = isize::MAX as u128;
    16 * ((width as u128) * (new_height as u128)) <= limit && 16 * ((width as u128) * (
    height as u128)) <= limit && 3 * ((new_width as u128) * (new_height as u128)) <= limit
}

/// Merges two decoded images into the output image named `output`.
///
/// Inputs of different formats are refused first. The output takes the size of the
/// smaller image (the first on a tie); a byte length that is not a multiple of 4 is
/// refused, then one that exceeds the output capacity or whose resampling would not
/// fit in memory. Otherwise the image of the other size is resampled and the two are
/// interleaved.
pub fn merge_images(
    image_one: PixelGrid,
    format_one: ImageFormat,
    image_two: PixelGrid,
    format_two: ImageFormat,
    output: String,
) -> (r: Result<FloatingImage, ImageDataErrors>)
    requires
        image_one.wf(),
        image_two.wf(),
    ensures
        format_one != format_two ==> r == Err::<FloatingImage, ImageDataErrors>(
            ImageDataErrors::DifferentImageFormats,
        ),
        format_one == format_two && merged_len(image_one, image_two) % 4 != 0 ==> r == Err::<
            FloatingImage,
            ImageDataErrors,
        >(ImageDataErrors::OutOfRange),
        format_one == format_two && merged_len(image_one, image_two) % 4 == 0 && (merged_len(
            image_one,
            image_two,
        ) > OUTPUT_CAPACITY || !standardise_fits(image_one, image_two)) ==> r == Err::<
            FloatingImage,
            ImageDataErrors,
        >(ImageDataErrors::BufferTooSmall),
        r is Ok <==> (format_one == format_two && merged_len(image_one, image_two) % 4 == 0
            && merged_len(image_one, image_two) <= OUTPUT_CAPACITY && standardise_fits(
            image_one,
            image_two,
        )),
        r matches Ok(img) ==> is_merge_of(img, image_one, image_two, output),
{
    if !same_format(&format_one, &format_two) {
        return Err(ImageDataErrors::DifferentImageFormats);
    }
    let rec = reconcile((image_one.width, image_one.height), (image_two.width, image_two.height));
    assert((rec.width as nat) * (rec.height as nat) <= u64::MAX) by (nonlinear_arith)
        requires
            rec.width <= u32::MAX,
            rec.height <= u32::MAX,
    ;
    let pixels: u64 = (rec.width as u64) * (rec.height as u64);
    if pixels % 4 != 0 {
        return Err(ImageDataErrors::OutOfRange);
    }
    if pixels > OUTPUT_CAPACITY as u64 / 3 {
        return Err(ImageDataErrors::BufferTooSmall);
    }
    if !resize_fits_exec(image_one.width, image_one.height, rec.width, rec.height)
        || !resize_fits_exec(image_two.width, image_two.height, rec.width, rec.height) {
        return Err(ImageDataErrors::BufferTooSmall);
    }
    let (one, two) = standardise_size(image_one, image_two);
    let mut out = FloatingImage::new(rec.width, rec.height, output);
    let combined_data = match combine_images(one, two) {
        Ok(v) => v,
        Err(e) => return Err(e),
    };
    match out.set_data(combined_data) {
        Ok(()) => Ok(out),
        Err(e) => Err(e),
    }
}

/// Merging the same two images twice gives the same size and byte-identical data.
pub proof fn lemma_merge_repeatable(
    one: PixelGrid,
    two: PixelGrid,
    output: String,
    first: FloatingImage,
    second: FloatingImage,
)
    requires
        is_merge_of(first, one, two, output),
        is_merge_of(second, one, two, output),
    ensures
        first.width == second.width,
        first.height == second.height,
        first.data@ == second.data@,
{
}

} // verus!
