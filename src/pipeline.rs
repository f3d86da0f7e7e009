//! The combining pipeline, from two decoded images to a filled output.

use vstd::prelude::*;

use crate::combine::{alternated, combine_images};
use crate::error::ImageDataErrors;
use crate::format::ImageFormat;
use crate::output::{BufferState, FloatingImage};
use crate::picture::{Picture, rgba_len};
use crate::reconcile::{fits_to, fitted_rgba, standardise_size, target_dims};

verus! {

/// Combines two decoded images into an output placeholder named `name`.
///
/// Images of different formats are refused before any pixel is touched.
/// Otherwise both are brought to the size of the one with fewer pixels, their
/// pixel blocks are interleaved, and the result is handed to a placeholder of
/// that size.
pub fn merge_images(
    image_1: Picture,
    format_1: ImageFormat,
    image_2: Picture,
    format_2: ImageFormat,
    name: String,
) -> (r: Result<FloatingImage, ImageDataErrors>)
    requires
        image_1.wf(),
        image_2.wf(),
        format_1 == format_2 ==> fits_to(image_1, target_dims(image_1.dims(), image_2.dims())),
        format_1 == format_2 ==> fits_to(image_2, target_dims(image_1.dims(), image_2.dims())),
    ensures
        format_1 != format_2 ==> r == Err::<FloatingImage, ImageDataErrors>(
            ImageDataErrors::DifferentImageFormats,
        ),
        format_1 == format_2 ==> r is Ok,
        r matches Ok(out) ==> {
            let t = target_dims(image_1.dims(), image_2.dims());
            &&& out.wf()
            &&& out@.width == t.0
            &&& out@.height == t.1
            &&& out@.name == name@
            &&& out@.capacity == rgba_len(t.0, t.1)
            &&& out@.state == BufferState::Filled
            &&& out@.data == alternated(fitted_rgba(image_1, t), fitted_rgba(image_2, t))
        },
{
    if format_1 != format_2 {
        return Err(ImageDataErrors::DifferentImageFormats);
    }
    let (first, second) = standardise_size(image_1, image_2);
    // The common size is that of one of the inputs, whose buffer fits in memory.
    let _len: usize = first.rgba.len();
    let mut output = FloatingImage::new(first.width, first.height, name);
    let combined_data = combine_images(first, second);
    output.set_data(combined_data)?;
    Ok(output)
}

} // verus!
