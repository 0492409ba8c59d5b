//! Turning fetched bytes into an image handle that the renderer can draw.

use crate::preview::FetchError;
use image::{DynamicImage, ImageError, ImageResult};
use ratatui_image::picker::Picker;
use ratatui_image::protocol::StatefulProtocol;
use vstd::prelude::*;

verus! {

/// A decoded image of the `image` crate. Its pixels are not modelled.
#[verifier::external_type_specification]
#[verifier::external_body]
pub struct ExDynamicImage(DynamicImage);

/// The error of the `image` crate's decoders. Its cause is not modelled.
#[verifier::external_type_specification]
#[verifier::external_body]
pub struct ExImageError(ImageError);

/// What `ratatui_image` knows of the terminal: its graphics protocol and
/// the pixel size of one character cell.
#[verifier::external_type_specification]
#[verifier::external_body]
pub struct ExPicker(Picker);

/// An image together with the state that `ratatui_image` keeps to resize
/// and encode it for the area it is drawn into.
#[verifier::external_type_specification]
#[verifier::external_body]
pub struct ExStatefulProtocol(StatefulProtocol);

/// `image::load_from_memory` guesses the format of an encoded image from
/// its leading bytes and decodes it. Which bytes it accepts depends on the
/// formats built in and on the decoding hooks registered in the process, so
/// nothing is claimed of its result.
pub assume_specification[ image::load_from_memory ](buffer: &[u8]) -> ImageResult<DynamicImage>
;

/// `Picker::new_resize_protocol` wraps a decoded image for the terminal
/// that the picker describes. It may draw a random image id, so nothing is
/// claimed of the handle it returns.
pub assume_specification[ Picker::new_resize_protocol ](
    picker: &Picker,
    image: DynamicImage,
) -> StatefulProtocol
;

/// The image handle for a decoding attempt: a handle for a decoded image,
/// `FetchError::Decode` for a failed attempt.
pub fn into_handle(picker: &Picker, decoded: ImageResult<DynamicImage>) -> (handle: Result<
    StatefulProtocol,
    FetchError,
>)
    ensures
        handle is Ok <==> decoded is Ok,
        handle is Err ==> handle == Err::<StatefulProtocol, FetchError>(FetchError::Decode),
{
    match decoded {
        Ok(image) => Ok(picker.new_resize_protocol(image)),
        Err(_) => Err(FetchError::Decode),
    }
}

/// Decodes the bytes of a fetched thumbnail into an image handle for the
/// terminal that `picker` describes. Whether the bytes decode is for the
/// decoder to say; a failure is always reported as `FetchError::Decode`.
pub fn decode_thumbnail(picker: &Picker, bytes: &[u8]) -> (handle: Result<
    StatefulProtocol,
    FetchError,
>)
    ensures
        handle is Err ==> handle == Err::<StatefulProtocol, FetchError>(FetchError::Decode),
{
    into_handle(picker, image::load_from_memory(bytes))
}

} // verus!
