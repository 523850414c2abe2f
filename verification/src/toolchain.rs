//! The toolchain file: a line of text in a project's tree that pins the image
//! to use there.

use crate::image::{ImageBuf, ImageSourceBuf, ImageView, SourceView, TagVariants};
use crate::text::{spec_trim, spec_words, trim, words};
use vstd::prelude::*;

verus! {

/// The image that the text of a toolchain file pins. Its first word names the
/// source, the words after it the variants; a text without words pins
/// nothing.
pub open spec fn pinned_image(info: Seq<char>) -> Option<ImageView> {
    let found = spec_words(spec_trim(info));
    if found.len() == 0 {
        None
    } else {
        Some(
            ImageView {
                variants: TagVariants::spec_parse(found.skip(1)),
                source: SourceView::of_word(found[0]),
            },
        )
    }
}

/// Reads the image that a toolchain file pins from the file's text.
///
/// The first word is a tag of the upstream repository, or `=NAME` for the
/// local image `NAME`. The words after it are variant names.
pub fn toolchain_override(info: &str) -> (image: Option<ImageBuf>)
    ensures
        match image {
            Some(pinned) => pinned_image(info@) == Some(pinned@),
            None => pinned_image(info@) is None,
        },
{
    let found = words(trim(info));
    if found.len() == 0 {
        return None;
    }
    let source = ImageSourceBuf::parse(found[0].as_str());
    let variants = TagVariants::parse_from(&found, 1);
    Some(ImageBuf { variants, source })
}

} // verus!
