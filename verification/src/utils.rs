//! Where the picture of an icon comes from.

use vstd::prelude::*;
use vstd::string::StringExecFns;

use crate::path::{is_absolute, path_is_absolute};

verus! {

/// Where the picture of an icon is taken from.
#[derive(Debug, PartialEq, Eq)]
pub enum ImageSource {
    /// The image file at this path.
    File(String),
    /// The icon of this name in the icon theme.
    IconName(String),
}

/// The mathematical content of an [`ImageSource`].
pub enum ImageSourceView {
    File(Seq<char>),
    IconName(Seq<char>),
}

impl View for ImageSource {
    type V = ImageSourceView;

    open spec fn view(&self) -> ImageSourceView {
        match self {
            ImageSource::File(path) => ImageSourceView::File(path@),
            ImageSource::IconName(name) => ImageSourceView::IconName(name@),
        }
    }
}

impl DeepView for ImageSource {
    type V = ImageSourceView;

    open spec fn deep_view(&self) -> ImageSourceView {
        self@
    }
}

impl ImageSourceView {
    /// An icon that is written as an absolute path is the file at that
    /// path; any other is a name in the icon theme.
    pub open spec fn of(icon: Seq<char>, absolute: bool) -> ImageSourceView {
        if absolute {
            ImageSourceView::File(icon)
        } else {
            ImageSourceView::IconName(icon)
        }
    }
}

impl ImageSource {
    /// The source of `icon`, which is an absolute path or not, as
    /// `absolute` says.
    pub fn of(icon: &str, absolute: bool) -> (source: ImageSource)
        ensures
            source@ == ImageSourceView::of(icon@, absolute),
    {
        if absolute {
            ImageSource::File(String::from_str(icon))
        } else {
            ImageSource::IconName(String::from_str(icon))
        }
    }
}

/// The source of the image that shows `icon`: the file, where `icon` is an
/// absolute path as the platform reads it, and the themed icon of that name
/// otherwise.
pub fn build_image(icon: &str) -> (source: ImageSource)
    ensures
        source@ == ImageSourceView::of(icon@, path_is_absolute(icon@)),
{
    ImageSource::of(icon, is_absolute(icon))
}

} // verus!
