//! The compute side of a media upload: reading a file's extension, choosing
//! its mime type, and checking the type against the expected kind.
use crate::strings::lemma_split_len_pos;
use crate::strings::spec_split;
use crate::strings::split_char;
use crate::strings::starts_with_seq;
use crate::strings::str_eq;
use crate::strings::str_starts_with;
use vstd::prelude::*;

verus! {

/// The body of the media-asset registration call.
#[derive(Debug, PartialEq, Eq)]
pub struct ImageData {
    pub filepath: String,
    pub mimetype: String,
}

/// The mime type of a known media file extension.
pub open spec fn spec_mime_type(ext: Seq<char>) -> Option<Seq<char>> {
    if ext == "png"@ {
        Some("image/png"@)
    } else if ext == "mov"@ {
        Some("video/quicktime"@)
    } else if ext == "mp4"@ {
        Some("video/mp4"@)
    } else if ext == "jpg"@ {
        Some("image/jpeg"@)
    } else if ext == "jpeg"@ {
        Some("image/jpeg"@)
    } else if ext == "gif"@ {
        Some("image/gif"@)
    } else {
        None
    }
}

/// The mime type of a media file extension, for the kinds the platform
/// takes.
pub fn mime_type_for(extension: &str) -> (r: Option<&'static str>)
    ensures
        match r {
            Some(m) => spec_mime_type(extension@) == Some(m@),
            None => spec_mime_type(extension@) is None,
        },
{
    if str_eq(extension, "png") {
        Some("image/png")
    } else if str_eq(extension, "mov") {
        Some("video/quicktime")
    } else if str_eq(extension, "mp4") {
        Some("video/mp4")
    } else if str_eq(extension, "jpg") {
        Some("image/jpeg")
    } else if str_eq(extension, "jpeg") {
        Some("image/jpeg")
    } else if str_eq(extension, "gif") {
        Some("image/gif")
    } else {
        None
    }
}

/// The extension of a file path: what follows the last dot, or the whole
/// path without one.
pub fn extension_of(media_path: &str) -> (r: String)
    ensures
        r@ == spec_split(media_path@, '.').last(),
{
    let parts = split_char(media_path, '.');
    proof {
        lemma_split_len_pos(media_path@, '.');
    }
    let last = parts[parts.len() - 1].clone();
    proof {
        let views = parts@.map_values(|x: String| x@);
        assert(last@ == views[views.len() - 1]);
    }
    last
}

/// Build the media registration body for a file: the mime type follows from
/// the file's extension and must be of the expected kind; an unknown
/// extension or a type of another kind gives nothing.
pub fn image_data_for(mime_prefix: &str, media_path: &str) -> (r: Option<ImageData>)
    ensures
        match r {
            Some(d) => {
                &&& d.filepath@ == media_path@
                &&& (spec_mime_type(spec_split(media_path@, '.').last()) matches Some(m)
                    && d.mimetype@ == m && starts_with_seq(m, mime_prefix@))
            },
            None => (match spec_mime_type(spec_split(media_path@, '.').last()) {
                Some(m) => !starts_with_seq(m, mime_prefix@),
                None => true,
            }),
        },
{
    let extension = extension_of(media_path);
    let mime = match mime_type_for(extension.as_str()) {
        Some(m) => m,
        None => {
            return None;
        },
    };
    if !str_starts_with(mime, mime_prefix) {
        return None;
    }
    Some(
        ImageData {
            filepath: String::from_str(media_path),
            mimetype: String::from_str(mime),
        },
    )
}

} // verus!
