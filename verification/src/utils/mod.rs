use crate::utils::media::application_octet_stream;
use crate::utils::media::parse_mime;
use crate::utils::media::parsed_mime;
use crate::utils::media::text_plain_utf_8;
use crate::utils::response::INTERNAL_SERVER_ERROR;
use crate::utils::text::chars_of;
use crate::utils::text::find;
use crate::utils::text::same_text;
use crate::utils::text::string_of;
use crate::utils::text::until;
use git2::Blob as GitBlob;
use vstd::prelude::*;

pub mod collect;
pub mod error;
pub mod extractor;
pub mod git;
pub mod media;
pub mod paths;
pub mod response;
pub mod text;

verus! {

/// What a request ends in when no page can be shown for it: the status to
/// answer with, and either the failure underneath or a message for the reader.
#[derive(Debug)]
pub enum Error {
    Failure { status: u16, err: error::Error },
    Custom { status: u16, message: String },
}

impl Error {
    /// An answer with `status` that tells the reader `message`.
    pub fn new(status: u16, message: &str) -> (res: Error)
        ensures
            res matches Error::Custom { status: s, message: m } && s == status && m@ == message@,
    {
        Error::Custom { status, message: message.to_owned() }
    }

    /// The answer to a request that an infrastructure failure cut short.
    pub fn failure(err: error::Error) -> (res: Error)
        ensures
            res == (Error::Failure { status: INTERNAL_SERVER_ERROR, err }),
    {
        Error::Failure { status: INTERNAL_SERVER_ERROR, err }
    }

    /// The status to answer with.
    pub open spec fn spec_status(&self) -> u16 {
        match *self {
            Error::Failure { status, .. } => status,
            Error::Custom { status, .. } => status,
        }
    }

    /// The status to answer with.
    #[verifier::when_used_as_spec(spec_status)]
    pub fn status(&self) -> (res: u16)
        ensures
            res == self.spec_status(),
    {
        match self {
            Error::Failure { status, .. } => *status,
            Error::Custom { status, .. } => *status,
        }
    }
}

/// The media type of a file with the extension `extension`: the one that
/// the extension itself spells out, where it spells one out; otherwise that
/// of arbitrary bytes for a binary file and that of plain text for any other.
pub open spec fn mime_for(extension: Seq<char>, binary: bool) -> Seq<char> {
    match parsed_mime(extension) {
        Some(mime) => mime,
        None => if binary {
            "application/octet-stream"@
        } else {
            "text/plain; charset=utf-8"@
        },
    }
}

/// Computes `mime_for`.
pub fn mime_of(extension: &str, binary: bool) -> (res: String)
    ensures
        res@ == mime_for(extension@, binary),
{
    match parse_mime(extension) {
        Some(mime) => mime,
        None => if binary {
            application_octet_stream()
        } else {
            text_plain_utf_8()
        },
    }
}

/// The media type of `blob`, a file with the extension `extension`. Whether
/// the file is binary is for libgit2 to say of the blob, and is only asked
/// where the extension does not settle the type.
#[must_use]
pub fn blob_mime(blob: &GitBlob<'_>, extension: &str) -> (res: String)
    ensures
        res@ == mime_for(extension@, git::store::binary_of(*blob)),
{
    match parse_mime(extension) {
        Some(mime) => mime,
        None => mime_of(extension, git::store::blob_is_binary(blob)),
    }
}

/// How a binary file can be shown on a page.
#[derive(Clone, Copy, Debug, PartialEq, Eq, Structural)]
pub enum Embedding {
    /// As an image.
    Image,
    /// With an audio player.
    Audio,
    /// With a video player.
    Video,
    /// Not at all.
    Nothing,
}

/// The type of a media type: what stands before its first slash.
pub open spec fn top_level(mime: Seq<char>) -> Seq<char> {
    mime.take(until(mime, '/'))
}

/// How a binary file of the media type `mime` can be shown: images, audio
/// and video by what the browser has for them, anything else not at all.
pub open spec fn embedding_for(mime: Seq<char>) -> Embedding {
    if top_level(mime) == "image"@ {
        Embedding::Image
    } else if top_level(mime) == "audio"@ {
        Embedding::Audio
    } else if top_level(mime) == "video"@ {
        Embedding::Video
    } else {
        Embedding::Nothing
    }
}

/// Computes `embedding_for`.
pub fn embedding_of(mime: &str) -> (res: Embedding)
    ensures
        res == embedding_for(mime@),
{
    let chars = chars_of(mime);
    let end = find(&chars, '/');
    let top = string_of(&chars, 0, end);
    assert(chars@.subrange(0, end as int) == top_level(mime@));
    if same_text(top.as_str(), "image") {
        Embedding::Image
    } else if same_text(top.as_str(), "audio") {
        Embedding::Audio
    } else if same_text(top.as_str(), "video") {
        Embedding::Video
    } else {
        Embedding::Nothing
    }
}

} // verus!
