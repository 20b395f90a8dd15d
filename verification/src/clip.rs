//! Clipboard payloads as the slot stores hold them.

use vstd::prelude::*;

verus! {

/// One clipboard payload, by kind.
#[derive(Clone, Debug, PartialEq, Eq)]
pub enum ClipData {
    PlainText(String),
    RichText(Vec<u8>),
    Image { bytes: Vec<u8>, width: usize, height: usize },
    FilePath(Vec<String>),
    Binary(Vec<u8>),
}

/// A captured clipboard entry.
#[derive(Clone, Debug, PartialEq, Eq)]
pub struct ClipEntry {
    pub id: u64,
    pub data: ClipData,
    pub encrypted: bool,
}

/// Two payloads are the same kind with the same contents.
pub open spec fn same_payload(a: ClipData, b: ClipData) -> bool {
    match (a, b) {
        (ClipData::PlainText(x), ClipData::PlainText(y)) => x@ == y@,
        (ClipData::RichText(x), ClipData::RichText(y)) => x@ == y@,
        (
            ClipData::Image { bytes: x, width: w1, height: h1 },
            ClipData::Image { bytes: y, width: w2, height: h2 },
        ) => x@ == y@ && w1 == w2 && h1 == h2,
        (ClipData::FilePath(x), ClipData::FilePath(y)) => x@ == y@,
        (ClipData::Binary(x), ClipData::Binary(y)) => x@ == y@,
        _ => false,
    }
}

impl ClipData {
    /// A copy of this payload.
    fn duplicate(&self) -> (r: ClipData)
        ensures
            same_payload(r, *self),
    {
        match self {
            ClipData::PlainText(t) => ClipData::PlainText(t.clone()),
            ClipData::RichText(b) => ClipData::RichText(b.clone()),
            ClipData::Image { bytes, width, height } => ClipData::Image {
                bytes: bytes.clone(),
                width: *width,
                height: *height,
            },
            ClipData::FilePath(p) => {
                let copy = p.clone();
                assert(copy@ =~= p@);
                ClipData::FilePath(copy)
            },
            ClipData::Binary(b) => ClipData::Binary(b.clone()),
        }
    }
}

impl ClipEntry {
    /// A copy of this entry with the same id and payload, marked encrypted.
    pub(crate) fn encrypted_copy(&self) -> (r: ClipEntry)
        ensures
            r.id == self.id,
            same_payload(r.data, self.data),
            r.encrypted,
    {
        ClipEntry { id: self.id, data: self.data.duplicate(), encrypted: true }
    }

    /// A fresh, unencrypted entry with the given id and payload.
    pub fn new(id: u64, data: ClipData) -> (entry: Self)
        ensures
            entry.id == id,
            entry.data == data,
            !entry.encrypted,
    {
        ClipEntry { id, data, encrypted: false }
    }
}

/// An image read from the system clipboard: its raw bytes, the same
/// image re-encoded as PNG when that succeeded, and its size.
#[derive(Clone, Debug)]
pub struct CapturedImage {
    pub raw: Vec<u8>,
    pub png: Option<Vec<u8>>,
    pub width: usize,
    pub height: usize,
}

/// The payload a capture keeps, by priority: file paths, then rich text,
/// then an image (as PNG, or as raw binary when it could not be
/// re-encoded), then non-empty plain text.
pub open spec fn captured_payload(
    files: Option<Vec<String>>,
    rtf: Option<Vec<u8>>,
    image: Option<CapturedImage>,
    text: Option<String>,
) -> Option<ClipData> {
    if let Some(paths) = files {
        Some(ClipData::FilePath(paths))
    } else if let Some(bytes) = rtf {
        Some(ClipData::RichText(bytes))
    } else if let Some(img) = image {
        match img.png {
            Some(png) => Some(ClipData::Image { bytes: png, width: img.width, height: img.height }),
            None => Some(ClipData::Binary(img.raw)),
        }
    } else if let Some(t) = text {
        if t@.len() > 0 {
            Some(ClipData::PlainText(t))
        } else {
            None
        }
    } else {
        None
    }
}

/// Pick the payload to keep from what the system clipboard offered.
pub fn choose_capture(
    files: Option<Vec<String>>,
    rtf: Option<Vec<u8>>,
    image: Option<CapturedImage>,
    text: Option<String>,
) -> (r: Option<ClipData>)
    ensures
        r == captured_payload(files, rtf, image, text),
{
    if let Some(paths) = files {
        return Some(ClipData::FilePath(paths));
    }
    if let Some(bytes) = rtf {
        return Some(ClipData::RichText(bytes));
    }
    if let Some(img) = image {
        return match img.png {
            Some(png) => Some(ClipData::Image { bytes: png, width: img.width, height: img.height }),
            None => Some(ClipData::Binary(img.raw)),
        };
    }
    if let Some(t) = text {
        if !t.as_str().is_empty() {
            return Some(ClipData::PlainText(t));
        }
    }
    None
}

/// A capture keeps file paths whenever they are offered; otherwise rich
/// text; otherwise an image (as PNG when re-encoded, else its raw bytes as
/// binary); otherwise plain text, but only when it is not empty.
pub proof fn law_capture_priority(
    files: Option<Vec<String>>,
    rtf: Option<Vec<u8>>,
    image: Option<CapturedImage>,
    text: Option<String>,
)
    ensures
        files matches Some(p) ==> captured_payload(files, rtf, image, text) == Some(
            ClipData::FilePath(p),
        ),
        files is None ==> (rtf matches Some(b) ==> captured_payload(files, rtf, image, text) == Some(
            ClipData::RichText(b),
        )),
        files is None && rtf is None ==> (image matches Some(img) ==> captured_payload(
            files,
            rtf,
            image,
            text,
        ) == Some(
            match img.png {
                Some(png) => ClipData::Image { bytes: png, width: img.width, height: img.height },
                None => ClipData::Binary(img.raw),
            },
        )),
        files is None && rtf is None && image is None ==> (captured_payload(files, rtf, image, text)
            is Some <==> (text matches Some(t) && t@.len() > 0)),
        captured_payload(files, rtf, image, text) matches Some(ClipData::PlainText(t)) ==> t@.len()
            > 0 && text == Some(t),
{
}

} // verus!
