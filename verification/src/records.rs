//! The records that cross the command boundary beside the four core
//! operations, and the naming rules that go with them.

use crate::text::{ascii_lower, lower_char, same_text};
use crate::upload::{extension_of, file_extension};
use crate::transport::{describe_status, status_label};
use vstd::prelude::*;
use vstd::string::*;

verus! {

/// What is known of an update.
#[derive(Debug, PartialEq, Eq)]
pub struct UpdateManifest {
    pub version: String,
    pub body: String,
    pub date: String,
}

/// Whether an update is to be had, and which.
#[derive(Debug, PartialEq, Eq)]
pub struct UpdateCheckResponse {
    pub should_update: bool,
    pub manifest: Option<UpdateManifest>,
}

impl UpdateCheckResponse {
    /// A manifest is present exactly when an update is to be had.
    pub open spec fn well_formed(&self) -> bool {
        self.should_update <==> self.manifest is Some
    }

    /// The answer when no update was found.
    pub fn up_to_date() -> (r: UpdateCheckResponse)
        ensures
            !r.should_update,
            r.manifest is None,
            r.well_formed(),
    {
        UpdateCheckResponse { should_update: false, manifest: None }
    }

    /// The answer when an update was found. Release notes that are missing
    /// become the empty text, and a missing date becomes `unknown`.
    pub fn available(version: String, body: Option<String>, date: Option<String>) -> (r:
        UpdateCheckResponse)
        ensures
            r.should_update,
            r.well_formed(),
            r.manifest matches Some(m) && m.version@ == version@ && m.body@ == (match body {
                Some(b) => b@,
                None => Seq::empty(),
            }) && m.date@ == (match date {
                Some(d) => d@,
                None => "unknown"@,
            }),
    {
        let body = match body {
            Some(b) => b,
            None => String::new(),
        };
        let date = match date {
            Some(d) => d,
            None => String::from_str("unknown"),
        };
        UpdateCheckResponse {
            should_update: true,
            manifest: Some(UpdateManifest { version, body, date }),
        }
    }
}

/// Which file to read for the frontend.
#[derive(Debug, PartialEq, Eq)]
pub struct ReadFileBase64Options {
    pub path: String,
}

/// A generated file to write: its name, its content as base64, and whether it
/// is a video or an image.
#[derive(Debug, PartialEq, Eq)]
pub struct WriteOutputFileOptions {
    pub file_name: String,
    pub data: String,
    pub media_type: String,
}

/// An image file to keep for a character.
#[derive(Debug, PartialEq, Eq)]
pub struct SaveCharacterImageOptions {
    pub source_path: String,
    pub character_id: String,
}

/// Image data to keep for a character.
#[derive(Debug, PartialEq, Eq)]
pub struct SaveCharacterImageFromBase64Options {
    pub base64_data: String,
    pub character_id: String,
    pub mime_type: String,
}

/// Where a character's image was kept, or why it was not.
#[derive(Debug, PartialEq, Eq)]
pub struct SaveCharacterImageResponse {
    pub success: bool,
    pub path: Option<String>,
    pub error: Option<String>,
}

/// A remote image to keep in the local cache.
#[derive(Debug, PartialEq, Eq)]
pub struct CacheImageOptions {
    pub url: String,
    pub file_name: String,
}

/// Where a remote image was cached, or why it was not.
#[derive(Debug, PartialEq, Eq)]
pub struct CacheImageResponse {
    pub success: bool,
    pub local_path: Option<String>,
    pub error: Option<String>,
}

/// The file extension for an image of the given media type; `png` for any
/// type that is not listed.
pub open spec fn image_extension_of(mime_type: Seq<char>) -> Seq<char> {
    if mime_type == "image/png"@ {
        "png"@
    } else if mime_type == "image/jpeg"@ || mime_type == "image/jpg"@ {
        "jpg"@
    } else if mime_type == "image/webp"@ {
        "webp"@
    } else {
        "png"@
    }
}

/// Chooses the file extension for an image by its media type.
pub fn image_extension(mime_type: &str) -> (r: &'static str)
    ensures
        r@ == image_extension_of(mime_type@),
{
    if same_text(mime_type, "image/png") {
        "png"
    } else if same_text(mime_type, "image/jpeg") || same_text(mime_type, "image/jpg") {
        "jpg"
    } else if same_text(mime_type, "image/webp") {
        "webp"
    } else {
        "png"
    }
}

/// The file name of a character's preview image.
pub open spec fn preview_name_of(character_id: Seq<char>, mime_type: Seq<char>) -> Seq<char> {
    "character_preview_"@ + character_id + "."@ + image_extension_of(mime_type)
}

/// Names the preview image of a character.
pub fn preview_file_name(character_id: &str, mime_type: &str) -> (r: String)
    ensures
        r@ == preview_name_of(character_id@, mime_type@),
{
    let mut s = String::from_str("character_preview_");
    s.append(character_id);
    s.append(".");
    s.append(image_extension(mime_type));
    s
}

/// The name under which a copied image is kept: that of its source, or the
/// character's id with `.jpg` where the source path ends in no name.
pub fn copied_file_name(found: Option<String>, character_id: &str) -> (r: String)
    ensures
        r@ == match found {
            Some(name) => name@,
            None => character_id@ + ".jpg"@,
        },
{
    match found {
        Some(name) => name,
        None => {
            let mut s = character_id.to_owned();
            s.append(".jpg");
            s
        },
    }
}

/// The path of a character's file below the directory `base`, with `/`
/// between its parts.
pub open spec fn character_path_of(base: Seq<char>, character_id: Seq<char>, file_name: Seq<char>)
    -> Seq<char> {
    base + "/"@ + character_id + "/"@ + file_name
}

/// Writes the relative path of a character's file below `base`.
pub fn character_path(base: &str, character_id: &str, file_name: &str) -> (r: String)
    ensures
        r@ == character_path_of(base@, character_id@, file_name@),
{
    let mut s = base.to_owned();
    s.append("/");
    s.append(character_id);
    s.append("/");
    s.append(file_name);
    s
}

impl SaveCharacterImageResponse {
    /// The answer that names where the image was kept.
    pub fn saved(path: String) -> (r: SaveCharacterImageResponse)
        ensures
            r.success,
            r.path matches Some(p) && p@ == path@,
            r.error is None,
    {
        SaveCharacterImageResponse { success: true, path: Some(path), error: None }
    }

    /// The answer that says why the image was not kept: `label`, a colon and
    /// the reason.
    pub fn not_saved(label: &str, reason: &str) -> (r: SaveCharacterImageResponse)
        ensures
            !r.success,
            r.path is None,
            r.error matches Some(e) && e@ == label@ + ": "@ + reason@,
    {
        let mut s = label.to_owned();
        s.append(": ");
        s.append(reason);
        SaveCharacterImageResponse { success: false, path: None, error: Some(s) }
    }
}

/// The text that reports a download refused with a status code.
pub open spec fn download_refused_text(status: u16) -> Seq<char> {
    "Download failed with status: "@ + status_label(status)
}

/// Describes a download that was answered outside the success class.
pub fn download_refused(status: u16) -> (r: String)
    ensures
        r@ == download_refused_text(status),
{
    let mut s = String::from_str("Download failed with status: ");
    s.append(describe_status(status).as_str());
    s
}

impl CacheImageResponse {
    /// The answer that names the local copy.
    pub fn cached(local_path: String) -> (r: CacheImageResponse)
        ensures
            r.success,
            r.local_path matches Some(p) && p@ == local_path@,
            r.error is None,
    {
        CacheImageResponse { success: true, local_path: Some(local_path), error: None }
    }

    /// The answer for a download that was answered with `status`, outside
    /// the success class.
    pub fn refused(status: u16) -> (r: CacheImageResponse)
        ensures
            !r.success,
            r.local_path is None,
            r.error matches Some(e) && e@ == download_refused_text(status),
    {
        CacheImageResponse { success: false, local_path: None, error: Some(download_refused(status)) }
    }
}

/// `path` with every `\` turned into `/`.
pub open spec fn forward_slashes(path: Seq<char>) -> Seq<char> {
    Seq::new(
        path.len(),
        |i: int|
            if path[i] == '\\' {
                '/'
            } else {
                path[i]
            },
    )
}

/// Writes a path with `/` as its only separator.
pub fn with_forward_slashes(path: &str) -> (r: String)
    ensures
        r@ == forward_slashes(path@),
{
    let n = path.unicode_len();
    let mut out = String::new();
    let mut i: usize = 0;
    while i < n
        invariant
            n == path@.len(),
            i <= n,
            out@ =~= forward_slashes(path@).take(i as int),
        decreases n - i,
    {
        if path.get_char(i) == '\\' {
            proof {
                reveal_strlit("/");
            }
            out.append("/");
        } else {
            out.append(path.substring_char(i, i + 1));
        }
        i += 1;
    }
    out
}

/// Whether a file of this name is a plugin script: its extension is `js`.
pub fn is_plugin_file(name: &str) -> (r: bool)
    ensures
        r == (extension_of(name@) == Some("js"@)),
{
    match file_extension(name) {
        Some(ext) => same_text(ext.as_str(), "js"),
        None => false,
    }
}

/// Whether `base` ends in a `.` and then `extension`, ASCII capitals and
/// small letters taken for the same.
pub open spec fn ends_in_extension(base: Seq<char>, extension: Seq<char>) -> bool {
    &&& base.len() > extension.len()
    &&& base[base.len() - extension.len() - 1] == '.'
    &&& forall|i: int|
        0 <= i < extension.len() ==> ascii_lower(#[trigger] base[base.len() - extension.len() + i])
            == ascii_lower(extension[i])
}

/// The new name of a file: the base name the user typed, without the
/// extension where the user typed that too, then `.` and the extension that
/// the file has.
pub open spec fn renamed_of(base: Seq<char>, extension: Seq<char>) -> Seq<char> {
    let stem = if ends_in_extension(base, extension) {
        base.subrange(0, base.len() - extension.len() - 1)
    } else {
        base
    };
    stem + "."@ + extension
}

fn typed_extension(base: &str, extension: &str) -> (r: bool)
    ensures
        r == ends_in_extension(base@, extension@),
{
    let n = base.unicode_len();
    let m = extension.unicode_len();
    if n <= m {
        return false;
    }
    let start = n - m;
    if base.get_char(start - 1) != '.' {
        return false;
    }
    let mut i: usize = 0;
    while i < m
        invariant
            n == base@.len(),
            m == extension@.len(),
            m < n,
            start == n - m,
            i <= m,
            forall|j: int|
                0 <= j < i ==> ascii_lower(#[trigger] base@[n - m + j]) == ascii_lower(
                    extension@[j],
                ),
        decreases m - i,
    {
        if lower_char(base.get_char(start + i)) != lower_char(extension.get_char(i)) {
            return false;
        }
        i += 1;
    }
    true
}

/// Names a file anew, keeping its extension.
pub fn renamed_file_name(base: &str, extension: &str) -> (r: String)
    ensures
        r@ == renamed_of(base@, extension@),
{
    let mut name = if typed_extension(base, extension) {
        let n = base.unicode_len();
        let m = extension.unicode_len();
        base.substring_char(0, n - m - 1).to_owned()
    } else {
        base.to_owned()
    };
    name.append(".");
    name.append(extension);
    name
}

} // verus!
