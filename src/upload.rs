use vstd::prelude::*;
use vstd::string::*;

verus! {

/// What is known of a stored file.
#[derive(Clone, Debug)]
pub struct FileInfo {
    pub uri: String,
    pub content_type: String,
    pub content_length: u64,
    pub available: bool,
}

/// Why image bytes were refused.
#[derive(Clone, Copy, Debug, PartialEq, Eq, Structural)]
pub enum ImageError {
    /// No bytes at all.
    Empty,
    /// Not a PNG, JPEG, GIF or WebP image.
    UnsupportedFormat,
}

/// The storage endpoint that files are uploaded to.
pub struct UploadService {
    bundlr_url: String,
}

/// Whether `data` begins with `prefix`.
pub open spec fn starts_with(data: Seq<u8>, prefix: Seq<u8>) -> bool {
    prefix.len() <= data.len() && data.subrange(0, prefix.len() as int) == prefix
}

pub open spec fn png_signature() -> Seq<u8> {
    seq![0x89u8, 0x50u8, 0x4Eu8, 0x47u8, 0x0Du8, 0x0Au8, 0x1Au8, 0x0Au8]
}

pub open spec fn jpeg_signature() -> Seq<u8> {
    seq![0xFFu8, 0xD8u8, 0xFFu8]
}

pub open spec fn gif87_signature() -> Seq<u8> {
    seq![0x47u8, 0x49u8, 0x46u8, 0x38u8, 0x37u8, 0x61u8]
}

pub open spec fn gif89_signature() -> Seq<u8> {
    seq![0x47u8, 0x49u8, 0x46u8, 0x38u8, 0x39u8, 0x61u8]
}

/// `RIFF`, then four size bytes, then `WEBP`.
pub open spec fn is_webp(data: Seq<u8>) -> bool {
    data.len() >= 12 && starts_with(data, seq![0x52u8, 0x49u8, 0x46u8, 0x46u8])
        && data.subrange(8, 12) == seq![0x57u8, 0x45u8, 0x42u8, 0x50u8]
}

/// Image bytes that are accepted: at least eight bytes that start like a PNG,
/// JPEG, GIF or WebP file.
pub open spec fn is_supported_image(data: Seq<u8>) -> bool {
    data.len() >= 8 && (starts_with(data, png_signature()) || starts_with(data, jpeg_signature())
        || starts_with(data, gif87_signature()) || starts_with(data, gif89_signature()) || is_webp(data))
}

/// The text after the last `.` of a file name, or the whole name when it has none.
pub open spec fn extension_of(name: Seq<char>) -> Seq<char> {
    if exists|i: int| 0 <= i < name.len() && name[i] == '.' {
        let last = choose|i: int|
            0 <= i < name.len() && name[i] == '.' && forall|j: int| i < j < name.len() ==> name[j] != '.';
        name.subrange(last + 1, name.len() as int)
    } else {
        name
    }
}

/// The content type served for a file extension.
pub open spec fn content_type_of(ext: Seq<char>) -> Seq<char> {
    if ext == "png"@ {
        "image/png"@
    } else if ext == "jpg"@ || ext == "jpeg"@ {
        "image/jpeg"@
    } else if ext == "gif"@ {
        "image/gif"@
    } else if ext == "webp"@ {
        "image/webp"@
    } else if ext == "svg"@ {
        "image/svg+xml"@
    } else {
        "application/octet-stream"@
    }
}

/// Whether `data` holds `pattern` at `start`.
fn bytes_at(data: &[u8], start: usize, pattern: &[u8]) -> (r: bool)
    requires
        start + pattern@.len() <= data@.len(),
    ensures
        r == (data@.subrange(start as int, start + pattern@.len()) == pattern@),
{
    let dn = data.len();
    let mut i: usize = 0;
    while i < pattern.len()
        invariant
            0 <= i <= pattern@.len(),
            dn == data@.len(),
            start + pattern@.len() <= data@.len(),
            forall|k: int| 0 <= k < i ==> data@[start + k] == pattern@[k],
        decreases pattern.len() - i,
    {
        if data[start + i] != pattern[i] {
            assert(data@.subrange(start as int, start + pattern@.len())[i as int] != pattern@[i as int]);
            return false;
        }
        i = i + 1;
    }
    assert(data@.subrange(start as int, start + pattern@.len()) =~= pattern@);
    true
}

/// Whether two texts are equal.
fn same_text(a: &str, b: &str) -> (r: bool)
    ensures
        r == (a@ == b@),
{
    let n = a.unicode_len();
    if n != b.unicode_len() {
        return false;
    }
    let mut i: usize = 0;
    while i < n
        invariant
            0 <= i <= n,
            n == a@.len(),
            n == b@.len(),
            forall|k: int| 0 <= k < i ==> a@[k] == b@[k],
        decreases n - i,
    {
        if a.get_char(i) != b.get_char(i) {
            return false;
        }
        i = i + 1;
    }
    assert(a@ =~= b@);
    true
}

impl UploadService {
    pub fn with_url(bundlr_url: String) -> (r: UploadService)
        ensures
            r.url_view() == bundlr_url@,
    {
        UploadService { bundlr_url }
    }

    pub closed spec fn url_view(&self) -> Seq<char> {
        self.bundlr_url@
    }

    /// The storage endpoint.
    pub fn bundlr_url(&self) -> (r: &str)
        ensures
            r@ == self.url_view(),
    {
        self.bundlr_url.as_str()
    }

    /// Accepts non-empty image bytes that start like a PNG, JPEG, GIF or WebP file.
    pub fn validate_image(&self, image_data: &[u8]) -> (r: Result<(), ImageError>)
        ensures
            image_data@.len() == 0 ==> r == Err::<(), ImageError>(ImageError::Empty),
            image_data@.len() > 0 ==> (r is Ok <==> is_supported_image(image_data@)),
            image_data@.len() > 0 && r is Err ==> r == Err::<(), ImageError>(ImageError::UnsupportedFormat),
    {
        let n = image_data.len();
        if n == 0 {
            return Err(ImageError::Empty);
        }
        if n >= 8 {
            let png = bytes_at(image_data, 0, &[0x89u8, 0x50, 0x4E, 0x47, 0x0D, 0x0A, 0x1A, 0x0A]);
            let jpeg = bytes_at(image_data, 0, &[0xFFu8, 0xD8, 0xFF]);
            let gif87 = bytes_at(image_data, 0, &[0x47u8, 0x49, 0x46, 0x38, 0x37, 0x61]);
            let gif89 = bytes_at(image_data, 0, &[0x47u8, 0x49, 0x46, 0x38, 0x39, 0x61]);
            let webp = n >= 12 && bytes_at(image_data, 0, &[0x52u8, 0x49, 0x46, 0x46])
                && bytes_at(image_data, 8, &[0x57u8, 0x45, 0x42, 0x50]);
            if png || jpeg || gif87 || gif89 || webp {
                return Ok(());
            }
        }
        Err(ImageError::UnsupportedFormat)
    }

    /// The text after the last `.` of `filename`, or all of it when it has no `.`.
    pub fn get_file_extension<'a>(&self, filename: &'a str) -> (r: Option<&'a str>)
        ensures
            r matches Some(ext) && ext@ == extension_of(filename@),
    {
        let n = filename.unicode_len();
        let mut i: usize = n;
        while i > 0
            invariant
                0 <= i <= n,
                n == filename@.len(),
                forall|j: int| i <= j < n ==> filename@[j] != '.',
            decreases i,
        {
            if filename.get_char(i - 1) == '.' {
                let ghost name = filename@;
                assert(forall|j: int| (i - 1) < j < name.len() ==> name[j] != '.');
                assert(exists|k: int| 0 <= k < name.len() && name[k] == '.');
                let ghost last = choose|k: int|
                    0 <= k < name.len() && name[k] == '.' && forall|j: int| k < j < name.len() ==> name[j] != '.';
                assert(last == i - 1) by {
                    if last < i - 1 {
                        assert(name[i - 1] != '.');
                    } else if last > i - 1 {
                        assert(name[last] != '.');
                    }
                }
                return Some(filename.substring_char(i, n));
            }
            i = i - 1;
        }
        assert(filename@.subrange(0, n as int) =~= filename@);
        Some(filename.substring_char(0, n))
    }

    /// The content type for a file name's extension.
    pub fn get_content_type(&self, filename: &str) -> (r: &'static str)
        ensures
            r@ == content_type_of(extension_of(filename@)),
    {
        let ext = match self.get_file_extension(filename) {
            Some(e) => e,
            None => return "application/octet-stream",
        };
        if same_text(ext, "png") {
            "image/png"
        } else if same_text(ext, "jpg") || same_text(ext, "jpeg") {
            "image/jpeg"
        } else if same_text(ext, "gif") {
            "image/gif"
        } else if same_text(ext, "webp") {
            "image/webp"
        } else if same_text(ext, "svg") {
            "image/svg+xml"
        } else {
            "application/octet-stream"
        }
    }
}

} // verus!
