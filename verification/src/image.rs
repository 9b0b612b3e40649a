//! The `view_image` tool: MIME detection from the file extension and the result it reports.

use base64::Engine;
use vstd::prelude::*;
use crate::encoding::base64_encode;
use crate::model::{ContentBlock, ContentView, ToolResult, ToolResultView, opt_text, text_result, text_result_view};

verus! {

/// Name for what std's `Path::extension` gives for a path: the part of the file
/// name after its last `.`, if the file name has one that is not its first character.
pub uninterp spec fn path_extension(path: Seq<char>) -> Option<Seq<char>>;

/// Calls std's `Path::extension` on `path`. Trusted: the result is `path_extension`
/// of the path; an extension of a path given as text is itself text, so it converts
/// to a `String` without loss.
#[verifier::external_body]
fn extension_of(path: &str) -> (ext: Option<String>)
    ensures
        match ext {
            Some(e) => path_extension(path@) == Some(e@),
            None => path_extension(path@) is None,
        },
{
    match std::path::Path::new(path).extension() {
        Some(e) => Some(e.to_string_lossy().into_owned()),
        None => None,
    }
}

/// Calls `base64::engine::general_purpose::STANDARD.encode`. Trusted: `STANDARD` is the
/// standard alphabet with `=` padding, so the result is `base64_encode` of the bytes.
/// The call panics when the encoded length overflows `usize`, which the `requires`
/// rules out.
#[verifier::external_body]
fn encode_base64(bytes: &[u8]) -> (encoded: String)
    requires
        (bytes@.len() / 3) * 4 + 4 <= usize::MAX,
    ensures
        encoded@ == base64_encode(bytes@),
{
    base64::engine::general_purpose::STANDARD.encode(bytes)
}

/// `c` with ASCII upper-case letters mapped to lower case.
pub open spec fn ascii_lower(c: char) -> char {
    if 65 <= (c as u32) <= 90 {
        ((c as u32) + 32) as char
    } else {
        c
    }
}

/// `s` with ASCII upper-case letters mapped to lower case, as `to_ascii_lowercase` does.
pub open spec fn ascii_lowercase(s: Seq<char>) -> Seq<char> {
    s.map_values(|c: char| ascii_lower(c))
}

pub open spec fn image_png() -> Seq<char> {
    seq!['i', 'm', 'a', 'g', 'e', '/', 'p', 'n', 'g']
}

pub open spec fn image_jpeg() -> Seq<char> {
    seq!['i', 'm', 'a', 'g', 'e', '/', 'j', 'p', 'e', 'g']
}

pub open spec fn image_gif() -> Seq<char> {
    seq!['i', 'm', 'a', 'g', 'e', '/', 'g', 'i', 'f']
}

pub open spec fn image_webp() -> Seq<char> {
    seq!['i', 'm', 'a', 'g', 'e', '/', 'w', 'e', 'b', 'p']
}

/// The MIME type for a file extension, compared without regard to ASCII case:
/// png, jpg or jpeg, gif and webp are supported.
pub open spec fn mime_for_extension(ext: Option<Seq<char>>) -> Option<Seq<char>> {
    match ext {
        None => None,
        Some(e) => {
            let l = ascii_lowercase(e);
            if l == seq!['p', 'n', 'g'] {
                Some(image_png())
            } else if l == seq!['j', 'p', 'g'] || l == seq!['j', 'p', 'e', 'g'] {
                Some(image_jpeg())
            } else if l == seq!['g', 'i', 'f'] {
                Some(image_gif())
            } else if l == seq!['w', 'e', 'b', 'p'] {
                Some(image_webp())
            } else {
                None
            }
        },
    }
}

/// `unsupported image extension: `.
pub open spec fn unsupported_prefix() -> Seq<char> {
    seq![
        'u', 'n', 's', 'u', 'p', 'p', 'o', 'r', 't', 'e', 'd', ' ', 'i', 'm', 'a', 'g', 'e', ' ',
        'e', 'x', 't', 'e', 'n', 's', 'i', 'o', 'n', ':', ' ',
    ]
}

/// `failed to read image: `.
pub open spec fn read_failure_prefix() -> Seq<char> {
    seq![
        'f', 'a', 'i', 'l', 'e', 'd', ' ', 't', 'o', ' ', 'r', 'e', 'a', 'd', ' ', 'i', 'm', 'a',
        'g', 'e', ':', ' ',
    ]
}

/// A successful result holding one image block.
pub open spec fn image_result_view(data: Seq<char>, mime_type: Seq<char>) -> ToolResultView {
    ToolResultView {
        content: seq![ContentView::Image { data, mime_type }],
        structured_content: None,
        is_error: Some(false),
    }
}

/// Whether the file contents can be encoded without overflowing the encoder's length.
pub open spec fn encodable(bytes: Seq<u8>) -> bool {
    (bytes.len() / 3) * 4 + 4 <= usize::MAX
}

fn lower_char(c: char) -> (r: char)
    ensures
        r == ascii_lower(c),
{
    let v: u32 = c as u32;
    if 65 <= v && v <= 90 {
        let b: u8 = v as u8;
        assert(b == c as u32);
        ((b + 32) as u8) as char
    } else {
        c
    }
}

/// Whether `s` equals `lower` once its ASCII letters are lower-cased.
fn equals_lowercased(s: &str, lower: &str) -> (res: bool)
    ensures
        res == (ascii_lowercase(s@) == lower@),
{
    let n: usize = s.unicode_len();
    if n != lower.unicode_len() {
        assert(ascii_lowercase(s@).len() != lower@.len());
        return false;
    }
    let mut i: usize = 0;
    while i < n
        invariant
            n == s@.len(),
            n == lower@.len(),
            i <= n,
            forall|j: int| 0 <= j < i ==> ascii_lower(#[trigger] s@[j]) == lower@[j],
        decreases n - i,
    {
        if lower_char(s.get_char(i)) != lower.get_char(i) {
            assert(ascii_lowercase(s@)[i as int] != lower@[i as int]);
            return false;
        }
        i = i + 1;
    }
    assert(ascii_lowercase(s@) =~= lower@);
    true
}

/// The MIME type for an extension as `Path::extension` gives it.
pub fn image_mime_for_extension(ext: &Option<String>) -> (mime: Option<String>)
    ensures
        match mime {
            Some(m) => mime_for_extension(opt_text(*ext)) == Some(m@),
            None => mime_for_extension(opt_text(*ext)) is None,
        },
{
    proof {
        reveal_strlit("png");
        reveal_strlit("jpg");
        reveal_strlit("jpeg");
        reveal_strlit("gif");
        reveal_strlit("webp");
        reveal_strlit("image/png");
        reveal_strlit("image/jpeg");
        reveal_strlit("image/gif");
        reveal_strlit("image/webp");
        assert("png"@ =~= seq!['p', 'n', 'g']);
        assert("jpg"@ =~= seq!['j', 'p', 'g']);
        assert("jpeg"@ =~= seq!['j', 'p', 'e', 'g']);
        assert("gif"@ =~= seq!['g', 'i', 'f']);
        assert("webp"@ =~= seq!['w', 'e', 'b', 'p']);
        assert("image/png"@ =~= image_png());
        assert("image/jpeg"@ =~= image_jpeg());
        assert("image/gif"@ =~= image_gif());
        assert("image/webp"@ =~= image_webp());
    }
    match ext {
        None => None,
        Some(e) => {
            let e: &str = e.as_str();
            if equals_lowercased(e, "png") {
                Some(String::from_str("image/png"))
            } else if equals_lowercased(e, "jpg") || equals_lowercased(e, "jpeg") {
                Some(String::from_str("image/jpeg"))
            } else if equals_lowercased(e, "gif") {
                Some(String::from_str("image/gif"))
            } else if equals_lowercased(e, "webp") {
                Some(String::from_str("image/webp"))
            } else {
                None
            }
        },
    }
}

/// The MIME type of the image at `path`, from its extension; `None` when the
/// extension is missing or not a supported image type.
pub fn image_mime_type(path: &str) -> (mime: Option<String>)
    ensures
        match mime {
            Some(m) => mime_for_extension(path_extension(path@)) == Some(m@),
            None => mime_for_extension(path_extension(path@)) is None,
        },
{
    let ext = extension_of(path);
    image_mime_for_extension(&ext)
}

/// The result reported for a path whose extension is not a supported image type.
pub fn unsupported_image_result(path: &str) -> (res: ToolResult)
    ensures
        res@ == text_result_view(unsupported_prefix() + path@, true),
{
    proof {
        reveal_strlit("unsupported image extension: ");
        assert("unsupported image extension: "@ =~= unsupported_prefix());
    }
    let mut text = String::from_str("unsupported image extension: ");
    text.append(path);
    text_result(text, true)
}

/// A successful result holding the encoded image and its MIME type.
pub fn image_content_result(data: String, mime_type: String) -> (res: ToolResult)
    ensures
        res@ == image_result_view(data@, mime_type@),
{
    let mut content: Vec<ContentBlock> = Vec::new();
    content.push(ContentBlock::Image { data, mime_type });
    let res = ToolResult { content, structured_content: None, is_error: Some(false) };
    assert(res@.content =~= seq![ContentView::Image { data: data@, mime_type: mime_type@ }]);
    res
}

/// The result for an image read: the contents as a base64 image block, or the read
/// error as an error text.
pub fn image_read_result(read: Result<Vec<u8>, String>, mime_type: String) -> (res: ToolResult)
    requires
        read matches Ok(bytes) ==> encodable(bytes@),
    ensures
        res@ == match read {
            Ok(bytes) => image_result_view(base64_encode(bytes@), mime_type@),
            Err(message) => text_result_view(read_failure_prefix() + message@, true),
        },
{
    match read {
        Ok(bytes) => {
            let data = encode_base64(bytes.as_slice());
            image_content_result(data, mime_type)
        },
        Err(message) => {
            proof {
                reveal_strlit("failed to read image: ");
                assert("failed to read image: "@ =~= read_failure_prefix());
            }
            let mut text = String::from_str("failed to read image: ");
            text.append(message.as_str());
            text_result(text, true)
        },
    }
}

} // verus!
