//! Content classifier: maps a raw byte buffer to an allow-listed logical
//! file type by inspecting its leading byte signature, never a
//! client-declared content type.

use vstd::prelude::*;
use vstd::string::StringExecFns;
use mime_sniffer::MimeTypeSniffer;

verus! {

/// The fixed allow-list of logical file types that may be stored.
#[derive(Clone, Copy, PartialEq, Eq, Structural, Debug)]
pub enum LogicalType {
    Png,
    Jpeg,
    Gif,
    Webp,
    Webm,
    Mp3,
    Mp4,
}

/// Why a buffer was refused by the classifier.
#[derive(Debug, PartialEq, Eq)]
pub enum ClassifyError {
    /// The sniffed type is recognizable but outside the allow-list;
    /// carries the sniffed MIME name.
    Unsupported(String),
    /// No recognizable signature at all.
    Undetermined,
}

/// The bytes `pat` occur in `b` starting at offset `start`.
pub open spec fn bytes_at(b: Seq<u8>, start: int, pat: Seq<u8>) -> bool {
    &&& 0 <= start
    &&& start + pat.len() <= b.len()
    &&& b.subrange(start, start + pat.len()) == pat
}

/// An MP4-family box tag ("ftyp" or "moov") sits at offset 4, where the
/// sniffing table matches it ahead of every shorter leading signature.
pub open spec fn mp4_box_at_4(b: Seq<u8>) -> bool {
    ||| bytes_at(b, 4, seq![0x66u8, 0x74, 0x79, 0x70])
    ||| bytes_at(b, 4, seq![0x6Du8, 0x6F, 0x6F, 0x76])
}

/// PNG signature: the eight-byte PNG header.
pub open spec fn png_sig(b: Seq<u8>) -> bool {
    bytes_at(b, 0, seq![0x89u8, 0x50, 0x4E, 0x47, 0x0D, 0x0A, 0x1A, 0x0A])
}

/// GIF signature: "GIF87a" or "GIF89a".
pub open spec fn gif_sig(b: Seq<u8>) -> bool {
    ||| bytes_at(b, 0, seq![0x47u8, 0x49, 0x46, 0x38, 0x37, 0x61])
    ||| bytes_at(b, 0, seq![0x47u8, 0x49, 0x46, 0x38, 0x39, 0x61])
}

/// JPEG signature: FF D8 FF, not overridden by an MP4-family box tag.
pub open spec fn jpeg_sig(b: Seq<u8>) -> bool {
    bytes_at(b, 0, seq![0xFFu8, 0xD8, 0xFF]) && !mp4_box_at_4(b)
}

/// WEBP signature: "RIFF" then "WEBPVP8 " at offset 8, not overridden by
/// an MP4-family box tag in the chunk-size bytes.
pub open spec fn webp_sig(b: Seq<u8>) -> bool {
    &&& bytes_at(b, 0, seq![0x52u8, 0x49, 0x46, 0x46])
    &&& bytes_at(b, 8, seq![0x57u8, 0x45, 0x42, 0x50, 0x56, 0x50, 0x38, 0x20])
    &&& !mp4_box_at_4(b)
}

/// WEBM signature: the EBML header 1A 45 DF A3, not overridden by an
/// MP4-family box tag.
pub open spec fn webm_sig(b: Seq<u8>) -> bool {
    bytes_at(b, 0, seq![0x1Au8, 0x45, 0xDF, 0xA3]) && !mp4_box_at_4(b)
}

/// MP3 signature: an "ID3" tag header, not overridden by an MP4-family
/// box tag.
pub open spec fn mp3_sig(b: Seq<u8>) -> bool {
    bytes_at(b, 0, seq![0x49u8, 0x44, 0x33]) && !mp4_box_at_4(b)
}

/// MP4 signature: a box whose size field starts 00 00 00 and whose tag at
/// offset 4 is "ftyp", excluding the "3g"/"avcl" brands that sniff as
/// 3GPP video.
pub open spec fn mp4_sig(b: Seq<u8>) -> bool {
    &&& bytes_at(b, 0, seq![0x00u8, 0x00, 0x00])
    &&& bytes_at(b, 4, seq![0x66u8, 0x74, 0x79, 0x70])
    &&& !bytes_at(b, 8, seq![0x33u8, 0x67])
    &&& !bytes_at(b, 8, seq![0x61u8, 0x76, 0x63, 0x6C])
}

pub open spec fn mime_png() -> Seq<char> {
    "image/png"@
}

pub open spec fn mime_jpeg() -> Seq<char> {
    "image/jpeg"@
}

pub open spec fn mime_gif() -> Seq<char> {
    "image/gif"@
}

pub open spec fn mime_webp() -> Seq<char> {
    "image/webp"@
}

pub open spec fn mime_webm() -> Seq<char> {
    "video/webm"@
}

pub open spec fn mime_mp3() -> Seq<char> {
    "audio/mpeg"@
}

pub open spec fn mime_mp4() -> Seq<char> {
    "video/mp4"@
}

/// What the content sniffer reports for a byte buffer: `None` when no
/// signature in its table matches, otherwise the matched MIME name.
pub uninterp spec fn sniffed_of(b: Seq<u8>) -> Option<Seq<char>>;

/// The allow-listed logical type for a sniffed MIME name, if any.
pub open spec fn allowed_type_of(m: Seq<char>) -> Option<LogicalType> {
    if m == mime_png() {
        Some(LogicalType::Png)
    } else if m == mime_jpeg() {
        Some(LogicalType::Jpeg)
    } else if m == mime_gif() {
        Some(LogicalType::Gif)
    } else if m == mime_webp() {
        Some(LogicalType::Webp)
    } else if m == mime_webm() {
        Some(LogicalType::Webm)
    } else if m == mime_mp3() {
        Some(LogicalType::Mp3)
    } else if m == mime_mp4() {
        Some(LogicalType::Mp4)
    } else {
        None
    }
}

/// `r` is exactly what classification owes for the buffer `b`: the
/// allow-listed type when the sniffed MIME name is on the allow-list,
/// `Unsupported` carrying the sniffed name when it is not, and
/// `Undetermined` when nothing was sniffed.
pub open spec fn classification_of(b: Seq<u8>, r: Result<LogicalType, ClassifyError>) -> bool {
    match sniffed_of(b) {
        None => r == Err::<LogicalType, ClassifyError>(ClassifyError::Undetermined),
        Some(m) => match allowed_type_of(m) {
            Some(t) => r == Ok::<LogicalType, ClassifyError>(t),
            None => r matches Err(ClassifyError::Unsupported(u)) && u@ == m,
        },
    }
}

/// Relies on `mime_sniffer::MimeTypeSniffer::sniff_mime_type` for byte
/// buffers, which looks the buffer up in a fixed table of leading-byte
/// signatures; the result is a function of the bytes alone. The
/// per-format clauses restate table entries that an allow-listed
/// signature always reaches first.
#[verifier::external_body]
fn sniff_bytes(b: &Vec<u8>) -> (r: Option<String>)
    ensures
        (r matches Some(s) ==> sniffed_of(b@) == Some(s@)),
        (r is None ==> sniffed_of(b@) is None),
        (r is None ==> !png_sig(b@) && !gif_sig(b@) && !jpeg_sig(b@) && !webp_sig(b@)
            && !webm_sig(b@) && !mp3_sig(b@) && !mp4_sig(b@)),
        (r matches Some(s) ==> (png_sig(b@) ==> s@ == mime_png())),
        (r matches Some(s) ==> (gif_sig(b@) ==> s@ == mime_gif())),
        (r matches Some(s) ==> (jpeg_sig(b@) ==> s@ == mime_jpeg())),
        (r matches Some(s) ==> (webp_sig(b@) ==> s@ == mime_webp())),
        (r matches Some(s) ==> (webm_sig(b@) ==> s@ == mime_webm())),
        (r matches Some(s) ==> (mp3_sig(b@) ==> s@ == mime_mp3())),
        (r matches Some(s) ==> (mp4_sig(b@) ==> s@ == mime_mp4())),
{
    b.sniff_mime_type().map(|s| s.to_string())
}

/// Classify a byte buffer by its content signature alone. Returns the
/// allow-listed logical type on success; `Unsupported` with the sniffed
/// MIME name when the signature is recognizable but not allow-listed;
/// `Undetermined` when no signature is recognized. A buffer carrying an
/// allow-listed leading signature always classifies as that format.
pub fn classify(b: &Vec<u8>) -> (r: Result<LogicalType, ClassifyError>)
    ensures
        classification_of(b@, r),
        png_sig(b@) ==> r == Ok::<LogicalType, ClassifyError>(LogicalType::Png),
        gif_sig(b@) ==> r == Ok::<LogicalType, ClassifyError>(LogicalType::Gif),
        jpeg_sig(b@) ==> r == Ok::<LogicalType, ClassifyError>(LogicalType::Jpeg),
        webp_sig(b@) ==> r == Ok::<LogicalType, ClassifyError>(LogicalType::Webp),
        webm_sig(b@) ==> r == Ok::<LogicalType, ClassifyError>(LogicalType::Webm),
        mp3_sig(b@) ==> r == Ok::<LogicalType, ClassifyError>(LogicalType::Mp3),
        mp4_sig(b@) ==> r == Ok::<LogicalType, ClassifyError>(LogicalType::Mp4),
{
    proof {
        reveal_strlit("image/png");
        reveal_strlit("image/jpeg");
        reveal_strlit("image/gif");
        reveal_strlit("image/webp");
        reveal_strlit("video/webm");
        reveal_strlit("audio/mpeg");
        reveal_strlit("video/mp4");
        assert(mime_png().len() == 9 && mime_gif().len() == 9 && mime_mp4().len() == 9);
        assert(mime_jpeg().len() == 10 && mime_webp().len() == 10 && mime_webm().len() == 10
            && mime_mp3().len() == 10);
        assert(mime_png()[0] == 'i' && mime_gif()[0] == 'i' && mime_mp4()[0] == 'v');
        assert(mime_png()[6] == 'p' && mime_gif()[6] == 'g');
        assert(mime_jpeg()[0] == 'i' && mime_webp()[0] == 'i' && mime_webm()[0] == 'v'
            && mime_mp3()[0] == 'a');
        assert(mime_jpeg()[6] == 'j' && mime_webp()[6] == 'w');
    }
    match sniff_bytes(b) {
        None => Err(ClassifyError::Undetermined),
        Some(m) => {
            if m == String::from_str("image/png") {
                Ok(LogicalType::Png)
            } else if m == String::from_str("image/jpeg") {
                Ok(LogicalType::Jpeg)
            } else if m == String::from_str("image/gif") {
                Ok(LogicalType::Gif)
            } else if m == String::from_str("image/webp") {
                Ok(LogicalType::Webp)
            } else if m == String::from_str("video/webm") {
                Ok(LogicalType::Webm)
            } else if m == String::from_str("audio/mpeg") {
                Ok(LogicalType::Mp3)
            } else if m == String::from_str("video/mp4") {
                Ok(LogicalType::Mp4)
            } else {
                Err(ClassifyError::Unsupported(m))
            }
        },
    }
}

/// The stored file extension derived from a logical type; never taken
/// from client metadata.
pub open spec fn extension_view(t: LogicalType) -> Seq<char> {
    match t {
        LogicalType::Png => "png"@,
        LogicalType::Jpeg => "jpeg"@,
        LogicalType::Gif => "gif"@,
        LogicalType::Webp => "webp"@,
        LogicalType::Webm => "webm"@,
        LogicalType::Mp3 => "mp3"@,
        LogicalType::Mp4 => "mp4"@,
    }
}

impl LogicalType {
    /// The file extension under which an object of this type is stored.
    pub fn extension(&self) -> (r: String)
        ensures
            r@ == extension_view(*self),
    {
        match self {
            LogicalType::Png => String::from_str("png"),
            LogicalType::Jpeg => String::from_str("jpeg"),
            LogicalType::Gif => String::from_str("gif"),
            LogicalType::Webp => String::from_str("webp"),
            LogicalType::Webm => String::from_str("webm"),
            LogicalType::Mp3 => String::from_str("mp3"),
            LogicalType::Mp4 => String::from_str("mp4"),
        }
    }
}

} // verus!
