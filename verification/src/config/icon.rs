//! The icon of a server: a PNG of 64 by 64 pixels as a data URL.

use vstd::prelude::*;
use vstd::string::StringExecFns;

use crate::text::{in_context, with_context};

use super::schema::{about_server, server_fault, server_fault_text, server_text};

verus! {

/// The biggest icon file in bytes.
pub const MAX_ICON_FILE_SIZE: usize = 8_388_608;

/// The biggest width and height of an icon.
pub const MAX_ICON_DIMENSION: u32 = 4_096;

/// The width and height of an icon as clients get it.
pub const ICON_SIZE: u32 = 64;

/// The width and height of a PNG, or the complaint about one that cannot be read.
pub uninterp spec fn png_dimensions(bytes: Seq<u8>) -> Result<(u32, u32), Seq<char>>;

/// Calls `image::ImageReader::with_format` for PNG and `into_dimensions`. Claimed of them: what
/// comes back depends on the bytes alone.
#[verifier::external_body]
fn read_png_dimensions(bytes: &[u8]) -> (result: Result<(u32, u32), String>)
    ensures
        match result {
            Ok(found) => png_dimensions(bytes@) == Ok::<(u32, u32), Seq<char>>(found),
            Err(text) => png_dimensions(bytes@) == Err::<(u32, u32), Seq<char>>(text@),
        },
{
    image::ImageReader::with_format(std::io::Cursor::new(bytes), image::ImageFormat::Png)
        .into_dimensions()
        .map_err(|error| error.to_string())
}

/// Why an image could not be written anew.
pub enum ImageFault {
    /// It could not be read.
    Decode(String),
    /// It could not be written.
    Encode(String),
}

/// An [`ImageFault`] with its text as a sequence of characters.
pub enum ImageFaultView {
    Decode(Seq<char>),
    Encode(Seq<char>),
}

impl View for ImageFault {
    type V = ImageFaultView;

    open spec fn view(&self) -> ImageFaultView {
        match *self {
            ImageFault::Decode(text) => ImageFaultView::Decode(text@),
            ImageFault::Encode(text) => ImageFaultView::Encode(text@),
        }
    }
}

/// An image written anew, over characters and bytes.
pub open spec fn written(result: Result<Vec<u8>, ImageFault>) -> Result<Seq<u8>, ImageFaultView> {
    match result {
        Ok(bytes) => Ok(bytes@),
        Err(fault) => Err(fault@),
    }
}

/// That dimensions are known and within the limit for icons.
pub open spec fn small(dimensions: Result<(u32, u32), Seq<char>>) -> bool {
    dimensions matches Ok((width, height)) && width <= MAX_ICON_DIMENSION && height
        <= MAX_ICON_DIMENSION
}

/// A PNG, read and written anew.
pub uninterp spec fn rewritten_png(bytes: Seq<u8>) -> Result<Seq<u8>, ImageFaultView>;

/// Calls `image::load_from_memory_with_format` and `DynamicImage::write_to`, both for PNG.
/// Claimed of them: what comes back depends on the bytes alone, and an image that is not too big
/// for an icon keeps its dimensions.
#[verifier::external_body]
fn rewrite_png(bytes: &[u8]) -> (result: Result<Vec<u8>, ImageFault>)
    ensures
        written(result) == rewritten_png(bytes@),
        result is Ok && small(png_dimensions(bytes@)) ==> png_dimensions(result->Ok_0@)
            == png_dimensions(bytes@),
{
    let image = image::load_from_memory_with_format(bytes, image::ImageFormat::Png)
        .map_err(|error| ImageFault::Decode(error.to_string()))?;
    let mut output = std::io::Cursor::new(Vec::new());
    image
        .write_to(&mut output, image::ImageFormat::Png)
        .map_err(|error| ImageFault::Encode(error.to_string()))?;
    Ok(output.into_inner())
}

/// That a PNG could not be read.
pub open spec fn unreadable(encoded: Result<Seq<u8>, ImageFaultView>) -> bool {
    encoded matches Err(ImageFaultView::Decode(_))
}

/// What can come of reading a PNG, bringing it to another size and writing it anew: an image of
/// that size, or the complaint that reading it brings in any case, or a complaint about writing
/// where writing it in its own size brings one too.
pub open spec fn resized_from(
    bytes: Seq<u8>,
    width: u32,
    height: u32,
    encoded: Result<Seq<u8>, ImageFaultView>,
) -> bool {
    match encoded {
        Ok(png) => png_dimensions(png) == Ok::<(u32, u32), Seq<char>>((width, height))
            && !unreadable(rewritten_png(bytes)),
        Err(ImageFaultView::Decode(_)) => rewritten_png(bytes) == encoded,
        Err(ImageFaultView::Encode(_)) => rewritten_png(bytes) matches Err(
            ImageFaultView::Encode(_),
        ),
    }
}

/// Calls `image::load_from_memory_with_format`, `DynamicImage::resize_exact` with the
/// Catmull-Rom filter and `DynamicImage::write_to`. Claimed of them: an image that can be read is
/// brought to the given size, and one that cannot is refused as by [`rewrite_png`]; as long as there
/// is memory, writing the result fails only if writing the image in its own size does. Nothing is
/// claimed of the pixels: they come from floating-point numbers, whose last digits may differ
/// from one call to the next.
#[verifier::external_body]
fn resize_png(bytes: &[u8], width: u32, height: u32) -> (result: Result<Vec<u8>, ImageFault>)
    requires
        0 < width <= 4_096,
        0 < height <= 4_096,
    ensures
        resized_from(bytes@, width, height, written(result)),
{
    let image = image::load_from_memory_with_format(bytes, image::ImageFormat::Png)
        .map_err(|error| ImageFault::Decode(error.to_string()))?;
    let mut output = std::io::Cursor::new(Vec::new());
    image
        .resize_exact(width, height, image::imageops::FilterType::CatmullRom)
        .write_to(&mut output, image::ImageFormat::Png)
        .map_err(|error| ImageFault::Encode(error.to_string()))?;
    Ok(output.into_inner())
}

/// The character for six bits in base 64.
pub open spec fn base64_char(bits: int) -> char {
    if bits < 26 {
        (0x41 + bits) as char
    } else if bits < 52 {
        (0x61 + bits - 26) as char
    } else if bits < 62 {
        (0x30 + bits - 52) as char
    } else if bits == 62 {
        '+'
    } else {
        '/'
    }
}

/// Bytes in base 64: three bytes become four characters, and an incomplete group at the end is
/// filled up with equals signs.
pub open spec fn base64(bytes: Seq<u8>) -> Seq<char>
    decreases bytes.len(),
{
    if bytes.len() == 0 {
        Seq::empty()
    } else if bytes.len() == 1 {
        let group = bytes[0] as int * 16;
        seq![base64_char(group / 64), base64_char(group % 64), '=', '=']
    } else if bytes.len() == 2 {
        let group = (bytes[0] as int * 256 + bytes[1] as int) * 4;
        seq![
            base64_char(group / 4096),
            base64_char(group / 64 % 64),
            base64_char(group % 64),
            '=',
        ]
    } else {
        let group = bytes[0] as int * 65536 + bytes[1] as int * 256 + bytes[2] as int;
        seq![
            base64_char(group / 262144),
            base64_char(group / 4096 % 64),
            base64_char(group / 64 % 64),
            base64_char(group % 64),
        ] + base64(bytes.skip(3))
    }
}

/// Calls `base64::Engine::encode` of `general_purpose::STANDARD`. Claimed of it: the result is
/// the bytes in base 64 with the standard alphabet and padding. It panics only where the result
/// would be longer than a `usize` can say, which no slice is long enough for, or where there is
/// no memory for it.
#[verifier::external_body]
fn to_base64(bytes: &[u8]) -> (text: String)
    ensures
        text@ == base64(bytes@),
{
    base64::Engine::encode(&base64::engine::general_purpose::STANDARD, bytes)
}

/// Something about the icon of a server.
pub open spec fn icon_note(path: Seq<char>, what: Seq<char>) -> Seq<char> {
    "icon at "@ + path + what
}

/// Something about the icon of a server.
fn icon_note_text(path: &str, what: &str) -> (text: String)
    ensures
        text@ == icon_note(path@, what@),
{
    let mut text = "icon at ".to_owned();
    text.append(path);
    text.append(what);
    text
}

/// What to do with an icon.
#[derive(Clone, Copy, Debug, PartialEq, Eq, Structural)]
pub enum IconWork {
    /// Write it anew in its own size.
    Keep,
    /// Bring it to the size of an icon.
    Resize,
}

/// What to do with an icon of these dimensions, or the complaint about it.
pub open spec fn icon_work(
    server_id: Seq<char>,
    path: Seq<char>,
    dimensions: Result<(u32, u32), Seq<char>>,
) -> Result<IconWork, Seq<char>> {
    match dimensions {
        Err(cause) => Err(
            server_fault(server_id, icon_note(path, " is not a valid PNG"@), cause),
        ),
        Ok((width, height)) => if width > MAX_ICON_DIMENSION || height > MAX_ICON_DIMENSION {
            Err(
                about_server(
                    server_id,
                    icon_note(path, " exceeds the 4096x4096 dimension limit"@),
                ),
            )
        } else if width == ICON_SIZE && height == ICON_SIZE {
            Ok(IconWork::Keep)
        } else {
            Ok(IconWork::Resize)
        },
    }
}

/// Dimensions over characters.
pub open spec fn dimensions_view(dimensions: Result<(u32, u32), String>) -> Result<
    (u32, u32),
    Seq<char>,
> {
    match dimensions {
        Ok(found) => Ok(found),
        Err(text) => Err(text@),
    }
}

/// What to do with an icon of these dimensions.
pub fn judge_icon_dimensions(
    server_id: &str,
    path: &str,
    dimensions: Result<(u32, u32), String>,
) -> (result: Result<IconWork, String>)
    ensures
        match icon_work(server_id@, path@, dimensions_view(dimensions)) {
            Ok(work) => result == Ok::<IconWork, String>(work),
            Err(text) => result matches Err(error) && error@ == text,
        },
{
    match dimensions {
        Err(cause) => Err(
            server_fault_text(
                server_id,
                icon_note_text(path, " is not a valid PNG").as_str(),
                cause.as_str(),
            ),
        ),
        Ok((width, height)) => {
            if width > MAX_ICON_DIMENSION || height > MAX_ICON_DIMENSION {
                return Err(
                    server_text(
                        server_id,
                        icon_note_text(path, " exceeds the 4096x4096 dimension limit").as_str(),
                    ),
                );
            }
            if width == ICON_SIZE && height == ICON_SIZE {
                Ok(IconWork::Keep)
            } else {
                Ok(IconWork::Resize)
            }
        },
    }
}

/// The icon as clients get it, or the complaint about it.
pub open spec fn icon_url(
    server_id: Seq<char>,
    path: Seq<char>,
    encoded: Result<Seq<u8>, ImageFaultView>,
) -> Result<Seq<char>, Seq<char>> {
    match encoded {
        Ok(bytes) => Ok("data:image/png;base64,"@ + base64(bytes)),
        Err(ImageFaultView::Decode(cause)) => Err(
            server_fault(server_id, icon_note(path, " is not a valid PNG"@), cause),
        ),
        Err(ImageFaultView::Encode(cause)) => Err(
            in_context("failed to encode the server icon"@, cause),
        ),
    }
}

/// An icon as clients get it, or the complaint about it, over characters.
pub open spec fn icon_view(result: Result<String, String>) -> Result<Seq<char>, Seq<char>> {
    match result {
        Ok(url) => Ok(url@),
        Err(text) => Err(text@),
    }
}

/// The icon as clients get it.
pub fn finish_icon(server_id: &str, path: &str, encoded: Result<Vec<u8>, ImageFault>) -> (result:
    Result<String, String>)
    ensures
        icon_view(result) == icon_url(server_id@, path@, written(encoded)),
{
    match encoded {
        Ok(bytes) => {
            let mut text = "data:image/png;base64,".to_owned();
            text.append(to_base64(bytes.as_slice()).as_str());
            Ok(text)
        },
        Err(ImageFault::Decode(cause)) => Err(
            server_fault_text(
                server_id,
                icon_note_text(path, " is not a valid PNG").as_str(),
                cause.as_str(),
            ),
        ),
        Err(ImageFault::Encode(cause)) => Err(
            with_context("failed to encode the server icon", cause.as_str()),
        ),
    }
}

/// That this can come of an icon file. Only the pixels of an image that is brought to the size
/// of an icon are left open.
pub open spec fn loaded_icon(
    server_id: Seq<char>,
    path: Seq<char>,
    read: Result<Seq<u8>, Seq<char>>,
    result: Result<Seq<char>, Seq<char>>,
) -> bool {
    match read {
        Err(cause) => result == Err::<Seq<char>, Seq<char>>(
            server_fault(server_id, "failed to read configured icon at "@ + path, cause),
        ),
        Ok(bytes) => if bytes.len() > MAX_ICON_FILE_SIZE {
            result == Err::<Seq<char>, Seq<char>>(
                about_server(server_id, icon_note(path, " exceeds the 8 MiB limit"@)),
            )
        } else {
            match icon_work(server_id, path, png_dimensions(bytes)) {
                Err(text) => result == Err::<Seq<char>, Seq<char>>(text),
                Ok(IconWork::Keep) => result == icon_url(server_id, path, rewritten_png(bytes)),
                Ok(IconWork::Resize) => exists|encoded: Result<Seq<u8>, ImageFaultView>|
                    #[trigger] resized_from(bytes, ICON_SIZE, ICON_SIZE, encoded) && result
                        == icon_url(server_id, path, encoded),
            }
        },
    }
}

/// That a URL holds a PNG of the size of an icon.
pub open spec fn holds_icon(url: Seq<char>) -> bool {
    exists|png: Seq<u8>|
        #[trigger] png_dimensions(png) == Ok::<(u32, u32), Seq<char>>((ICON_SIZE, ICON_SIZE))
            && url == "data:image/png;base64,"@ + base64(png)
}

/// The contents of a file over characters and bytes.
pub open spec fn read_view(read: Result<Vec<u8>, String>) -> Result<Seq<u8>, Seq<char>> {
    match read {
        Ok(bytes) => Ok(bytes@),
        Err(text) => Err(text@),
    }
}

/// Makes the icon of a server from the contents of its file. Whatever the file holds, clients
/// get a PNG of the size of an icon or none.
pub fn load_server_icon(server_id: &str, path: &str, read: Result<Vec<u8>, String>) -> (result:
    Result<String, String>)
    ensures
        loaded_icon(server_id@, path@, read_view(read), icon_view(result)),
        result matches Ok(url) ==> holds_icon(url@),
{
    let bytes = match read {
        Ok(bytes) => bytes,
        Err(cause) => {
            let mut what = "failed to read configured icon at ".to_owned();
            what.append(path);
            return Err(server_fault_text(server_id, what.as_str(), cause.as_str()));
        },
    };
    if bytes.len() > MAX_ICON_FILE_SIZE {
        return Err(
            server_text(server_id, icon_note_text(path, " exceeds the 8 MiB limit").as_str()),
        );
    }
    let dimensions = read_png_dimensions(bytes.as_slice());
    match judge_icon_dimensions(server_id, path, dimensions) {
        Err(text) => Err(text),
        Ok(IconWork::Keep) => finish_icon(server_id, path, rewrite_png(bytes.as_slice())),
        Ok(IconWork::Resize) => finish_icon(
            server_id,
            path,
            resize_png(bytes.as_slice(), ICON_SIZE, ICON_SIZE),
        ),
    }
}

/// The number that a character of base64 stands for.
pub open spec fn sextet(c: char) -> int {
    if 'A' <= c && c <= 'Z' {
        c as int - 'A' as int
    } else if 'a' <= c && c <= 'z' {
        c as int - 'a' as int + 26
    } else if '0' <= c && c <= '9' {
        c as int - '0' as int + 52
    } else if c == '+' {
        62
    } else {
        63
    }
}

/// The bytes that a base64 text stands for: three for every four characters, one less for each
/// `=` at the end.
pub open spec fn base64_bytes(text: Seq<char>) -> Seq<u8>
    decreases text.len(),
{
    if text.len() < 4 {
        Seq::empty()
    } else {
        let first = sextet(text[0]) * 4 + sextet(text[1]) / 16;
        let second = sextet(text[1]) % 16 * 16 + sextet(text[2]) / 4;
        let third = sextet(text[2]) % 4 * 64 + sextet(text[3]);
        if text[2] == '=' {
            seq![first as u8]
        } else if text[3] == '=' {
            seq![first as u8, second as u8]
        } else {
            seq![first as u8, second as u8, third as u8] + base64_bytes(text.skip(4))
        }
    }
}

proof fn lemma_sextets_read_back(bits: int)
    requires
        0 <= bits < 64,
    ensures
        sextet(base64_char(bits)) == bits,
        base64_char(bits) != '=',
{
    if bits < 26 {
        assert((0x41 + bits) as char as int == 0x41 + bits);
    } else if bits < 52 {
        assert((0x61 + bits - 26) as char as int == 0x61 + bits - 26);
    } else if bits < 62 {
        assert((0x30 + bits - 52) as char as int == 0x30 + bits - 52);
    }
}

proof fn lemma_groups_read_back(first: u8, second: u8, third: u8)
    ensures
        ({
            let group = first as int * 65536 + second as int * 256 + third as int;
            let a = group / 262144;
            let b = group / 4096 % 64;
            let c = group / 64 % 64;
            let d = group % 64;
            &&& 0 <= a < 64
            &&& a * 4 + b / 16 == first
            &&& b % 16 * 16 + c / 4 == second
            &&& c % 4 * 64 + d == third
        }),
{
}

proof fn lemma_last_bytes_read_back(bytes: Seq<u8>)
    requires
        1 <= bytes.len() <= 2,
    ensures
        base64_bytes(base64(bytes)) == bytes,
{
    let text = base64(bytes);
    if bytes.len() == 1 {
        let group = bytes[0] as int * 16;
        lemma_sextets_read_back(group / 64);
        lemma_sextets_read_back(group % 64);
        assert(base64_bytes(text) =~= bytes);
    } else {
        let group = (bytes[0] as int * 256 + bytes[1] as int) * 4;
        lemma_groups_read_back(bytes[0], bytes[1], 0);
        lemma_sextets_read_back(group / 4096);
        lemma_sextets_read_back(group / 64 % 64);
        lemma_sextets_read_back(group % 64);
        assert(base64_bytes(text) =~= bytes);
    }
}

proof fn lemma_first_bytes_read_back(bytes: Seq<u8>)
    requires
        bytes.len() >= 3,
    ensures
        base64_bytes(base64(bytes)) == seq![bytes[0], bytes[1], bytes[2]] + base64_bytes(
            base64(bytes.skip(3)),
        ),
{
    let text = base64(bytes);
    let group = bytes[0] as int * 65536 + bytes[1] as int * 256 + bytes[2] as int;
    let a = group / 262144;
    let b = group / 4096 % 64;
    let c = group / 64 % 64;
    let d = group % 64;
    lemma_groups_read_back(bytes[0], bytes[1], bytes[2]);
    lemma_sextets_read_back(a);
    lemma_sextets_read_back(b);
    lemma_sextets_read_back(c);
    lemma_sextets_read_back(d);
    assert(text.skip(4) =~= base64(bytes.skip(3)));
    assert(text[0] == base64_char(a) && text[1] == base64_char(b) && text[2] == base64_char(c)
        && text[3] == base64_char(d));
}

/// An icon is read back from its text byte by byte.
pub proof fn base64_reads_back(bytes: Seq<u8>)
    ensures
        base64_bytes(base64(bytes)) == bytes,
    decreases bytes.len(),
{
    if bytes.len() == 0 {
        assert(base64_bytes(base64(bytes)) =~= bytes);
    } else if bytes.len() <= 2 {
        lemma_last_bytes_read_back(bytes);
    } else {
        lemma_first_bytes_read_back(bytes);
        base64_reads_back(bytes.skip(3));
        assert(seq![bytes[0], bytes[1], bytes[2]] + bytes.skip(3) =~= bytes);
    }
}

/// An icon file has at most 8 MiB and at most 4096 points on each side; the icon itself, if it is
/// not told a fault, is a picture of 64 by 64 points, the file's own one if that has this size.
pub proof fn icons_are_bounded(
    server_id: Seq<char>,
    path: Seq<char>,
    bytes: Seq<u8>,
    result: Result<Seq<char>, Seq<char>>,
)
    requires
        loaded_icon(server_id, path, Ok(bytes), result),
    ensures
        bytes.len() > 8_388_608 ==> result is Err,
        png_dimensions(bytes) is Err ==> result is Err,
        png_dimensions(bytes) matches Ok(dimensions) && (dimensions.0 > 4096 || dimensions.1
            > 4096) ==> result is Err,
        bytes.len() <= 8_388_608 && png_dimensions(bytes) == Ok::<(u32, u32), Seq<char>>((64, 64))
            ==> match rewritten_png(bytes) {
            Ok(png) => result == Ok::<Seq<char>, Seq<char>>(
                "data:image/png;base64,"@ + base64(png),
            ),
            Err(_) => result is Err,
        },
        bytes.len() <= 8_388_608 && result is Ok && png_dimensions(bytes)
            != Ok::<(u32, u32), Seq<char>>((64, 64)) ==> exists|png: Seq<u8>|
            #[trigger] png_dimensions(png) == Ok::<(u32, u32), Seq<char>>((64, 64)) && result
                == Ok::<Seq<char>, Seq<char>>("data:image/png;base64,"@ + base64(png)),
{
    if bytes.len() <= 8_388_608 && result is Ok && png_dimensions(bytes) != Ok::<
        (u32, u32),
        Seq<char>,
    >((64, 64)) {
        let encoded = choose|encoded: Result<Seq<u8>, ImageFaultView>|
            #[trigger] resized_from(bytes, ICON_SIZE, ICON_SIZE, encoded) && result == icon_url(
                server_id,
                path,
                encoded,
            );
        assert(resized_from(bytes, 64, 64, encoded));
    }
}

/// What is accepted as an icon holds a picture of 64 by 64 points.
pub proof fn accepted_icons_have_one_size(url: Seq<char>)
    ensures
        holds_icon(url) <==> exists|png: Seq<u8>|
            #[trigger] png_dimensions(png) == Ok::<(u32, u32), Seq<char>>((64, 64)) && url
                == "data:image/png;base64,"@ + base64(png),
{
}

/// A picture of 64 by 64 points is kept, any other one of at most 4096 points on each side is
/// resized, and a larger one or none is refused.
pub proof fn pictures_are_kept_or_resized(
    server_id: Seq<char>,
    path: Seq<char>,
    dimensions: Result<(u32, u32), Seq<char>>,
)
    ensures
        icon_work(server_id, path, dimensions) == Ok::<IconWork, Seq<char>>(IconWork::Keep)
            <==> dimensions == Ok::<(u32, u32), Seq<char>>((64, 64)),
        icon_work(server_id, path, dimensions) is Ok <==> (dimensions matches Ok(found) && found.0
            <= 4096 && found.1 <= 4096),
{
}

/// A complaint about an icon names the server and the file.
pub proof fn complaints_name_the_icon(
    server_id: Seq<char>,
    path: Seq<char>,
    cause: Seq<char>,
    result: Result<Seq<char>, Seq<char>>,
)
    ensures
        icon_work(server_id, path, Err(cause)) == Err::<IconWork, Seq<char>>(
            "[server="@ + server_id + "] "@ + ("icon at "@ + path + " is not a valid PNG"@) + ": "@
                + cause,
        ),
        loaded_icon(server_id, path, Err(cause), result) ==> result == Err::<Seq<char>, Seq<char>>(
            "[server="@ + server_id + "] "@ + ("failed to read configured icon at "@ + path) + ": "@
                + cause,
        ),
        icon_url(server_id, path, Err(ImageFaultView::Encode(cause))) == Err::<
            Seq<char>,
            Seq<char>,
        >("failed to encode the server icon"@ + ": "@ + cause),
{
}

} // verus!
