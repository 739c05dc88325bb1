//! The header of a firmware image: which model the image is for, and which
//! version it holds.
//!
//! The header is the first 64 bytes of the file. Bytes 0 to 15 hold the
//! model's tag, ended by a zero byte unless it fills the field; bytes 24 to
//! 31 hold the version as two little-endian words.

use crate::device::DeviceType;
use crate::version::VersionNumber;
use vstd::prelude::*;
use vstd::slice::*;

verus! {

/// The size of the header in bytes; no image is shorter.
pub const HEADER_LENGTH: usize = 64;

/// The size of the field that holds the model's tag.
pub const TAG_FIELD_LENGTH: usize = 16;

/// Where the version starts.
pub const VERSION_OFFSET: usize = 24;

/// The size of the version: two words of four bytes.
pub const VERSION_LENGTH: usize = 8;

/// What a firmware header says about its image.
#[derive(Clone, Copy, Debug, PartialEq, Eq, Structural)]
pub struct FirmwareInfo {
    pub device: DeviceType,
    pub version: VersionNumber,
}

/// Why a buffer was not accepted as a firmware image.
#[derive(Clone, Copy, Debug, PartialEq, Eq, Structural)]
pub enum ParseError {
    /// The buffer is shorter than a header.
    TooShort,
    /// The tag names no model that is known.
    UnknownDevice,
    /// Fewer than eight bytes were there to read the version from.
    VersionUnreadable,
}

impl ParseError {
    /// The error in words.
    pub fn message(&self) -> (text: String)
        ensures
            text@ == match *self {
                ParseError::TooShort => "Invalid GoXLR Firmware File"@,
                ParseError::UnknownDevice => "Unknown Device in Firmware Headers"@,
                ParseError::VersionUnreadable => "Unable to extract firmware version"@,
            },
    {
        match self {
            ParseError::TooShort => "Invalid GoXLR Firmware File".to_owned(),
            ParseError::UnknownDevice => "Unknown Device in Firmware Headers".to_owned(),
            ParseError::VersionUnreadable => "Unable to extract firmware version".to_owned(),
        }
    }
}

/// The tag of the full-sized model: the ASCII text `GoXLR Firmware`.
pub open spec fn full_tag_bytes() -> Seq<u8> {
    seq![71u8, 111u8, 88u8, 76u8, 82u8, 32u8, 70u8, 105u8, 114u8, 109u8, 119u8, 97u8, 114u8, 101u8]
}

/// The tag of the small model: the ASCII text `GoXLR-Mini`.
pub open spec fn mini_tag_bytes() -> Seq<u8> {
    seq![71u8, 111u8, 88u8, 76u8, 82u8, 45u8, 77u8, 105u8, 110u8, 105u8]
}

/// The number of bytes before the first zero byte of `src`, or the length
/// of `src` where it holds none.
pub open spec fn tag_length(src: Seq<u8>) -> nat
    decreases src.len(),
{
    if src.len() == 0 || src[0] == 0 {
        0
    } else {
        1 + tag_length(src.drop_first())
    }
}

/// The bytes of `src` before its first zero byte.
pub open spec fn tag_bytes(src: Seq<u8>) -> Seq<u8> {
    src.take(tag_length(src) as int)
}

/// The model that a tag names, if any.
pub open spec fn family_of_tag(tag: Seq<u8>) -> Option<DeviceType> {
    if tag == full_tag_bytes() {
        Some(DeviceType::Full)
    } else if tag == mini_tag_bytes() {
        Some(DeviceType::Mini)
    } else {
        None
    }
}

/// The word that four bytes hold, least significant byte first.
pub open spec fn le_u32(bytes: Seq<u8>) -> u32
    recommends
        bytes.len() >= 4,
{
    (bytes[0] as nat + bytes[1] as nat * 0x100 + bytes[2] as nat * 0x1_0000 + bytes[3] as nat
        * 0x100_0000) as u32
}

/// The version that a packed word and a build number stand for: the upper
/// twenty bits of the word are the major version, the next four the minor
/// version, the lowest eight the patch level.
pub open spec fn unpacked(packed: u32, build: u32) -> VersionNumber {
    VersionNumber(packed >> 12, (packed >> 8) & 0xF, packed & 0xFF, build)
}

/// The word that holds `major`, `minor` and `patch` in packed form.
pub open spec fn packed_word(major: u32, minor: u32, patch: u32) -> u32 {
    (major << 12) | (minor << 8) | patch
}

/// The version that the eight bytes of a version field hold.
pub open spec fn version_of(field: Seq<u8>) -> VersionNumber
    recommends
        field.len() >= 8,
{
    unpacked(le_u32(field.subrange(0, 4)), le_u32(field.subrange(4, 8)))
}

/// What a buffer says as a firmware image.
pub open spec fn parsed(bytes: Seq<u8>) -> Result<FirmwareInfo, ParseError> {
    if bytes.len() < HEADER_LENGTH {
        Err(ParseError::TooShort)
    } else {
        match family_of_tag(tag_bytes(bytes.subrange(0, TAG_FIELD_LENGTH as int))) {
            None => Err(ParseError::UnknownDevice),
            Some(device) => Ok(
                FirmwareInfo {
                    device,
                    version: version_of(
                        bytes.subrange(
                            VERSION_OFFSET as int,
                            VERSION_OFFSET as int + VERSION_LENGTH as int,
                        ),
                    ),
                },
            ),
        }
    }
}

/// What `String::from_utf8_lossy` makes of a byte string: its text, with
/// the replacement character wherever the bytes are not valid UTF-8.
pub uninterp spec fn utf8_lossy(bytes: Seq<u8>) -> Seq<char>;

/// Whether every byte is an ASCII character.
pub open spec fn ascii_only(bytes: Seq<u8>) -> bool {
    forall|i: int| 0 <= i < bytes.len() ==> #[trigger] bytes[i] < 128
}

/// The characters that ASCII bytes stand for.
pub open spec fn ascii_text(bytes: Seq<u8>) -> Seq<char> {
    bytes.map_values(|b: u8| b as char)
}

/// `std::io::Error`, the error of the reader behind `read_word`. Nothing
/// is said of what such a value holds.
#[verifier::external_type_specification]
#[verifier::external_body]
pub struct ExIoError(std::io::Error);

/// `String::from_utf8_lossy`, with the borrowed or owned text it returns
/// turned into a `String`. The text depends on the bytes alone. Bytes that
/// are all ASCII come back as the same characters, one for each byte.
#[verifier::external_body]
fn lossy_text(bytes: &[u8]) -> (text: String)
    ensures
        text@ == utf8_lossy(bytes@),
        ascii_only(bytes@) ==> text@ == ascii_text(bytes@),
{
    String::from_utf8_lossy(bytes).into_owned()
}

/// `byteorder::ReadBytesExt::read_u32` in little-endian order, on a
/// `std::io::Cursor` that starts at the front of `src`. It reads exactly
/// four bytes: with four or more in `src` it returns the word that the
/// first four hold, with fewer it returns the reader's error.
#[verifier::external_body]
fn read_word(src: &[u8]) -> (word: Result<u32, std::io::Error>)
    ensures
        src@.len() >= 4 ==> word is Ok && word->Ok_0 == le_u32(src@.subrange(0, 4)),
        src@.len() < 4 ==> word is Err,
{
    let mut cursor = std::io::Cursor::new(src);
    byteorder::ReadBytesExt::read_u32::<byteorder::LittleEndian>(&mut cursor)
}

/// A prefix without a zero byte, ended by a zero byte or by the end of the
/// buffer, is the tag.
proof fn lemma_tag_length(src: Seq<u8>, end: nat)
    requires
        end <= src.len(),
        forall|i: int| 0 <= i < end ==> src[i] != 0,
        end == src.len() || src[end as int] == 0,
    ensures
        tag_length(src) == end,
    decreases end,
{
    if end > 0 {
        let rest = src.drop_first();
        assert forall|i: int| 0 <= i < end - 1 implies rest[i] != 0 by {
            assert(rest[i] == src[i + 1]);
        }
        lemma_tag_length(rest, (end - 1) as nat);
    }
}

/// The tag never runs past the buffer, holds no zero byte, and stops at one
/// unless the buffer ends first.
pub proof fn lemma_tag_bytes_shape(src: Seq<u8>)
    ensures
        tag_length(src) <= src.len(),
        forall|i: int| 0 <= i < tag_length(src) ==> src[i] != 0,
        tag_length(src) == src.len() || src[tag_length(src) as int] == 0,
    decreases src.len(),
{
    if src.len() > 0 && src[0] != 0 {
        let rest = src.drop_first();
        lemma_tag_bytes_shape(rest);
        assert forall|i: int| 0 <= i < tag_length(src) implies src[i] != 0 by {
            if i > 0 {
                assert(src[i] == rest[i - 1]);
            }
        }
        if tag_length(src) != src.len() {
            assert(src[tag_length(src) as int] == rest[tag_length(rest) as int]);
        }
    }
}

/// The number of bytes of `src` before its first zero byte.
fn tag_end(src: &[u8]) -> (end: usize)
    ensures
        end == tag_length(src@),
        end <= src@.len(),
{
    let mut end: usize = 0;
    while end < src.len() && src[end] != 0
        invariant
            end <= src@.len(),
            forall|i: int| 0 <= i < end ==> src@[i] != 0,
        decreases src@.len() - end,
    {
        end = end + 1;
    }
    proof {
        lemma_tag_length(src@, end as nat);
    }
    end
}

/// The tag at the front of `src` as text: everything before the first zero
/// byte. Bytes that are no valid UTF-8 appear as replacement characters.
pub fn get_firmware_name(src: &[u8]) -> (name: String)
    ensures
        name@ == utf8_lossy(tag_bytes(src@)),
        ascii_only(tag_bytes(src@)) ==> name@ == ascii_text(tag_bytes(src@)),
{
    let end = tag_end(src);
    let tag = slice_subrange(src, 0, end);
    assert(tag@ =~= tag_bytes(src@));
    lossy_text(tag)
}

/// Reads the version from the front of `src`: a packed word, then the
/// build number. It fails only where `src` holds fewer than eight bytes.
pub fn get_firmware_version(src: &[u8]) -> (version: Result<VersionNumber, ParseError>)
    ensures
        version == if src@.len() >= VERSION_LENGTH {
            Ok::<VersionNumber, ParseError>(version_of(src@))
        } else {
            Err::<VersionNumber, ParseError>(ParseError::VersionUnreadable)
        },
{
    let packed = match read_word(src) {
        Ok(word) => word,
        Err(_) => {
            return Err(ParseError::VersionUnreadable);
        },
    };
    let rest = slice_subrange(src, 4, src.len());
    let build = match read_word(rest) {
        Ok(word) => word,
        Err(_) => {
            return Err(ParseError::VersionUnreadable);
        },
    };
    assert(rest@.subrange(0, 4) =~= src@.subrange(4, 8));
    Ok(VersionNumber(packed >> 12, (packed >> 8) & 0xF, packed & 0xFF, build))
}

/// Whether two byte strings are the same.
fn same_bytes(left: &[u8], right: &[u8]) -> (same: bool)
    ensures
        same == (left@ == right@),
{
    if left.len() != right.len() {
        return false;
    }
    let mut at: usize = 0;
    while at < left.len()
        invariant
            left@.len() == right@.len(),
            at <= left@.len(),
            forall|i: int| 0 <= i < at ==> left@[i] == right@[i],
        decreases left@.len() - at,
    {
        if left[at] != right[at] {
            return false;
        }
        at = at + 1;
    }
    assert(left@ =~= right@);
    true
}

/// The model that the tag at the front of `field` names.
pub fn device_of_tag(field: &[u8]) -> (device: Option<DeviceType>)
    ensures
        device == family_of_tag(tag_bytes(field@)),
{
    let end = tag_end(field);
    let tag = slice_subrange(field, 0, end);
    assert(tag@ =~= tag_bytes(field@));
    let full: [u8; 14] = [71, 111, 88, 76, 82, 32, 70, 105, 114, 109, 119, 97, 114, 101];
    let mini: [u8; 10] = [71, 111, 88, 76, 82, 45, 77, 105, 110, 105];
    assert(full@ =~= full_tag_bytes());
    assert(mini@ =~= mini_tag_bytes());
    if same_bytes(tag, full.as_slice()) {
        Some(DeviceType::Full)
    } else if same_bytes(tag, mini.as_slice()) {
        Some(DeviceType::Mini)
    } else {
        None
    }
}

/// Reads the header of a firmware image.
///
/// A buffer of fewer than 64 bytes is too short. Otherwise the tag decides
/// the model, and an image for no known model is refused. What follows the
/// header is not looked at.
pub fn check_firmware(bytes: &[u8]) -> (info: Result<FirmwareInfo, ParseError>)
    ensures
        info == parsed(bytes@),
{
    if bytes.len() < HEADER_LENGTH {
        return Err(ParseError::TooShort);
    }
    let field = slice_subrange(bytes, 0, TAG_FIELD_LENGTH);
    let device = match device_of_tag(field) {
        Some(device) => device,
        None => {
            return Err(ParseError::UnknownDevice);
        },
    };
    let words = slice_subrange(bytes, VERSION_OFFSET, VERSION_OFFSET + VERSION_LENGTH);
    match get_firmware_version(words) {
        Ok(version) => Ok(FirmwareInfo { device, version }),
        Err(error) => Err(error),
    }
}

/// A firmware image that was read and accepted: the bytes to transfer, with
/// what their header says. The bytes are never changed.
pub struct FirmwareImage {
    info: FirmwareInfo,
    bytes: Vec<u8>,
}

impl FirmwareImage {
    #[verifier::type_invariant]
    spec fn accepted(self) -> bool {
        parsed(self.bytes@) == Ok::<FirmwareInfo, ParseError>(self.info)
    }

    /// The bytes of the image, header included.
    pub closed spec fn contents(&self) -> Seq<u8> {
        self.bytes@
    }

    /// What the header says.
    pub closed spec fn header(&self) -> FirmwareInfo {
        self.info
    }

    /// Accepts `bytes` as an image if their header can be read.
    pub fn load(bytes: Vec<u8>) -> (image: Result<FirmwareImage, ParseError>)
        ensures
            match image {
                Ok(loaded) => parsed(bytes@) == Ok::<FirmwareInfo, ParseError>(loaded.header())
                    && loaded.contents() == bytes@,
                Err(error) => parsed(bytes@) == Err::<FirmwareInfo, ParseError>(error),
            },
    {
        match check_firmware(bytes.as_slice()) {
            Ok(info) => Ok(FirmwareImage { info, bytes }),
            Err(error) => Err(error),
        }
    }

    /// The model that the image is for.
    pub fn device_family(&self) -> (device: DeviceType)
        ensures
            device == self.header().device,
            parsed(self.contents()) == Ok::<FirmwareInfo, ParseError>(self.header()),
            device != DeviceType::Unknown,
    {
        proof {
            use_type_invariant(self);
        }
        self.info.device
    }

    /// The version that the image holds.
    pub fn version(&self) -> (version: VersionNumber)
        ensures
            version == self.header().version,
            parsed(self.contents()) == Ok::<FirmwareInfo, ParseError>(self.header()),
    {
        proof {
            use_type_invariant(self);
        }
        self.info.version
    }

    /// The number of bytes in the image; never fewer than a header.
    pub fn len(&self) -> (length: usize)
        ensures
            length == self.contents().len(),
            length >= HEADER_LENGTH,
    {
        proof {
            use_type_invariant(self);
        }
        self.bytes.len()
    }

    /// The bytes of the image.
    pub fn bytes(&self) -> (bytes: &[u8])
        ensures
            bytes@ == self.contents(),
    {
        self.bytes.as_slice()
    }
}

/// A buffer that is shorter than a header is never accepted, whatever it
/// holds.
pub proof fn lemma_short_buffer_is_refused(bytes: Seq<u8>)
    requires
        bytes.len() < HEADER_LENGTH,
    ensures
        parsed(bytes) == Err::<FirmwareInfo, ParseError>(ParseError::TooShort),
{
}

/// Packing a version and unpacking it again gives the version back, as long
/// as each part fits its place: twenty bits for the major version, four for
/// the minor version, eight for the patch level. The build number passes
/// through as it is.
pub proof fn lemma_version_round_trip(major: u32, minor: u32, patch: u32, build: u32)
    requires
        major < 0x10_0000,
        minor < 0x10,
        patch < 0x100,
    ensures
        unpacked(packed_word(major, minor, patch), build) == VersionNumber(
            major,
            minor,
            patch,
            build,
        ),
{
    let packed = packed_word(major, minor, patch);
    assert(((major << 12) | (minor << 8) | patch) >> 12 == major) by (bit_vector)
        requires
            major < 0x10_0000,
            minor < 0x10,
            patch < 0x100,
    ;
    assert((((major << 12) | (minor << 8) | patch) >> 8) & 0xF == minor) by (bit_vector)
        requires
            major < 0x10_0000,
            minor < 0x10,
            patch < 0x100,
    ;
    assert(((major << 12) | (minor << 8) | patch) & 0xFF == patch) by (bit_vector)
        requires
            major < 0x10_0000,
            minor < 0x10,
            patch < 0x100,
    ;
}

/// The four bytes that hold a word, least significant byte first.
pub open spec fn le_bytes(word: u32) -> Seq<u8> {
    seq![
        (word % 0x100) as u8,
        (word / 0x100 % 0x100) as u8,
        (word / 0x1_0000 % 0x100) as u8,
        (word / 0x100_0000) as u8,
    ]
}

/// Reading the bytes of a word gives the word back.
pub proof fn lemma_le_round_trip(word: u32)
    ensures
        le_bytes(word).len() == 4,
        le_u32(le_bytes(word)) == word,
{
}

/// A header that holds a version in packed form is read as that version:
/// whatever image carries a known tag, the packed word of `major`, `minor`
/// and `patch` at byte 24 and `build` at byte 28, its version is read back
/// as it was written, as long as each part fits its place.
pub proof fn lemma_header_round_trip(
    bytes: Seq<u8>,
    major: u32,
    minor: u32,
    patch: u32,
    build: u32,
)
    requires
        bytes.len() >= HEADER_LENGTH,
        family_of_tag(tag_bytes(bytes.subrange(0, TAG_FIELD_LENGTH as int))) is Some,
        bytes.subrange(24, 28) == le_bytes(packed_word(major, minor, patch)),
        bytes.subrange(28, 32) == le_bytes(build),
        major < 0x10_0000,
        minor < 0x10,
        patch < 0x100,
    ensures
        parsed(bytes) is Ok,
        parsed(bytes)->Ok_0.version == VersionNumber(major, minor, patch, build),
{
    let field = bytes.subrange(24, 32);
    assert(field.subrange(0, 4) =~= bytes.subrange(24, 28));
    assert(field.subrange(4, 8) =~= bytes.subrange(28, 32));
    lemma_le_round_trip(packed_word(major, minor, patch));
    lemma_le_round_trip(build);
    lemma_version_round_trip(major, minor, patch, build);
}

/// The parts of an unpacked version always fit their places.
pub proof fn lemma_unpacked_ranges(packed: u32, build: u32)
    ensures
        unpacked(packed, build).0 < 0x10_0000,
        unpacked(packed, build).1 < 0x10,
        unpacked(packed, build).2 < 0x100,
        unpacked(packed, build).3 == build,
        packed_word(unpacked(packed, build).0, unpacked(packed, build).1, unpacked(packed, build).2)
            == packed,
{
    assert(packed >> 12 < 0x10_0000) by (bit_vector);
    assert((packed >> 8) & 0xF < 0x10) by (bit_vector);
    assert(packed & 0xFF < 0x100) by (bit_vector);
    assert((((packed >> 12) << 12) | (((packed >> 8) & 0xF) << 8) | (packed & 0xFF)) == packed)
        by (bit_vector);
}

} // verus!
