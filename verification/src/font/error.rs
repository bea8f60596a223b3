//! Font loading errors.

use vstd::prelude::*;
use vstd::string::*;

verus! {

/// A font permissions error.
///
/// See: <https://learn.microsoft.com/en-us/typography/opentype/spec/os2#fstype>
#[derive(Debug, Clone, Copy, PartialEq, Eq, Structural)]
pub enum PermissionError {
    /// We can't use the font because it has a restricted license
    RestrictedLicense,
    /// We can't use the font because it doesn't allow subsetting
    NoSubsetting,
    /// We can't use the font because it doesn't allow outline embedding
    BitmapEmbeddingOnly,
}

/// The message of a permission error.
pub open spec fn permission_error_text(e: PermissionError) -> Seq<char> {
    match e {
        PermissionError::RestrictedLicense => "restricted license"@,
        PermissionError::NoSubsetting => "no subsetting"@,
        PermissionError::BitmapEmbeddingOnly => "bitmap embedding only"@,
    }
}

impl PermissionError {
    /// The error message.
    pub fn to_string(&self) -> (s: String)
        ensures
            s@ == permission_error_text(*self),
    {
        match self {
            PermissionError::RestrictedLicense => "restricted license".to_string(),
            PermissionError::NoSubsetting => "no subsetting".to_string(),
            PermissionError::BitmapEmbeddingOnly => "bitmap embedding only".to_string(),
        }
    }
}

/// Why the font data could not be read as a font face.
#[derive(Debug, Clone, Copy, PartialEq, Eq, Structural)]
pub enum FaceParsingError {
    /// An attempt to read out of bounds was detected
    MalformedFont,
    /// The data does not start with a known font magic number
    UnknownMagic,
    /// The face index is larger than the number of faces in the font
    FaceIndexOutOfBounds,
    /// The `head` table is missing or malformed
    NoHeadTable,
    /// The `hhea` table is missing or malformed
    NoHheaTable,
    /// The `maxp` table is missing or malformed
    NoMaxpTable,
}

/// The message of a parsing error.
pub open spec fn face_parsing_error_text(e: FaceParsingError) -> Seq<char> {
    match e {
        FaceParsingError::MalformedFont => "malformed font"@,
        FaceParsingError::UnknownMagic => "unknown magic"@,
        FaceParsingError::FaceIndexOutOfBounds => "face index is out of bounds"@,
        FaceParsingError::NoHeadTable => "the head table is missing or malformed"@,
        FaceParsingError::NoHheaTable => "the hhea table is missing or malformed"@,
        FaceParsingError::NoMaxpTable => "the maxp table is missing or malformed"@,
    }
}

impl FaceParsingError {
    /// The error message.
    pub fn to_string(&self) -> (s: String)
        ensures
            s@ == face_parsing_error_text(*self),
    {
        match self {
            FaceParsingError::MalformedFont => "malformed font".to_string(),
            FaceParsingError::UnknownMagic => "unknown magic".to_string(),
            FaceParsingError::FaceIndexOutOfBounds => "face index is out of bounds".to_string(),
            FaceParsingError::NoHeadTable => "the head table is missing or malformed".to_string(),
            FaceParsingError::NoHheaTable => "the hhea table is missing or malformed".to_string(),
            FaceParsingError::NoMaxpTable => "the maxp table is missing or malformed".to_string(),
        }
    }
}

/// A font error.
#[derive(Debug, Clone)]
pub enum Error {
    /// There was an error parsing the font face
    ParsingError(FaceParsingError),
    /// The font's permissions don't allow us to use it
    PermissionError(PermissionError),
    /// Missing required property
    MissingProperty(String),
}

/// The message of a font error.
pub open spec fn error_text(e: Error) -> Seq<char> {
    match e {
        Error::ParsingError(p) => "error parsing font: "@ + face_parsing_error_text(p),
        Error::PermissionError(p) => "permissions error: "@ + permission_error_text(p),
        Error::MissingProperty(prop) => "missing property "@ + prop@,
    }
}

impl Error {
    /// The error message.
    pub fn to_string(&self) -> (s: String)
        ensures
            s@ == error_text(*self),
    {
        match self {
            Error::ParsingError(p) => {
                let mut s = "error parsing font: ".to_string();
                let inner = p.to_string();
                s.append(inner.as_str());
                s
            },
            Error::PermissionError(p) => {
                let mut s = "permissions error: ".to_string();
                let inner = p.to_string();
                s.append(inner.as_str());
                s
            },
            Error::MissingProperty(prop) => {
                let mut s = "missing property ".to_string();
                s.append(prop.as_str());
                s
            },
        }
    }
}

impl From<PermissionError> for Error {
    fn from(error: PermissionError) -> (e: Self) {
        Error::PermissionError(error)
    }
}

impl vstd::std_specs::convert::FromSpecImpl<PermissionError> for Error {
    open spec fn obeys_from_spec() -> bool {
        true
    }

    open spec fn from_spec(error: PermissionError) -> Self {
        Error::PermissionError(error)
    }
}

impl From<FaceParsingError> for Error {
    fn from(error: FaceParsingError) -> (e: Self) {
        Error::ParsingError(error)
    }
}

impl vstd::std_specs::convert::FromSpecImpl<FaceParsingError> for Error {
    open spec fn obeys_from_spec() -> bool {
        true
    }

    open spec fn from_spec(error: FaceParsingError) -> Self {
        Error::ParsingError(error)
    }
}

} // verus!
