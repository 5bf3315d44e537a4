// Errors of the sources and of the host, with their messages.
use vstd::prelude::*;
use vstd::string::*;

use crate::text::{concat, decimal, decimal_string, str_eq};

verus! {

/// An error that a source reports about its own work.
#[derive(Debug, Clone, PartialEq, Eq)]
pub enum SourceError {
    Unknown(String),
    Fetch,
    Serialize,
    InvalidIdentifier,
    InvalidSource,
    ABINullConversion,
    ABIResult(String),
}

/// The mathematical value of a `SourceError`: messages as character sequences.
pub enum SourceErrorV {
    Unknown(Seq<char>),
    Fetch,
    Serialize,
    InvalidIdentifier,
    InvalidSource,
    ABINullConversion,
    ABIResult(Seq<char>),
}

impl View for SourceError {
    type V = SourceErrorV;

    open spec fn view(&self) -> SourceErrorV {
        match self {
            SourceError::Unknown(m) => SourceErrorV::Unknown(m@),
            SourceError::Fetch => SourceErrorV::Fetch,
            SourceError::Serialize => SourceErrorV::Serialize,
            SourceError::InvalidIdentifier => SourceErrorV::InvalidIdentifier,
            SourceError::InvalidSource => SourceErrorV::InvalidSource,
            SourceError::ABINullConversion => SourceErrorV::ABINullConversion,
            SourceError::ABIResult(m) => SourceErrorV::ABIResult(m@),
        }
    }
}

/// The human readable message of a source error.
pub open spec fn source_message(e: SourceErrorV) -> Seq<char> {
    match e {
        SourceErrorV::Unknown(m) => "UNKNOWN_ERROR::"@ + m,
        SourceErrorV::Fetch => "COULD_NOT_FETCH_DATA"@,
        SourceErrorV::Serialize => "COULD_NOT_SERIALIZE_DATA"@,
        SourceErrorV::InvalidIdentifier => "INVALID_IDENTIFIER_PROVIDED"@,
        SourceErrorV::InvalidSource => "INVALID_SOURCE_PROVIDED"@,
        SourceErrorV::ABINullConversion => "ABI_NULL_CONVERSION_ERROR"@,
        SourceErrorV::ABIResult(m) => "ABI_RESULT_ERROR::"@ + m,
    }
}

/// The source error that a message reads as: the four fixed messages name their
/// error, and any other text is kept whole as an unknown error.
pub open spec fn source_error_of_message(s: Seq<char>) -> SourceErrorV {
    if s == "COULD_NOT_FETCH_DATA"@ {
        SourceErrorV::Fetch
    } else if s == "COULD_NOT_SERIALIZE_DATA"@ {
        SourceErrorV::Serialize
    } else if s == "INVALID_IDENTIFIER_PROVIDED"@ {
        SourceErrorV::InvalidIdentifier
    } else if s == "INVALID_SOURCE_PROVIDED"@ {
        SourceErrorV::InvalidSource
    } else {
        SourceErrorV::Unknown(s)
    }
}

impl SourceError {
    /// The human readable message of this error.
    pub fn message(&self) -> (r: String)
        ensures
            r@ == source_message(self@),
    {
        match self {
            SourceError::Unknown(m) => concat("UNKNOWN_ERROR::", m.as_str()),
            SourceError::Fetch => String::from_str("COULD_NOT_FETCH_DATA"),
            SourceError::Serialize => String::from_str("COULD_NOT_SERIALIZE_DATA"),
            SourceError::InvalidIdentifier => String::from_str("INVALID_IDENTIFIER_PROVIDED"),
            SourceError::InvalidSource => String::from_str("INVALID_SOURCE_PROVIDED"),
            SourceError::ABINullConversion => String::from_str("ABI_NULL_CONVERSION_ERROR"),
            SourceError::ABIResult(m) => concat("ABI_RESULT_ERROR::", m.as_str()),
        }
    }

    /// Reads an error back from its message; this never fails.
    pub fn from_str(s: &str) -> (r: SourceError)
        ensures
            r@ == source_error_of_message(s@),
    {
        if str_eq(s, "COULD_NOT_FETCH_DATA") {
            SourceError::Fetch
        } else if str_eq(s, "COULD_NOT_SERIALIZE_DATA") {
            SourceError::Serialize
        } else if str_eq(s, "INVALID_IDENTIFIER_PROVIDED") {
            SourceError::InvalidIdentifier
        } else if str_eq(s, "INVALID_SOURCE_PROVIDED") {
            SourceError::InvalidSource
        } else {
            SourceError::Unknown(String::from_str(s))
        }
    }
}

/// The four errors without a payload that are not about the binary interface
/// read back from their message as themselves.
pub proof fn lemma_message_round_trip(e: SourceErrorV)
    requires
        e is Fetch || e is Serialize || e is InvalidIdentifier || e is InvalidSource,
    ensures
        source_error_of_message(source_message(e)) == e,
{
    reveal_strlit("COULD_NOT_FETCH_DATA");
    reveal_strlit("COULD_NOT_SERIALIZE_DATA");
    reveal_strlit("INVALID_IDENTIFIER_PROVIDED");
    reveal_strlit("INVALID_SOURCE_PROVIDED");
    assert("COULD_NOT_FETCH_DATA"@.len() != "COULD_NOT_SERIALIZE_DATA"@.len());
    assert("COULD_NOT_FETCH_DATA"@.len() != "INVALID_IDENTIFIER_PROVIDED"@.len());
    assert("COULD_NOT_FETCH_DATA"@.len() != "INVALID_SOURCE_PROVIDED"@.len());
    assert("COULD_NOT_SERIALIZE_DATA"@.len() != "INVALID_IDENTIFIER_PROVIDED"@.len());
    assert("COULD_NOT_SERIALIZE_DATA"@[0] != "INVALID_SOURCE_PROVIDED"@[0]);
    assert("INVALID_IDENTIFIER_PROVIDED"@.len() != "INVALID_SOURCE_PROVIDED"@.len());
}

/// The error envelope that carries a source error across the plugin boundary.
#[derive(Debug, Clone, PartialEq, Eq)]
pub struct SourceErrorSerialized {
    pub error: SourceError,
}

/// An error of the host: loading sources, talking to them, and caching what they point at.
#[derive(Debug, Clone, PartialEq, Eq)]
pub enum EbiError {
    Unknown(String),
    DuplicatedSource,
    InvalidSource,
    SourceError(SourceError),
    LoadMangaList(SourceError),
    LoadChapterList(SourceError),
    LoadChapterPageList(SourceError),
    LoadLib,
    LoadFunction,
    SerializeResponse,
    AbiSerialization,
    NoContentType,
    UnsupportedFile(String),
    CouldNotReadBuffer,
    CouldNotSaveFile(String),
    InvalidRequest(u16),
    CouldNotCompleteRequest,
    InvalidDir(String),
}

/// The human readable message of a host error.
pub open spec fn ebi_message(e: EbiError) -> Seq<char> {
    match e {
        EbiError::Unknown(m) => "UNKNOWN_ERROR::"@ + m@,
        EbiError::DuplicatedSource => "DUPLICATED_SOURCE"@,
        EbiError::InvalidSource => "INVALID_SOURCE"@,
        EbiError::SourceError(s) => "SOURCE_ERROR::"@ + source_message(s@),
        EbiError::LoadMangaList(s) => "COULD_NOT_LOAD_MANGA_LIST::"@ + source_message(s@),
        EbiError::LoadChapterList(s) => "COULD_NOT_LOAD_CHAPTER_LIST::"@ + source_message(s@),
        EbiError::LoadChapterPageList(s) => "COULD_NOT_LOAD_CHAPTER_PAGE_LIST::"@ + source_message(
            s@,
        ),
        EbiError::LoadLib => "COULD_NOT_LOAD_LIB"@,
        EbiError::LoadFunction => "COULD_NOT_LOAD_FUNCTION"@,
        EbiError::SerializeResponse => "COULD_NOT_SERIALIZE_LIB_RESPONSE"@,
        EbiError::AbiSerialization => "COULD_NOT_GENERATE_ABI_REPRESENTATION"@,
        EbiError::NoContentType => "NO_CONTENT_TYPE_ON_RESPONSE_HEADERS"@,
        EbiError::UnsupportedFile(m) => "UNSUPPORTED_FILE_FORMAT::"@ + m@,
        EbiError::CouldNotReadBuffer => "COULD_NOT_READ_BUFFER"@,
        EbiError::CouldNotSaveFile(m) => "COULD_NOT_SAVE_FILE::"@ + m@,
        EbiError::InvalidRequest(c) => "INVALID_REQUEST::"@ + decimal(c as nat),
        EbiError::CouldNotCompleteRequest => "COULD_NOT_COMPLETE_REQUEST"@,
        EbiError::InvalidDir(m) => "INVALID_DIR::"@ + m@,
    }
}

impl EbiError {
    /// The human readable message of this error.
    pub fn message(&self) -> (r: String)
        ensures
            r@ == ebi_message(*self),
    {
        match self {
            EbiError::Unknown(m) => concat("UNKNOWN_ERROR::", m.as_str()),
            EbiError::DuplicatedSource => String::from_str("DUPLICATED_SOURCE"),
            EbiError::InvalidSource => String::from_str("INVALID_SOURCE"),
            EbiError::SourceError(s) => concat("SOURCE_ERROR::", s.message().as_str()),
            EbiError::LoadMangaList(s) => concat(
                "COULD_NOT_LOAD_MANGA_LIST::",
                s.message().as_str(),
            ),
            EbiError::LoadChapterList(s) => concat(
                "COULD_NOT_LOAD_CHAPTER_LIST::",
                s.message().as_str(),
            ),
            EbiError::LoadChapterPageList(s) => concat(
                "COULD_NOT_LOAD_CHAPTER_PAGE_LIST::",
                s.message().as_str(),
            ),
            EbiError::LoadLib => String::from_str("COULD_NOT_LOAD_LIB"),
            EbiError::LoadFunction => String::from_str("COULD_NOT_LOAD_FUNCTION"),
            EbiError::SerializeResponse => String::from_str("COULD_NOT_SERIALIZE_LIB_RESPONSE"),
            EbiError::AbiSerialization => String::from_str(
                "COULD_NOT_GENERATE_ABI_REPRESENTATION",
            ),
            EbiError::NoContentType => String::from_str("NO_CONTENT_TYPE_ON_RESPONSE_HEADERS"),
            EbiError::UnsupportedFile(m) => concat("UNSUPPORTED_FILE_FORMAT::", m.as_str()),
            EbiError::CouldNotReadBuffer => String::from_str("COULD_NOT_READ_BUFFER"),
            EbiError::CouldNotSaveFile(m) => concat("COULD_NOT_SAVE_FILE::", m.as_str()),
            EbiError::InvalidRequest(c) => concat(
                "INVALID_REQUEST::",
                decimal_string(*c as u32).as_str(),
            ),
            EbiError::CouldNotCompleteRequest => String::from_str("COULD_NOT_COMPLETE_REQUEST"),
            EbiError::InvalidDir(m) => concat("INVALID_DIR::", m.as_str()),
        }
    }
}

/// The host error that stands for a source error: messages and the binary interface's
/// null conversion have their own variant, the rest is carried as it came, so that a
/// source reporting an invalid source stays apart from the registry's own refusal.
pub open spec fn ebi_error_of(e: SourceError) -> EbiError {
    match e {
        SourceError::Unknown(m) => EbiError::Unknown(m),
        SourceError::ABINullConversion => EbiError::AbiSerialization,
        _ => EbiError::SourceError(e),
    }
}

impl From<SourceError> for EbiError {
    fn from(value: SourceError) -> (r: EbiError) {
        match value {
            SourceError::Unknown(msg) => EbiError::Unknown(msg),
            SourceError::ABINullConversion => EbiError::AbiSerialization,
            other => EbiError::SourceError(other),
        }
    }
}

impl vstd::std_specs::convert::FromSpecImpl<SourceError> for EbiError {
    open spec fn obeys_from_spec() -> bool {
        true
    }

    open spec fn from_spec(v: SourceError) -> EbiError {
        ebi_error_of(v)
    }
}

} // verus!
