use crate::internal::try_c_char_ptr_to_str;
use crate::native::RawProtocolDetails;
use vstd::prelude::*;
use vstd::utf8::{decode_utf8, valid_utf8};

verus! {

/// `semver::SemVerError`, the error of the version parser. It is carried
/// through as it is; nothing is known of what it holds.
#[verifier::external_type_specification]
#[verifier::external_body]
pub struct ExSemVerError(semver::SemVerError);

/// `Clone::clone` of `semver::SemVerError`, which the derive of the error
/// types here calls; nothing is claimed about the copy.
pub assume_specification[ <semver::SemVerError as Clone>::clone ](
    error: &semver::SemVerError,
) -> semver::SemVerError
;

/// One dot-separated part of the pre-release or build metadata of a version.
#[derive(Debug, Clone, PartialEq, Eq)]
pub enum Identifier {
    /// A part that is solely a number.
    Numeric(u64),
    /// A part with letters and numbers.
    AlphaNumeric(String),
}

/// The mathematical content of an [`Identifier`].
pub ghost enum IdentifierView {
    Numeric(u64),
    AlphaNumeric(Seq<char>),
}

impl DeepView for Identifier {
    type V = IdentifierView;

    open spec fn deep_view(&self) -> IdentifierView {
        match self {
            Identifier::Numeric(n) => IdentifierView::Numeric(*n),
            Identifier::AlphaNumeric(s) => IdentifierView::AlphaNumeric(s@),
        }
    }
}

/// A semantic version, as the service reports its own and the server's.
#[derive(Debug, Clone, PartialEq, Eq)]
pub struct Version {
    pub major: u64,
    pub minor: u64,
    pub patch: u64,
    pub pre: Vec<Identifier>,
    pub build: Vec<Identifier>,
}

/// The mathematical content of a [`Version`].
pub ghost struct VersionView {
    pub major: u64,
    pub minor: u64,
    pub patch: u64,
    pub pre: Seq<IdentifierView>,
    pub build: Seq<IdentifierView>,
}

impl DeepView for Version {
    type V = VersionView;

    open spec fn deep_view(&self) -> VersionView {
        VersionView {
            major: self.major,
            minor: self.minor,
            patch: self.patch,
            pre: self.pre.deep_view(),
            build: self.build.deep_view(),
        }
    }
}

impl Version {
    /// The simple case without pre-release or build metadata.
    pub fn new(major: u64, minor: u64, patch: u64) -> (version: Self)
        ensures
            version.deep_view() == (VersionView {
                major,
                minor,
                patch,
                pre: Seq::empty(),
                build: Seq::empty(),
            }),
    {
        let version = Version { major, minor, patch, pre: Vec::new(), build: Vec::new() };
        proof {
            assert(version.pre.deep_view() =~= Seq::<IdentifierView>::empty());
            assert(version.build.deep_view() =~= Seq::<IdentifierView>::empty());
        }
        version
    }
}

/// What `semver::Version::parse` makes of a text: the version, or nothing if
/// the text is no version.
pub uninterp spec fn semver_parse(text: Seq<char>) -> Option<VersionView>;

/// Parses a version text with `semver::Version::parse`. The outcome depends
/// on the text alone; the parsed version is carried over field by field.
#[verifier::external_body]
pub(crate) fn parse_semver(text: &str) -> (res: Result<Version, semver::SemVerError>)
    ensures
        match res {
            Ok(version) => semver_parse(text@) == Some(version.deep_view()),
            Err(_) => semver_parse(text@) is None,
        },
{
    let parsed = semver::Version::parse(text)?;
    let convert = |id: semver::Identifier| match id {
        semver::Identifier::Numeric(n) => Identifier::Numeric(n),
        semver::Identifier::AlphaNumeric(s) => Identifier::AlphaNumeric(s),
    };
    Ok(
        Version {
            major: parsed.major,
            minor: parsed.minor,
            patch: parsed.patch,
            pre: parsed.pre.into_iter().map(convert).collect(),
            build: parsed.build.into_iter().map(convert).collect(),
        },
    )
}

/// What the handshake with the service established.
#[derive(Debug, Clone, PartialEq, Eq)]
pub struct ProtocolDetails {
    pub sdk_version: Version,
    pub server_version: Option<Version>,
    pub sdk_protocol_version: i32,
    pub server_protocol_version: i32,
    pub breaking_changes: bool,
}

/// The mathematical content of a [`ProtocolDetails`].
pub ghost struct ProtocolDetailsView {
    pub sdk_version: VersionView,
    pub server_version: Option<VersionView>,
    pub sdk_protocol_version: i32,
    pub server_protocol_version: i32,
    pub breaking_changes: bool,
}

impl DeepView for ProtocolDetails {
    type V = ProtocolDetailsView;

    open spec fn deep_view(&self) -> ProtocolDetailsView {
        ProtocolDetailsView {
            sdk_version: self.sdk_version.deep_view(),
            server_version: match self.server_version {
                Some(v) => Some(v.deep_view()),
                None => None,
            },
            sdk_protocol_version: self.sdk_protocol_version,
            server_protocol_version: self.server_protocol_version,
            breaking_changes: self.breaking_changes,
        }
    }
}

/// The reasons why the details of a handshake can be unusable. Each names the
/// field at fault.
#[derive(Debug, Clone, PartialEq)]
#[allow(inconsistent_fields)]
pub enum ProtocolDetailsFromFfiError {
    /// The field is not valid UTF-8; `error` is the decoder's error.
    StringParsingError { field: String, error: core::str::Utf8Error },
    /// The field is no semantic version; `error` is the parser's error.
    VersionParsingError { field: String, error: semver::SemVerError },
    /// The field is a null pointer.
    NullPtrError(String),
}

/// The mathematical content of a [`ProtocolDetailsFromFfiError`]. The error
/// values of the decoder and of the parser are not part of it.
pub ghost enum ProtocolDetailsFromFfiErrorView {
    StringParsingError { field: Seq<char> },
    VersionParsingError { field: Seq<char> },
    NullPtrError(Seq<char>),
}

impl DeepView for ProtocolDetailsFromFfiError {
    type V = ProtocolDetailsFromFfiErrorView;

    open spec fn deep_view(&self) -> ProtocolDetailsFromFfiErrorView {
        match self {
            ProtocolDetailsFromFfiError::StringParsingError { field, error } => {
                ProtocolDetailsFromFfiErrorView::StringParsingError { field: field@ }
            },
            ProtocolDetailsFromFfiError::VersionParsingError { field, error } => {
                ProtocolDetailsFromFfiErrorView::VersionParsingError { field: field@ }
            },
            ProtocolDetailsFromFfiError::NullPtrError(field) => {
                ProtocolDetailsFromFfiErrorView::NullPtrError(field@)
            },
        }
    }
}

/// What became of one version field of the handshake: the field is a null
/// pointer (`Missing`), is not valid UTF-8 (`NotText`), or is text, and then
/// what the parser made of it.
#[derive(Debug, PartialEq)]
pub enum VersionField {
    Missing,
    NotText(core::str::Utf8Error),
    Parsed(Result<Version, semver::SemVerError>),
}

/// The mathematical content of a [`VersionField`]: `Parsed` holds the version
/// if there is one.
pub ghost enum VersionFieldView {
    Missing,
    NotText,
    Parsed(Option<VersionView>),
}

impl DeepView for VersionField {
    type V = VersionFieldView;

    open spec fn deep_view(&self) -> VersionFieldView {
        match self {
            VersionField::Missing => VersionFieldView::Missing,
            VersionField::NotText(_) => VersionFieldView::NotText,
            VersionField::Parsed(Ok(version)) => VersionFieldView::Parsed(
                Some(version.deep_view()),
            ),
            VersionField::Parsed(Err(_)) => VersionFieldView::Parsed(None),
        }
    }
}

/// What becomes of a version field with the given bytes; `None` stands for
/// the null pointer.
pub open spec fn spec_version_field(bytes: Option<Seq<u8>>) -> VersionFieldView {
    match bytes {
        None => VersionFieldView::Missing,
        Some(b) => if valid_utf8(b) {
            VersionFieldView::Parsed(semver_parse(decode_utf8(b)))
        } else {
            VersionFieldView::NotText
        },
    }
}

/// Decodes a version field strictly and hands the text to the parser.
pub fn read_version_field(bytes: Option<&[u8]>) -> (field: VersionField)
    ensures
        field.deep_view() == spec_version_field(
            match bytes {
                Some(b) => Some(b@),
                None => None,
            },
        ),
{
    match try_c_char_ptr_to_str(bytes) {
        Err(e) => VersionField::NotText(e),
        Ok(None) => VersionField::Missing,
        Ok(Some(text)) => VersionField::Parsed(parse_semver(text.as_str())),
    }
}

/// Turns the parser's verdict on the field `field_name` into a version or
/// into the error that names the field.
pub fn parse_version(field_name: &str, parsed: Result<Version, semver::SemVerError>) -> (res:
    Result<Version, ProtocolDetailsFromFfiError>)
    ensures
        match (parsed, res) {
            (Ok(version), Ok(out)) => out == version,
            (Err(_), Err(error)) => error.deep_view()
                == (ProtocolDetailsFromFfiErrorView::VersionParsingError { field: field_name@ }),
            _ => false,
        },
{
    match parsed {
        Ok(version) => Ok(version),
        Err(e) => Err(
            ProtocolDetailsFromFfiError::VersionParsingError {
                field: field_name.to_owned(),
                error: e,
            },
        ),
    }
}

impl ProtocolDetails {
    /// What the details of a handshake are, given what became of the two
    /// version fields. The version of the SDK is required; that of the server
    /// may be missing, but must be a version if it is there. The first field
    /// at fault decides the error.
    pub open spec fn spec_from_fields(
        sdk_version: VersionFieldView,
        server_version: VersionFieldView,
        sdk_protocol_version: i32,
        server_protocol_version: i32,
        breaking_changes: bool,
    ) -> Result<ProtocolDetailsView, ProtocolDetailsFromFfiErrorView> {
        match sdk_version {
            VersionFieldView::NotText => Err(
                ProtocolDetailsFromFfiErrorView::StringParsingError { field: "sdk_version"@ },
            ),
            VersionFieldView::Missing => Err(
                ProtocolDetailsFromFfiErrorView::NullPtrError("sdk_version"@),
            ),
            VersionFieldView::Parsed(None) => Err(
                ProtocolDetailsFromFfiErrorView::VersionParsingError { field: "sdk_version"@ },
            ),
            VersionFieldView::Parsed(Some(sdk)) => match server_version {
                VersionFieldView::NotText => Err(
                    ProtocolDetailsFromFfiErrorView::StringParsingError {
                        field: "server_version"@,
                    },
                ),
                VersionFieldView::Parsed(None) => Err(
                    ProtocolDetailsFromFfiErrorView::VersionParsingError {
                        field: "server_version"@,
                    },
                ),
                VersionFieldView::Missing => Ok(
                    ProtocolDetailsView {
                        sdk_version: sdk,
                        server_version: None,
                        sdk_protocol_version,
                        server_protocol_version,
                        breaking_changes,
                    },
                ),
                VersionFieldView::Parsed(Some(server)) => Ok(
                    ProtocolDetailsView {
                        sdk_version: sdk,
                        server_version: Some(server),
                        sdk_protocol_version,
                        server_protocol_version,
                        breaking_changes,
                    },
                ),
            },
        }
    }

    /// Puts the details of a handshake together from what became of the two
    /// version fields and from the plain fields.
    pub fn from_fields(
        sdk_version: VersionField,
        server_version: VersionField,
        sdk_protocol_version: i32,
        server_protocol_version: i32,
        breaking_changes: bool,
    ) -> (res: Result<Self, ProtocolDetailsFromFfiError>)
        ensures
            match res {
                Ok(details) => Self::spec_from_fields(
                    sdk_version.deep_view(),
                    server_version.deep_view(),
                    sdk_protocol_version,
                    server_protocol_version,
                    breaking_changes,
                ) == Ok::<ProtocolDetailsView, ProtocolDetailsFromFfiErrorView>(details.deep_view()),
                Err(error) => Self::spec_from_fields(
                    sdk_version.deep_view(),
                    server_version.deep_view(),
                    sdk_protocol_version,
                    server_protocol_version,
                    breaking_changes,
                ) == Err::<ProtocolDetailsView, ProtocolDetailsFromFfiErrorView>(error.deep_view()),
            },
    {
        let sdk_version = match sdk_version {
            VersionField::NotText(e) => {
                return Err(
                    ProtocolDetailsFromFfiError::StringParsingError {
                        field: "sdk_version".to_owned(),
                        error: e,
                    },
                );
            },
            VersionField::Missing => {
                return Err(ProtocolDetailsFromFfiError::NullPtrError("sdk_version".to_owned()));
            },
            VersionField::Parsed(parsed) => match parse_version("sdk_version", parsed) {
                Ok(version) => version,
                Err(e) => {
                    return Err(e);
                },
            },
        };
        let server_version = match server_version {
            VersionField::NotText(e) => {
                return Err(
                    ProtocolDetailsFromFfiError::StringParsingError {
                        field: "server_version".to_owned(),
                        error: e,
                    },
                );
            },
            VersionField::Missing => None,
            VersionField::Parsed(parsed) => match parse_version("server_version", parsed) {
                Ok(version) => Some(version),
                Err(e) => {
                    return Err(e);
                },
            },
        };
        Ok(
            ProtocolDetails {
                sdk_version,
                server_version,
                sdk_protocol_version,
                server_protocol_version,
                breaking_changes,
            },
        )
    }

    /// What a native handshake record converts to.
    pub open spec fn spec_from_ffi(details: RawProtocolDetails) -> Result<
        ProtocolDetailsView,
        ProtocolDetailsFromFfiErrorView,
    > {
        Self::spec_from_fields(
            spec_version_field(
                match details.sdk_version {
                    Some(b) => Some(b@),
                    None => None,
                },
            ),
            spec_version_field(
                match details.server_version {
                    Some(b) => Some(b@),
                    None => None,
                },
            ),
            details.sdk_protocol_version,
            details.server_protocol_version,
            details.breaking_changes,
        )
    }

    /// Converts a native handshake record: both version fields are decoded
    /// strictly and parsed, then the details are put together as
    /// [`from_fields`](Self::from_fields) says.
    pub fn from_ffi(details: &RawProtocolDetails) -> (res: Result<
        Self,
        ProtocolDetailsFromFfiError,
    >)
        ensures
            match res {
                Ok(d) => Self::spec_from_ffi(*details) == Ok::<
                    ProtocolDetailsView,
                    ProtocolDetailsFromFfiErrorView,
                >(d.deep_view()),
                Err(error) => Self::spec_from_ffi(*details) == Err::<
                    ProtocolDetailsView,
                    ProtocolDetailsFromFfiErrorView,
                >(error.deep_view()),
            },
    {
        let sdk_bytes: Option<&[u8]> = match &details.sdk_version {
            Some(bytes) => Some(bytes.as_slice()),
            None => None,
        };
        let server_bytes: Option<&[u8]> = match &details.server_version {
            Some(bytes) => Some(bytes.as_slice()),
            None => None,
        };
        let sdk_version = read_version_field(sdk_bytes);
        let server_version = read_version_field(server_bytes);
        ProtocolDetails::from_fields(
            sdk_version,
            server_version,
            details.sdk_protocol_version,
            details.server_protocol_version,
            details.breaking_changes,
        )
    }
}

} // verus!
