//! The library's error type: a context message paired with the error that
//! caused it, and the `with_context` adapter that builds one from any error
//! that converts into [`InnerError`].

use vstd::prelude::*;

use crate::decimal::decimal_text;
use ucs2::Error as Ucs2Error;
use uefi::Error as UefiError;

verus! {

/// `uefi::Error`, carried opaquely until its status is read.
#[verifier::external_type_specification]
#[verifier::external_body]
#[verifier::reject_recursive_types(Data)]
pub struct ExUefiError<Data: core::fmt::Debug>(UefiError<Data>);

/// `std::string::FromUtf8Error`, carried opaquely.
#[verifier::external_type_specification]
#[verifier::external_body]
pub struct ExFromUtf8Error(std::string::FromUtf8Error);

/// `ucs2::Error`, carried opaquely.
#[verifier::external_type_specification]
#[verifier::external_body]
pub struct ExUcs2Error(Ucs2Error);

/// `uguid::GuidFromStrError`, carried opaquely.
#[verifier::external_type_specification]
#[verifier::external_body]
pub struct ExGuidFromStrError(uguid::GuidFromStrError);

/// `core::num::ParseIntError`, carried opaquely.
#[verifier::external_type_specification]
#[verifier::external_body]
pub struct ExParseIntError(core::num::ParseIntError);

/// `uefi::data_types::FromSliceWithNulError`, carried opaquely.
#[verifier::external_type_specification]
#[verifier::external_body]
pub struct ExFromSliceWithNulError(uefi::data_types::FromSliceWithNulError);

/// The variants of `ucs2::Error`, as the library reads them.
#[derive(PartialEq, Eq, Structural, Clone, Copy, Debug)]
pub enum Ucs2ErrorKind {
    /// Not enough space left in the output buffer.
    BufferOverflow,
    /// The input held a character that UCS-2 cannot represent.
    MultiByte,
}

/// The variants of `uguid::GuidFromStrError`, as the library reads them.
#[derive(PartialEq, Eq, Structural, Clone, Copy, Debug)]
pub enum GuidErrorKind {
    /// The text is not 36 bytes long.
    Length,
    /// No `-` at this byte index.
    Separator(u8),
    /// No pair of hexadecimal digits at this byte index.
    Hex(u8),
}

/// The variants of `uefi::data_types::FromSliceWithNulError`, as the
/// library reads them.
#[derive(PartialEq, Eq, Structural, Clone, Copy, Debug)]
pub enum NulSliceErrorKind {
    /// An invalid character at this index.
    InvalidChar(usize),
    /// A nul before the end, at this index.
    InteriorNul(usize),
    /// No nul at the end.
    NotNulTerminated,
}

/// The status code of a failed UEFI call. A `uefi::Error` never holds
/// `SUCCESS`, whose code is zero, so neither does this.
#[derive(Clone, Copy, Debug)]
pub struct UefiStatus {
    code: usize,
}

impl UefiStatus {
    #[verifier::type_invariant]
    spec fn is_failure(self) -> bool {
        self.code != 0
    }

    /// The status code.
    pub closed spec fn code_view(self) -> usize {
        self.code
    }

    /// The status with this code; `None` for zero (`SUCCESS`), which is no
    /// failure.
    pub fn new(code: usize) -> (r: Option<UefiStatus>)
        ensures
            r is Some <==> code != 0,
            r matches Some(s) ==> s.code_view() == code,
    {
        if code == 0 {
            None
        } else {
            Some(UefiStatus { code })
        }
    }

    /// The status with this code, as a value of the specification (the
    /// invariant asks a nonzero code only of values the program holds).
    pub closed spec fn with_code(code: usize) -> UefiStatus {
        UefiStatus { code }
    }

    /// The status code, never zero.
    pub fn code(&self) -> (c: usize)
        ensures
            c == self.code_view(),
            c != 0,
    {
        proof {
            use_type_invariant(self);
        }
        self.code
    }
}

/// [`UefiStatus::with_code`] keeps the code it is given.
pub proof fn with_code_keeps_code(code: usize)
    ensures
        UefiStatus::with_code(code).code_view() == code,
{
}

/// The status code that a `uefi::Error` holds (what `Error::status` gives).
pub uninterp spec fn uefi_error_status(e: uefi::Error) -> usize;

/// The status code of a `uefi::Error` (`e.status().0`). Its source builds
/// every value through `Error::new`, which panics on `SUCCESS`, or copies
/// the status of one so built, so the code is never zero.
#[verifier::external_body]
fn uefi_error_code(e: uefi::Error) -> (c: usize)
    ensures
        c == uefi_error_status(e),
        c != 0,
{
    e.status().0
}

/// The underlying cause of an [`Error`].
pub enum InnerError {
    Uefi(UefiStatus),
    FromUtf8(std::string::FromUtf8Error),
    Ucs2(Ucs2ErrorKind),
    GuidFromStr(GuidErrorKind),
    ParseInt(core::num::ParseIntError),
    FromSliceWithNul(NulSliceErrorKind),
}

/// An error together with a message saying what was being attempted.
pub struct Error {
    context: String,
    inner: InnerError,
}

/// The result type of this library.
pub type Result<T> = core::result::Result<T, Error>;

impl Error {
    /// The context message, as characters.
    pub closed spec fn context_view(&self) -> Seq<char> {
        self.context@
    }

    /// The underlying cause.
    pub closed spec fn inner_error(&self) -> InnerError {
        self.inner
    }

    /// Builds an error from its context message and cause.
    pub fn new(context: &str, inner: InnerError) -> (e: Error)
        ensures
            e.context_view() == context@,
            e.inner_error() == inner,
    {
        Error { context: String::from_str(context), inner }
    }

    /// The context message.
    pub fn context(&self) -> (s: &str)
        ensures
            s@ == self.context_view(),
    {
        self.context.as_str()
    }

    /// The underlying cause.
    pub fn inner(&self) -> (i: &InnerError)
        ensures
            *i == self.inner_error(),
    {
        &self.inner
    }
}

impl From<uefi::Error> for InnerError {
    fn from(value: uefi::Error) -> (r: Self) {
        let code = uefi_error_code(value);
        InnerError::Uefi(UefiStatus { code })
    }
}

impl vstd::std_specs::convert::FromSpecImpl<uefi::Error> for InnerError {
    open spec fn obeys_from_spec() -> bool {
        true
    }

    open spec fn from_spec(v: uefi::Error) -> Self {
        InnerError::Uefi(UefiStatus::with_code(uefi_error_status(v)))
    }
}

impl From<UefiStatus> for InnerError {
    fn from(value: UefiStatus) -> (r: Self) {
        InnerError::Uefi(value)
    }
}

impl vstd::std_specs::convert::FromSpecImpl<UefiStatus> for InnerError {
    open spec fn obeys_from_spec() -> bool {
        true
    }

    open spec fn from_spec(v: UefiStatus) -> Self {
        InnerError::Uefi(v)
    }
}

impl From<std::string::FromUtf8Error> for InnerError {
    fn from(value: std::string::FromUtf8Error) -> (r: Self) {
        InnerError::FromUtf8(value)
    }
}

impl vstd::std_specs::convert::FromSpecImpl<std::string::FromUtf8Error> for InnerError {
    open spec fn obeys_from_spec() -> bool {
        true
    }

    open spec fn from_spec(v: std::string::FromUtf8Error) -> Self {
        InnerError::FromUtf8(v)
    }
}

/// The variant of a `ucs2::Error`.
pub uninterp spec fn ucs2_error_variant(e: ucs2::Error) -> Ucs2ErrorKind;

/// Which variant a `ucs2::Error` is, named by [`ucs2_error_variant`].
#[verifier::external_body]
fn ucs2_error_kind(e: ucs2::Error) -> (k: Ucs2ErrorKind)
    ensures
        k == ucs2_error_variant(e),
{
    match e {
        ucs2::Error::BufferOverflow => Ucs2ErrorKind::BufferOverflow,
        ucs2::Error::MultiByte => Ucs2ErrorKind::MultiByte,
    }
}

/// The variant of a `uguid::GuidFromStrError`, with its index.
pub uninterp spec fn guid_error_variant(e: uguid::GuidFromStrError) -> GuidErrorKind;

/// Which variant a `uguid::GuidFromStrError` is, with its index, named by
/// [`guid_error_variant`].
#[verifier::external_body]
fn guid_error_kind(e: uguid::GuidFromStrError) -> (k: GuidErrorKind)
    ensures
        k == guid_error_variant(e),
{
    match e {
        uguid::GuidFromStrError::Length => GuidErrorKind::Length,
        uguid::GuidFromStrError::Separator(i) => GuidErrorKind::Separator(i),
        uguid::GuidFromStrError::Hex(i) => GuidErrorKind::Hex(i),
    }
}

/// The variant of a `FromSliceWithNulError`, with its index.
pub uninterp spec fn nul_slice_error_variant(
    e: uefi::data_types::FromSliceWithNulError,
) -> NulSliceErrorKind;

/// Which variant a `FromSliceWithNulError` is, with its index, named by
/// [`nul_slice_error_variant`].
#[verifier::external_body]
fn nul_slice_error_kind(e: uefi::data_types::FromSliceWithNulError) -> (k: NulSliceErrorKind)
    ensures
        k == nul_slice_error_variant(e),
{
    match e {
        uefi::data_types::FromSliceWithNulError::InvalidChar(i) => NulSliceErrorKind::InvalidChar(i),
        uefi::data_types::FromSliceWithNulError::InteriorNul(i) => NulSliceErrorKind::InteriorNul(i),
        uefi::data_types::FromSliceWithNulError::NotNulTerminated => {
            NulSliceErrorKind::NotNulTerminated
        },
    }
}

impl From<ucs2::Error> for InnerError {
    fn from(value: ucs2::Error) -> (r: Self) {
        InnerError::Ucs2(ucs2_error_kind(value))
    }
}

impl vstd::std_specs::convert::FromSpecImpl<ucs2::Error> for InnerError {
    open spec fn obeys_from_spec() -> bool {
        true
    }

    open spec fn from_spec(v: ucs2::Error) -> Self {
        InnerError::Ucs2(ucs2_error_variant(v))
    }
}

impl From<Ucs2ErrorKind> for InnerError {
    fn from(value: Ucs2ErrorKind) -> (r: Self) {
        InnerError::Ucs2(value)
    }
}

impl vstd::std_specs::convert::FromSpecImpl<Ucs2ErrorKind> for InnerError {
    open spec fn obeys_from_spec() -> bool {
        true
    }

    open spec fn from_spec(v: Ucs2ErrorKind) -> Self {
        InnerError::Ucs2(v)
    }
}

impl From<uguid::GuidFromStrError> for InnerError {
    fn from(value: uguid::GuidFromStrError) -> (r: Self) {
        InnerError::GuidFromStr(guid_error_kind(value))
    }
}

impl vstd::std_specs::convert::FromSpecImpl<uguid::GuidFromStrError> for InnerError {
    open spec fn obeys_from_spec() -> bool {
        true
    }

    open spec fn from_spec(v: uguid::GuidFromStrError) -> Self {
        InnerError::GuidFromStr(guid_error_variant(v))
    }
}

impl From<GuidErrorKind> for InnerError {
    fn from(value: GuidErrorKind) -> (r: Self) {
        InnerError::GuidFromStr(value)
    }
}

impl vstd::std_specs::convert::FromSpecImpl<GuidErrorKind> for InnerError {
    open spec fn obeys_from_spec() -> bool {
        true
    }

    open spec fn from_spec(v: GuidErrorKind) -> Self {
        InnerError::GuidFromStr(v)
    }
}

impl From<core::num::ParseIntError> for InnerError {
    fn from(value: core::num::ParseIntError) -> (r: Self) {
        InnerError::ParseInt(value)
    }
}

impl vstd::std_specs::convert::FromSpecImpl<core::num::ParseIntError> for InnerError {
    open spec fn obeys_from_spec() -> bool {
        true
    }

    open spec fn from_spec(v: core::num::ParseIntError) -> Self {
        InnerError::ParseInt(v)
    }
}

impl From<uefi::data_types::FromSliceWithNulError> for InnerError {
    fn from(value: uefi::data_types::FromSliceWithNulError) -> (r: Self) {
        InnerError::FromSliceWithNul(nul_slice_error_kind(value))
    }
}

impl vstd::std_specs::convert::FromSpecImpl<uefi::data_types::FromSliceWithNulError> for InnerError {
    open spec fn obeys_from_spec() -> bool {
        true
    }

    open spec fn from_spec(v: uefi::data_types::FromSliceWithNulError) -> Self {
        InnerError::FromSliceWithNul(nul_slice_error_variant(v))
    }
}

impl From<NulSliceErrorKind> for InnerError {
    fn from(value: NulSliceErrorKind) -> (r: Self) {
        InnerError::FromSliceWithNul(value)
    }
}

impl vstd::std_specs::convert::FromSpecImpl<NulSliceErrorKind> for InnerError {
    open spec fn obeys_from_spec() -> bool {
        true
    }

    open spec fn from_spec(v: NulSliceErrorKind) -> Self {
        InnerError::FromSliceWithNul(v)
    }
}

/// Attaches a context message to the error of a fallible result.
pub trait WithContext {
    type ReturnType;

    fn with_context(self, ctx: &str) -> Result<Self::ReturnType>;
}

impl<T, E> WithContext for core::result::Result<T, E> where E: Into<InnerError> {
    type ReturnType = T;

    /// `Ok` passes through unchanged; `Err(e)` becomes an [`Error`] whose
    /// context is `ctx` and whose cause is `e` converted into [`InnerError`].
    fn with_context(self, ctx: &str) -> (r: Result<T>)
        ensures
            match self {
                Ok(v) => r matches Ok(w) && w == v,
                Err(e) => r matches Err(err) && err.context_view() == ctx@ && (
                <E as vstd::std_specs::convert::IntoSpec<InnerError>>::obeys_into_spec()
                    ==> err.inner_error() == <E as vstd::std_specs::convert::IntoSpec<InnerError>>::into_spec(e)),
            },
    {
        match self {
            Ok(ok) => Ok(ok),
            Err(err) => Err(Error::new(ctx, err.into())),
        }
    }
}

/// The text that `Display` of `uefi::Status` writes for a code: the
/// status's name, or "Status(<code>)" for a code that has none.
pub uninterp spec fn uefi_status_text(code: usize) -> Seq<char>;

/// The `Display` text of the `uefi::Error` with status `code` and no data.
/// Its source writes "UEFI Error {status}: {data:?}", the data being `()`;
/// the status's own text is named by [`uefi_status_text`].
#[verifier::external_body]
fn uefi_error_text(code: usize) -> (s: String)
    requires
        code != 0,
    ensures
        s@ == "UEFI Error "@ + uefi_status_text(code) + ": ()"@,
{
    format!("{}", uefi::Error::from(uefi::Status(code)))
}

/// The text that `Display` of a `FromUtf8Error` writes (std documents no
/// particular text).
pub uninterp spec fn from_utf8_error_message(e: std::string::FromUtf8Error) -> Seq<char>;

/// The `Display` text of a `FromUtf8Error`, named by
/// [`from_utf8_error_message`].
#[verifier::external_body]
fn from_utf8_error_text(e: &std::string::FromUtf8Error) -> (s: String)
    ensures
        s@ == from_utf8_error_message(*e),
{
    format!("{}", e)
}

/// The message that the derived `Debug` of `ucs2::Error` writes: the
/// variant's name.
pub open spec fn ucs2_error_message(k: Ucs2ErrorKind) -> Seq<char> {
    match k {
        Ucs2ErrorKind::BufferOverflow => "BufferOverflow"@,
        Ucs2ErrorKind::MultiByte => "MultiByte"@,
    }
}

/// The `Debug` text of the `ucs2::Error` variant `k`.
#[verifier::external_body]
fn ucs2_error_text(k: Ucs2ErrorKind) -> (s: String)
    ensures
        s@ == ucs2_error_message(k),
{
    let e = match k {
        Ucs2ErrorKind::BufferOverflow => ucs2::Error::BufferOverflow,
        Ucs2ErrorKind::MultiByte => ucs2::Error::MultiByte,
    };
    format!("{:?}", e)
}

/// The message that the `Display` of `uguid::GuidFromStrError` writes.
pub open spec fn guid_error_message(k: GuidErrorKind) -> Seq<char> {
    match k {
        GuidErrorKind::Length => "GUID string has wrong length (expected 36 bytes)"@,
        GuidErrorKind::Separator(i) => "GUID string is missing a separator (`-`) at index "@
            + decimal_text(i as nat),
        GuidErrorKind::Hex(i) => "GUID string contains invalid ASCII hex at index "@
            + decimal_text(i as nat),
    }
}

/// The `Display` text of the `uguid::GuidFromStrError` variant `k`.
#[verifier::external_body]
fn guid_error_text(k: GuidErrorKind) -> (s: String)
    ensures
        s@ == guid_error_message(k),
{
    let e = match k {
        GuidErrorKind::Length => uguid::GuidFromStrError::Length,
        GuidErrorKind::Separator(i) => uguid::GuidFromStrError::Separator(i),
        GuidErrorKind::Hex(i) => uguid::GuidFromStrError::Hex(i),
    };
    format!("{}", e)
}

/// The text that `Display` of a `ParseIntError` writes (std documents no
/// particular text).
pub uninterp spec fn parse_int_error_message(e: core::num::ParseIntError) -> Seq<char>;

/// The `Display` text of a `ParseIntError`, named by
/// [`parse_int_error_message`].
#[verifier::external_body]
fn parse_int_error_text(e: &core::num::ParseIntError) -> (s: String)
    ensures
        s@ == parse_int_error_message(*e),
{
    format!("{}", e)
}

/// The message that the derived `Debug` of `FromSliceWithNulError` writes.
pub open spec fn nul_slice_error_message(k: NulSliceErrorKind) -> Seq<char> {
    match k {
        NulSliceErrorKind::InvalidChar(i) => "InvalidChar("@ + decimal_text(i as nat) + ")"@,
        NulSliceErrorKind::InteriorNul(i) => "InteriorNul("@ + decimal_text(i as nat) + ")"@,
        NulSliceErrorKind::NotNulTerminated => "NotNulTerminated"@,
    }
}

/// The `Debug` text of the `FromSliceWithNulError` variant `k` (the
/// version of `uefi` in use gives that type no `Display`).
#[verifier::external_body]
fn nul_slice_error_text(k: NulSliceErrorKind) -> (s: String)
    ensures
        s@ == nul_slice_error_message(k),
{
    let e = match k {
        NulSliceErrorKind::InvalidChar(i) => uefi::data_types::FromSliceWithNulError::InvalidChar(i),
        NulSliceErrorKind::InteriorNul(i) => uefi::data_types::FromSliceWithNulError::InteriorNul(i),
        NulSliceErrorKind::NotNulTerminated => {
            uefi::data_types::FromSliceWithNulError::NotNulTerminated
        },
    };
    format!("{:?}", e)
}

/// The message of a cause: each underlying error's own text.
pub open spec fn cause_message(inner: InnerError) -> Seq<char> {
    match inner {
        InnerError::Uefi(s) => "UEFI Error "@ + uefi_status_text(s.code_view()) + ": ()"@,
        InnerError::FromUtf8(e) => from_utf8_error_message(e),
        InnerError::Ucs2(k) => ucs2_error_message(k),
        InnerError::GuidFromStr(k) => guid_error_message(k),
        InnerError::ParseInt(e) => parse_int_error_message(e),
        InnerError::FromSliceWithNul(k) => nul_slice_error_message(k),
    }
}

impl InnerError {
    /// The message of the underlying error, as its own formatting gives it:
    /// `Display` for the `uefi`, UTF-8, GUID and integer errors, `Debug` for
    /// the UCS-2 and nul-terminated-slice errors.
    pub fn to_string(&self) -> (s: String)
        ensures
            s@ == cause_message(*self),
    {
        match self {
            InnerError::Uefi(s) => uefi_error_text(s.code()),
            InnerError::FromUtf8(e) => from_utf8_error_text(e),
            InnerError::Ucs2(k) => ucs2_error_text(*k),
            InnerError::GuidFromStr(k) => guid_error_text(*k),
            InnerError::ParseInt(e) => parse_int_error_text(e),
            InnerError::FromSliceWithNul(k) => nul_slice_error_text(*k),
        }
    }
}

impl Error {
    /// The start of the message: "Context: <context>, Error: ".
    pub open spec fn message_prefix(&self) -> Seq<char> {
        "Context: "@ + self.context_view() + ", Error: "@
    }

    /// "Context: <context>, Error: <cause>", where the cause is the
    /// underlying error's own message ([`InnerError::to_string`]).
    pub fn to_string(&self) -> (s: String)
        ensures
            s@ == self.message_prefix() + cause_message(self.inner_error()),
    {
        let mut s = String::from_str("Context: ");
        s.append(self.context.as_str());
        s.append(", Error: ");
        let cause = self.inner.to_string();
        s.append(cause.as_str());
        assert(s@ =~= self.message_prefix() + cause@);
        s
    }
}

} // verus!
