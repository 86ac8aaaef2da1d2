use vstd::prelude::*;

verus! {

/// std's I/O error, carried as the cause of an I/O failure.
#[verifier::external_type_specification]
#[verifier::external_body]
pub struct ExIoError(std::io::Error);

/// Why an environment variable could not be read.
#[derive(Debug, Clone, PartialEq, Eq)]
pub enum VarError {
    /// The variable is not set.
    NotPresent,
    /// The variable is set but does not hold valid unicode; the value is given
    /// with the invalid sequences replaced.
    NotUnicode(String),
}

/// The kinds of failure of the filesystem layer. The I/O and environment kinds
/// keep the original error as their cause.
#[derive(Debug)]
pub enum FSErrorKind {
    GameDirectoryError(String),
    CreationError(String),
    IOError(String, std::io::Error),
    EnvironmentError(String, VarError),
    MiscellaneousError(String),
    ExtensionError(String),
}

pub type FileSystemResult<T> = Result<T, FileSystemError>;

/// The description given to every error that wraps an I/O failure.
pub open spec fn io_description() -> Seq<char> {
    "Error while doing I/O operations"@
}

/// The description given to every error that wraps an environment failure.
pub open spec fn environment_description() -> Seq<char> {
    "Error while dealing with environment variable"@
}

impl FSErrorKind {
    /// The human-readable detail that the error carries.
    pub open spec fn detail(&self) -> Seq<char> {
        match self {
            FSErrorKind::GameDirectoryError(d) => d@,
            FSErrorKind::CreationError(d) => d@,
            FSErrorKind::IOError(d, _) => d@,
            FSErrorKind::EnvironmentError(d, _) => d@,
            FSErrorKind::MiscellaneousError(d) => d@,
            FSErrorKind::ExtensionError(d) => d@,
        }
    }

    /// The name of the kind.
    pub open spec fn kind_name(&self) -> Seq<char> {
        match self {
            FSErrorKind::GameDirectoryError(_) => "GameDirectoryError"@,
            FSErrorKind::CreationError(_) => "CreationError"@,
            FSErrorKind::IOError(_, _) => "IOError"@,
            FSErrorKind::EnvironmentError(_, _) => "EnvironmentError"@,
            FSErrorKind::MiscellaneousError(_) => "MiscellaneousError"@,
            FSErrorKind::ExtensionError(_) => "ExtensionError"@,
        }
    }

    /// What the message of the kind starts with.
    pub open spec fn message_prefix(&self) -> Seq<char> {
        match self {
            FSErrorKind::GameDirectoryError(_) => "Game directory error: "@,
            FSErrorKind::CreationError(_) => "Creation error: "@,
            FSErrorKind::IOError(_, _) => "I/O error: "@,
            FSErrorKind::EnvironmentError(_, _) => "Environment variable error: "@,
            FSErrorKind::MiscellaneousError(_) => "Miscellaneous Error: "@,
            FSErrorKind::ExtensionError(_) => "Extension error: "@,
        }
    }

    /// The kind wraps the I/O error `e`, with the common I/O description.
    pub open spec fn wraps_io(&self, e: std::io::Error) -> bool {
        &&& self is IOError
        &&& self.detail() == io_description()
        &&& self->IOError_1 == e
    }

    /// The kind wraps the environment error `e`, with the common environment
    /// description.
    pub open spec fn wraps_var(&self, e: VarError) -> bool {
        &&& self is EnvironmentError
        &&& self.detail() == environment_description()
        &&& self->EnvironmentError_1 == e
    }

    /// The full message: the kind's prefix followed by the detail.
    pub open spec fn spec_message(&self) -> Seq<char> {
        self.message_prefix() + self.detail()
    }

    /// The kind that wraps the I/O error `e`.
    pub fn io(e: std::io::Error) -> (r: FSErrorKind)
        ensures
            r.wraps_io(e),
    {
        FSErrorKind::IOError(String::from_str("Error while doing I/O operations"), e)
    }

    /// The kind that wraps the environment error `e`.
    pub fn environment(e: VarError) -> (r: FSErrorKind)
        ensures
            r.wraps_var(e),
    {
        FSErrorKind::EnvironmentError(String::from_str("Error while dealing with environment variable"), e)
    }

    /// The name of the kind, such as "IOError".
    pub fn description(&self) -> (r: &'static str)
        ensures
            r@ == self.kind_name(),
    {
        match self {
            FSErrorKind::GameDirectoryError(_) => "GameDirectoryError",
            FSErrorKind::CreationError(_) => "CreationError",
            FSErrorKind::IOError(_, _) => "IOError",
            FSErrorKind::EnvironmentError(_, _) => "EnvironmentError",
            FSErrorKind::MiscellaneousError(_) => "MiscellaneousError",
            FSErrorKind::ExtensionError(_) => "ExtensionError",
        }
    }

    /// The message that describes the error, such as "I/O error: ...".
    pub fn to_string(&self) -> (r: String)
        ensures
            r@ == self.spec_message(),
    {
        let (prefix, detail) = match self {
            FSErrorKind::GameDirectoryError(d) => ("Game directory error: ", d),
            FSErrorKind::CreationError(d) => ("Creation error: ", d),
            FSErrorKind::IOError(d, _) => ("I/O error: ", d),
            FSErrorKind::EnvironmentError(d, _) => ("Environment variable error: ", d),
            FSErrorKind::MiscellaneousError(d) => ("Miscellaneous Error: ", d),
            FSErrorKind::ExtensionError(d) => ("Extension error: ", d),
        };
        let mut message = String::from_str(prefix);
        message.append(detail.as_str());
        message
    }
}

/// The error of every fallible operation of the filesystem layer.
#[derive(Debug)]
pub struct FileSystemError {
    cause: FSErrorKind,
}

impl View for FileSystemError {
    type V = FSErrorKind;

    closed spec fn view(&self) -> FSErrorKind {
        self.cause
    }
}

/// What the message of every `FileSystemError` starts with.
pub open spec fn error_prefix() -> Seq<char> {
    "Error while dealing with the file system: "@
}

impl FileSystemError {
    pub fn new(cause: FSErrorKind) -> (r: FileSystemError)
        ensures
            r@ == cause,
    {
        FileSystemError { cause }
    }

    /// The error that wraps the I/O error `e`.
    pub fn from_io_error(e: std::io::Error) -> (r: FileSystemError)
        ensures
            r@.wraps_io(e),
    {
        FileSystemError::new(FSErrorKind::io(e))
    }

    /// The error that wraps the environment error `e`.
    pub fn from_var_error(e: VarError) -> (r: FileSystemError)
        ensures
            r@.wraps_var(e),
    {
        FileSystemError::new(FSErrorKind::environment(e))
    }

    /// The kind of the error, with its cause.
    pub fn kind(&self) -> (r: &FSErrorKind)
        ensures
            *r == self@,
    {
        &self.cause
    }

    pub fn description(&self) -> (r: &'static str)
        ensures
            r@ == "FileSystemError"@,
    {
        "FileSystemError"
    }

    /// The message that describes the error, its kind's message after a
    /// common prefix.
    pub fn to_string(&self) -> (r: String)
        ensures
            r@ == error_prefix() + self@.spec_message(),
    {
        let mut message = String::from_str("Error while dealing with the file system: ");
        let inner = self.cause.to_string();
        message.append(inner.as_str());
        message
    }
}

} // verus!
