use vstd::prelude::*;
use vstd::string::StringExecFns;

verus! {

/// The kinds of failure that every operation reports.
#[derive(Debug, Clone, Copy, PartialEq, Eq, Structural)]
pub enum ErrorKind {
    Validation,
    Authentication,
    Authorization,
    NotFound,
    Conflict,
    Internal,
}

impl ErrorKind {
    /// The transport status a boundary layer answers with.
    pub open spec fn status(self) -> u16 {
        match self {
            ErrorKind::Validation => 400,
            ErrorKind::Authentication => 401,
            ErrorKind::Authorization => 403,
            ErrorKind::NotFound => 404,
            ErrorKind::Conflict => 409,
            ErrorKind::Internal => 500,
        }
    }

    /// The machine-readable code sent beside the message.
    pub open spec fn code(self) -> Seq<char> {
        match self {
            ErrorKind::Validation => "validation_error"@,
            ErrorKind::Authentication => "authentication_error"@,
            ErrorKind::Authorization => "authorization_error"@,
            ErrorKind::NotFound => "not_found"@,
            ErrorKind::Conflict => "conflict"@,
            ErrorKind::Internal => "internal_error"@,
        }
    }

    /// The words put in front of the detail in a full message.
    pub open spec fn prefix(self) -> Seq<char> {
        match self {
            ErrorKind::Validation => "Validation error: "@,
            ErrorKind::Authentication => "Authentication error: "@,
            ErrorKind::Authorization => "Authorization error: "@,
            ErrorKind::NotFound => "Not found: "@,
            ErrorKind::Conflict => "Conflict: "@,
            ErrorKind::Internal => "Internal error: "@,
        }
    }
}

/// A failure of an operation, with its kind and a detail message.
#[derive(Debug)]
pub enum AppError {
    Validation(String),
    Authentication(String),
    Authorization(String),
    NotFound(String),
    Conflict(String),
    Internal(String),
}

/// The message shown in place of the detail of an internal failure.
pub open spec fn hidden_message() -> Seq<char> {
    "Internal server error"@
}

impl AppError {
    pub open spec fn kind_of(&self) -> ErrorKind {
        match self {
            AppError::Validation(_) => ErrorKind::Validation,
            AppError::Authentication(_) => ErrorKind::Authentication,
            AppError::Authorization(_) => ErrorKind::Authorization,
            AppError::NotFound(_) => ErrorKind::NotFound,
            AppError::Conflict(_) => ErrorKind::Conflict,
            AppError::Internal(_) => ErrorKind::Internal,
        }
    }

    pub open spec fn detail(&self) -> Seq<char> {
        match self {
            AppError::Validation(m) => m@,
            AppError::Authentication(m) => m@,
            AppError::Authorization(m) => m@,
            AppError::NotFound(m) => m@,
            AppError::Conflict(m) => m@,
            AppError::Internal(m) => m@,
        }
    }

    /// Whether this is an error of kind `k` with detail `m`.
    pub open spec fn is_error(&self, k: ErrorKind, m: Seq<char>) -> bool {
        self.kind_of() == k && self.detail() == m
    }

    pub fn kind(&self) -> (r: ErrorKind)
        ensures
            r == self.kind_of(),
    {
        match self {
            AppError::Validation(_) => ErrorKind::Validation,
            AppError::Authentication(_) => ErrorKind::Authentication,
            AppError::Authorization(_) => ErrorKind::Authorization,
            AppError::NotFound(_) => ErrorKind::NotFound,
            AppError::Conflict(_) => ErrorKind::Conflict,
            AppError::Internal(_) => ErrorKind::Internal,
        }
    }

    pub fn detail_str(&self) -> (r: &str)
        ensures
            r@ == self.detail(),
    {
        match self {
            AppError::Validation(m) => m.as_str(),
            AppError::Authentication(m) => m.as_str(),
            AppError::Authorization(m) => m.as_str(),
            AppError::NotFound(m) => m.as_str(),
            AppError::Conflict(m) => m.as_str(),
            AppError::Internal(m) => m.as_str(),
        }
    }

    pub fn status_code(&self) -> (r: u16)
        ensures
            r == self.kind_of().status(),
    {
        match self {
            AppError::Validation(_) => 400,
            AppError::Authentication(_) => 401,
            AppError::Authorization(_) => 403,
            AppError::NotFound(_) => 404,
            AppError::Conflict(_) => 409,
            AppError::Internal(_) => 500,
        }
    }

    pub fn error_code(&self) -> (r: &'static str)
        ensures
            r@ == self.kind_of().code(),
    {
        match self {
            AppError::Validation(_) => "validation_error",
            AppError::Authentication(_) => "authentication_error",
            AppError::Authorization(_) => "authorization_error",
            AppError::NotFound(_) => "not_found",
            AppError::Conflict(_) => "conflict",
            AppError::Internal(_) => "internal_error",
        }
    }

    fn prefix_str(&self) -> (r: &'static str)
        ensures
            r@ == self.kind_of().prefix(),
    {
        match self {
            AppError::Validation(_) => "Validation error: ",
            AppError::Authentication(_) => "Authentication error: ",
            AppError::Authorization(_) => "Authorization error: ",
            AppError::NotFound(_) => "Not found: ",
            AppError::Conflict(_) => "Conflict: ",
            AppError::Internal(_) => "Internal error: ",
        }
    }

    /// The full message: the kind's words followed by the detail.
    pub fn to_message(&self) -> (r: String)
        ensures
            r@ == self.kind_of().prefix() + self.detail(),
    {
        let head = String::from_str(self.prefix_str());
        head.concat(self.detail_str())
    }

    /// The message a caller may see: internal failures are not disclosed.
    pub fn public_message(&self) -> (r: String)
        ensures
            self.kind_of() == ErrorKind::Internal ==> r@ == hidden_message(),
            self.kind_of() != ErrorKind::Internal ==> r@ == self.kind_of().prefix()
                + self.detail(),
    {
        match self {
            AppError::Internal(_) => String::from_str("Internal server error"),
            _ => self.to_message(),
        }
    }
}

impl From<String> for AppError {
    fn from(err: String) -> (r: AppError) {
        AppError::Internal(err)
    }
}

impl vstd::std_specs::convert::FromSpecImpl<String> for AppError {
    open spec fn obeys_from_spec() -> bool {
        true
    }

    open spec fn from_spec(err: String) -> AppError {
        AppError::Internal(err)
    }
}

} // verus!
