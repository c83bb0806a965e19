//! Errors produced while parsing or applying media-player arguments.

use vstd::prelude::*;
use crate::text::concat;

verus! {

/// Errors produced while parsing or applying media-player arguments.
///
/// Operating-system values (an undecodable argument, an I/O failure) are
/// carried as the text that describes them.
#[derive(Debug, Clone, PartialEq, Eq)]
pub enum CoreError {
    /// An option was supplied without its required value.
    MissingValue {
        /// The option that was missing a value.
        option: String,
    },
    /// An option value could not be parsed.
    InvalidValue {
        /// The option being parsed.
        option: String,
        /// The value supplied by the caller.
        value: String,
        /// A human-readable explanation.
        reason: String,
    },
    /// An argument could not be represented as UTF-8 text.
    NonUnicodeArgument {
        /// The debug rendering of the operating-system argument.
        argument: String,
    },
    /// A media path was empty.
    EmptyPath,
    /// A media backend operation failed.
    Backend {
        /// Backend-specific diagnostic text.
        message: String,
    },
    /// The media backend could not be started.
    BackendStart {
        /// The executable that could not be started.
        program: String,
        /// The operating-system error, rendered.
        source: String,
    },
    /// A media backend exited unsuccessfully.
    BackendExit {
        /// The process exit status.
        status: String,
    },
    /// A configuration file could not be read.
    ReadConfig {
        /// The configuration path.
        path: String,
        /// The operating-system error, rendered.
        source: String,
    },
}

/// The view of a [`CoreError`], with every text as `Seq<char>`.
pub enum CoreErrorView {
    MissingValue { option: Seq<char> },
    InvalidValue { option: Seq<char>, value: Seq<char>, reason: Seq<char> },
    NonUnicodeArgument { argument: Seq<char> },
    EmptyPath,
    Backend { message: Seq<char> },
    BackendStart { program: Seq<char>, source: Seq<char> },
    BackendExit { status: Seq<char> },
    ReadConfig { path: Seq<char>, source: Seq<char> },
}

impl View for CoreError {
    type V = CoreErrorView;

    open spec fn view(&self) -> CoreErrorView {
        match self {
            CoreError::MissingValue { option } => CoreErrorView::MissingValue { option: option@ },
            CoreError::InvalidValue { option, value, reason } => CoreErrorView::InvalidValue {
                option: option@,
                value: value@,
                reason: reason@,
            },
            CoreError::NonUnicodeArgument { argument } => CoreErrorView::NonUnicodeArgument {
                argument: argument@,
            },
            CoreError::EmptyPath => CoreErrorView::EmptyPath,
            CoreError::Backend { message } => CoreErrorView::Backend { message: message@ },
            CoreError::BackendStart { program, source } => CoreErrorView::BackendStart {
                program: program@,
                source: source@,
            },
            CoreError::BackendExit { status } => CoreErrorView::BackendExit { status: status@ },
            CoreError::ReadConfig { path, source } => CoreErrorView::ReadConfig {
                path: path@,
                source: source@,
            },
        }
    }
}

/// An `InvalidValue` error for `option`, `value` and `reason`.
pub open spec fn invalid(option: Seq<char>, value: Seq<char>, reason: Seq<char>) -> CoreErrorView {
    CoreErrorView::InvalidValue { option, value, reason }
}

/// The text an error displays.
pub open spec fn message_spec(error: CoreErrorView) -> Seq<char> {
    match error {
        CoreErrorView::MissingValue { option } => "option `"@ + option + "` requires a value"@,
        CoreErrorView::InvalidValue { option, value, reason } => "invalid value `"@ + value
            + "` for `"@ + option + "`: "@ + reason,
        CoreErrorView::NonUnicodeArgument { argument } => "argument is not valid UTF-8: "@
            + argument,
        CoreErrorView::EmptyPath => "media path must not be empty"@,
        CoreErrorView::Backend { message } => "media backend operation failed: "@ + message,
        CoreErrorView::BackendStart { program, source } => "could not start media backend `"@
            + program + "`: "@ + source,
        CoreErrorView::BackendExit { status } => "media backend exited with status "@ + status,
        CoreErrorView::ReadConfig { path, source } => "could not read configuration file "@
            + path + ": "@ + source,
    }
}

impl CoreError {
    /// An `InvalidValue` error.
    pub fn invalid_value(option: &str, value: &str, reason: &str) -> (r: CoreError)
        ensures
            r@ == invalid(option@, value@, reason@),
    {
        CoreError::InvalidValue {
            option: option.to_owned(),
            value: value.to_owned(),
            reason: reason.to_owned(),
        }
    }

    /// The error for a value that is not a floating-point number.
    pub fn invalid_number(option: &str, value: &str) -> (r: CoreError)
        ensures
            r@ == invalid(option@, value@, "expected a floating-point number"@),
    {
        CoreError::invalid_value(option, value, "expected a floating-point number")
    }

    /// The text this error displays (its `Display` rendering).
    pub fn message(&self) -> (r: String)
        ensures
            r@ == message_spec(self@),
    {
        match self {
            CoreError::MissingValue { option } => {
                let a = concat("option `", option.as_str());
                concat(a.as_str(), "` requires a value")
            },
            CoreError::InvalidValue { option, value, reason } => {
                let a = concat("invalid value `", value.as_str());
                let b = concat(a.as_str(), "` for `");
                let c = concat(b.as_str(), option.as_str());
                let d = concat(c.as_str(), "`: ");
                concat(d.as_str(), reason.as_str())
            },
            CoreError::NonUnicodeArgument { argument } => {
                concat("argument is not valid UTF-8: ", argument.as_str())
            },
            CoreError::EmptyPath => "media path must not be empty".to_owned(),
            CoreError::Backend { message } => {
                concat("media backend operation failed: ", message.as_str())
            },
            CoreError::BackendStart { program, source } => {
                let a = concat("could not start media backend `", program.as_str());
                let b = concat(a.as_str(), "`: ");
                concat(b.as_str(), source.as_str())
            },
            CoreError::BackendExit { status } => {
                concat("media backend exited with status ", status.as_str())
            },
            CoreError::ReadConfig { path, source } => {
                let a = concat("could not read configuration file ", path.as_str());
                let b = concat(a.as_str(), ": ");
                concat(b.as_str(), source.as_str())
            },
        }
    }
}

} // verus!
