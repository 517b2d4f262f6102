use crate::gate::text::{debug_quoted, join2, quoted};
use vstd::prelude::*;
use vstd::string::*;

verus! {

/// Everything that can abort a command.
#[derive(Debug)]
pub enum CoralGateError {
    /// An environment variable that was needed is not set.
    MissingEnvironment(String),
    /// An operation, named in the payload, did not finish within its bounds.
    TimeoutError(String),
    /// A failure that has no better name.
    UnknownTempError,
    /// Reading or writing a file failed; the payload is the cause.
    IOError(String),
    /// A resource, named by its kind, has no name.
    MissingName(String),
    /// A namespaced resource, named by its kind, has no namespace.
    MissingNamespace(String),
    /// The cluster rejected a request; the payload is its answer.
    KubeApiError(String),
    /// A program that was to be run is not where it was looked for.
    BinaryNotFound { target: String, path: String },
    /// A program that was run could not be read from; the payload is the cause.
    CommandOutputError(String),
    /// A program that was run wrote what is no text; the payload is the cause.
    CommandOutputUtf8Error(String),
    /// The connection holds no trust anchor.
    ClientManagerRootCaMissing,
    /// The connection was asked for before it was resolved.
    ClientManagerConfigNotInitialized,
    /// Making a key or signing a request failed; the payload is the cause.
    CryptoError(String),
    /// An answer of the cluster lacks the field named in the payload.
    MissingField(String),
}

/// An error as contracts see it: the same cases, with texts for strings.
pub enum ErrorView {
    MissingEnvironment(Seq<char>),
    TimeoutError(Seq<char>),
    UnknownTempError,
    IOError(Seq<char>),
    MissingName(Seq<char>),
    MissingNamespace(Seq<char>),
    KubeApiError(Seq<char>),
    BinaryNotFound { target: Seq<char>, path: Seq<char> },
    CommandOutputError(Seq<char>),
    CommandOutputUtf8Error(Seq<char>),
    ClientManagerRootCaMissing,
    ClientManagerConfigNotInitialized,
    CryptoError(Seq<char>),
    MissingField(Seq<char>),
}

impl View for CoralGateError {
    type V = ErrorView;

    open spec fn view(&self) -> ErrorView {
        match *self {
            CoralGateError::MissingEnvironment(s) => ErrorView::MissingEnvironment(s@),
            CoralGateError::TimeoutError(s) => ErrorView::TimeoutError(s@),
            CoralGateError::UnknownTempError => ErrorView::UnknownTempError,
            CoralGateError::IOError(s) => ErrorView::IOError(s@),
            CoralGateError::MissingName(s) => ErrorView::MissingName(s@),
            CoralGateError::MissingNamespace(s) => ErrorView::MissingNamespace(s@),
            CoralGateError::KubeApiError(s) => ErrorView::KubeApiError(s@),
            CoralGateError::BinaryNotFound { target, path } => ErrorView::BinaryNotFound {
                target: target@,
                path: path@,
            },
            CoralGateError::CommandOutputError(s) => ErrorView::CommandOutputError(s@),
            CoralGateError::CommandOutputUtf8Error(s) => ErrorView::CommandOutputUtf8Error(s@),
            CoralGateError::ClientManagerRootCaMissing => ErrorView::ClientManagerRootCaMissing,
            CoralGateError::ClientManagerConfigNotInitialized =>
                ErrorView::ClientManagerConfigNotInitialized,
            CoralGateError::CryptoError(s) => ErrorView::CryptoError(s@),
            CoralGateError::MissingField(s) => ErrorView::MissingField(s@),
        }
    }
}

/// What an error tells the operator.
pub open spec fn message_text(error: ErrorView) -> Seq<char> {
    match error {
        ErrorView::MissingEnvironment(name) => "The environment variable "@ + name + " is not set"@,
        ErrorView::TimeoutError(operation) => "Timeout Error: "@ + operation,
        ErrorView::UnknownTempError => "Unknown Temp Error"@,
        ErrorView::IOError(cause) => cause,
        ErrorView::MissingName(kind) => "The resource name is missing for "@ + kind,
        ErrorView::MissingNamespace(kind) => "The reosource namespace is missing for "@ + kind,
        ErrorView::KubeApiError(answer) => "Kube Api Error "@ + answer,
        ErrorView::BinaryNotFound { target, path } => "Binary for target "@ + quoted(target)
            + " not found, path: "@ + quoted(path),
        ErrorView::CommandOutputError(cause) => "Error in command output "@ + cause,
        ErrorView::CommandOutputUtf8Error(cause) => "Error output to utf8 "@ + cause,
        ErrorView::ClientManagerRootCaMissing => "The connection names no root certificate"@,
        ErrorView::ClientManagerConfigNotInitialized => "The connection is not resolved yet"@,
        ErrorView::CryptoError(cause) => "Crypto Error: "@ + cause,
        ErrorView::MissingField(field) => "The field "@ + field + " is missing in the answer"@,
    }
}

impl CoralGateError {
    /// What the error tells the operator.
    pub fn message(&self) -> (text: String)
        ensures
            text@ == message_text(self@),
    {
        match self {
            CoralGateError::MissingEnvironment(name) => {
                let mut text = join2("The environment variable ", name.as_str());
                text.append(" is not set");
                text
            },
            CoralGateError::TimeoutError(operation) => join2("Timeout Error: ", operation.as_str()),
            CoralGateError::UnknownTempError => String::from_str("Unknown Temp Error"),
            CoralGateError::IOError(cause) => cause.clone(),
            CoralGateError::MissingName(kind) => join2(
                "The resource name is missing for ",
                kind.as_str(),
            ),
            CoralGateError::MissingNamespace(kind) => join2(
                "The reosource namespace is missing for ",
                kind.as_str(),
            ),
            CoralGateError::KubeApiError(answer) => join2("Kube Api Error ", answer.as_str()),
            CoralGateError::BinaryNotFound { target, path } => {
                let mut text = join2("Binary for target ", debug_quoted(target.as_str()).as_str());
                text.append(" not found, path: ");
                text.append(debug_quoted(path.as_str()).as_str());
                text
            },
            CoralGateError::CommandOutputError(cause) => join2(
                "Error in command output ",
                cause.as_str(),
            ),
            CoralGateError::CommandOutputUtf8Error(cause) => join2(
                "Error output to utf8 ",
                cause.as_str(),
            ),
            CoralGateError::ClientManagerRootCaMissing => String::from_str(
                "The connection names no root certificate",
            ),
            CoralGateError::ClientManagerConfigNotInitialized => String::from_str(
                "The connection is not resolved yet",
            ),
            CoralGateError::CryptoError(cause) => join2("Crypto Error: ", cause.as_str()),
            CoralGateError::MissingField(field) => {
                let mut text = join2("The field ", field.as_str());
                text.append(" is missing in the answer");
                text
            },
        }
    }
}

/// The outcome of a step that brings no value, as contracts see it.
pub open spec fn outcome_view(outcome: Result<(), CoralGateError>) -> Result<(), ErrorView> {
    match outcome {
        Ok(_) => Ok(()),
        Err(error) => Err(error@),
    }
}

} // verus!
