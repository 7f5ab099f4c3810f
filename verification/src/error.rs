//! Failures of the services the operator talks to, and how they end a
//! reconciliation.

use crate::annotations::AnnotationError;
use vstd::prelude::*;

verus! {

/// A failed Kubernetes call: the status code where the API server answered
/// with one, and the error in words.
#[derive(Debug, PartialEq, Eq)]
pub struct KubeError {
    pub api_code: Option<u16>,
    pub text: String,
}

impl KubeError {
    /// The API server answered that the object does not exist.
    pub open spec fn not_found(&self) -> bool {
        self.api_code == Some(404u16)
    }

    /// Whether the API server answered that the object does not exist.
    pub fn is_not_found(&self) -> (result: bool)
        ensures
            result == self.not_found(),
    {
        match self.api_code {
            Some(code) => code == 404,
            None => false,
        }
    }
}

impl Clone for KubeError {
    fn clone(&self) -> (copy: Self)
        ensures
            copy == *self,
    {
        KubeError { api_code: self.api_code, text: self.text.clone() }
    }
}

/// The codes of headscale's replies that matter here.
#[derive(Debug, Clone, Copy, PartialEq, Eq, Structural)]
pub enum StatusCode {
    NotFound,
    Internal,
    Other,
}

/// A failed headscale call.
#[derive(Debug, PartialEq, Eq)]
pub struct Status {
    pub code: StatusCode,
    pub message: String,
}

impl Clone for Status {
    fn clone(&self) -> (copy: Self)
        ensures
            copy == *self,
    {
        Status { code: self.code, message: self.message.clone() }
    }
}

/// Why a proxy could not be reconciled.
#[derive(Debug, PartialEq, Eq)]
pub enum Error {
    Kube(KubeError),
    HeadscaleApi(Status),
    Annotation(AnnotationError),
    MissingNamespace,
    UnnamedObject,
    NodePortNotAssigned,
}

impl Clone for Error {
    fn clone(&self) -> (copy: Self)
        ensures
            copy == *self,
    {
        match self {
            Error::Kube(e) => Error::Kube(e.clone()),
            Error::HeadscaleApi(s) => Error::HeadscaleApi(s.clone()),
            Error::Annotation(e) => Error::Annotation(e.clone()),
            Error::MissingNamespace => Error::MissingNamespace,
            Error::UnnamedObject => Error::UnnamedObject,
            Error::NodePortNotAssigned => Error::NodePortNotAssigned,
        }
    }
}

/// Copies a result.
pub fn clone_result(result: &Result<(), Error>) -> (copy: Result<(), Error>)
    ensures
        copy == *result,
{
    match result {
        Ok(unit) => Ok(*unit),
        Err(e) => Err(e.clone()),
    }
}

/// What an error says.
pub enum ErrorView {
    Kube { api_code: Option<u16>, text: Seq<char> },
    HeadscaleApi { code: StatusCode, message: Seq<char> },
    Annotation(Seq<char>),
    MissingNamespace,
    UnnamedObject,
    NodePortNotAssigned,
}

impl View for Error {
    type V = ErrorView;

    open spec fn view(&self) -> ErrorView {
        match self {
            Error::Kube(e) => ErrorView::Kube { api_code: e.api_code, text: e.text@ },
            Error::HeadscaleApi(s) => ErrorView::HeadscaleApi { code: s.code, message: s.message@ },
            Error::Annotation(e) => ErrorView::Annotation(e.words()),
            Error::MissingNamespace => ErrorView::MissingNamespace,
            Error::UnnamedObject => ErrorView::UnnamedObject,
            Error::NodePortNotAssigned => ErrorView::NodePortNotAssigned,
        }
    }
}

/// How a guarded reconciliation can fail.
#[derive(Debug, PartialEq, Eq)]
pub enum FinalizerFailure {
    ApplyFailed(Error),
    CleanupFailed(Error),
    AddFinalizer(KubeError),
    RemoveFinalizer(KubeError),
    UnnamedObject,
}

/// The error that a guarded reconciliation reports.
pub open spec fn reported_error(failure: FinalizerFailure) -> Error {
    match failure {
        FinalizerFailure::ApplyFailed(e) => e,
        FinalizerFailure::CleanupFailed(e) => e,
        FinalizerFailure::AddFinalizer(e) => Error::Kube(e),
        FinalizerFailure::RemoveFinalizer(e) => Error::Kube(e),
        FinalizerFailure::UnnamedObject => Error::UnnamedObject,
    }
}

/// The error that a guarded reconciliation reports.
pub fn finalizer_error(failure: FinalizerFailure) -> (error: Error)
    ensures
        error == reported_error(failure),
{
    match failure {
        FinalizerFailure::ApplyFailed(e) => e,
        FinalizerFailure::CleanupFailed(e) => e,
        FinalizerFailure::AddFinalizer(e) => Error::Kube(e),
        FinalizerFailure::RemoveFinalizer(e) => Error::Kube(e),
        FinalizerFailure::UnnamedObject => Error::UnnamedObject,
    }
}

/// When an object is looked at again.
#[derive(Debug, Clone, Copy, PartialEq, Eq, Structural)]
pub enum Requeue {
    /// When something that is watched changes.
    AwaitChange,
    /// After some seconds, or earlier when something that is watched changes.
    After(u64),
}

/// A failed reconciliation is tried again after half a minute.
pub fn error_policy() -> (requeue: Requeue)
    ensures
        requeue == Requeue::After(30),
{
    Requeue::After(30)
}

} // verus!
