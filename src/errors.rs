//! The failures that the catalog's operations report, and the HTTP status
//! that each maps to.
use vstd::prelude::*;
use crate::details::DetailsError;
use crate::upload::{validation_message, UploadValidationError};

verus! {

pub enum ServiceError {
    /// The request was malformed or out of range.
    Validation(UploadValidationError),
    /// No course has the requested id, given as requested.
    NotFound(String),
    /// The object store answered an upload with this non-2xx status.
    Upload(u16),
    /// The relational store failed.
    Storage(String),
    /// No bearer token could be had.
    Auth(String),
}

pub open spec fn status_spec(e: ServiceError) -> u16 {
    match e {
        ServiceError::Validation(_) => 400,
        ServiceError::NotFound(_) => 404,
        _ => 500,
    }
}

impl ServiceError {
    /// The HTTP status that reports this failure.
    pub fn status_code(&self) -> (r: u16)
        ensures
            r == status_spec(*self),
    {
        match self {
            ServiceError::Validation(_) => 400,
            ServiceError::NotFound(_) => 404,
            _ => 500,
        }
    }

    /// The text of the error body.
    pub fn message(&self) -> (r: String)
        ensures
            r@ == service_message(*self),
    {
        match self {
            ServiceError::Validation(v) => v.message(),
            ServiceError::NotFound(id) => {
                let mut out = String::from_str("Course with id ");
                out.append(id.as_str());
                out.append(" not found");
                out
            },
            ServiceError::Upload(_) => String::from_str("Object store refused the upload"),
            ServiceError::Storage(m) => m.clone(),
            ServiceError::Auth(m) => m.clone(),
        }
    }
}

/// The text of an error body: the validation message, the course that was
/// not found, or the store's own words.
pub open spec fn service_message(e: ServiceError) -> Seq<char> {
    match e {
        ServiceError::Validation(v) => validation_message(v),
        ServiceError::NotFound(id) => "Course with id "@ + id@ + " not found"@,
        ServiceError::Upload(_) => "Object store refused the upload"@,
        ServiceError::Storage(m) => m@,
        ServiceError::Auth(m) => m@,
    }
}

/// The service failure for a failed request for the course `course_id`.
pub fn details_failure(e: DetailsError, course_id: String) -> (r: ServiceError)
    ensures
        e matches DetailsError::NotFound ==> r == ServiceError::NotFound(course_id),
        e matches DetailsError::Storage(m) ==> r == ServiceError::Storage(m),
{
    match e {
        DetailsError::NotFound => ServiceError::NotFound(course_id),
        DetailsError::Storage(m) => ServiceError::Storage(m),
    }
}

} // verus!
