//! The catalog's records and response shapes. Identifiers are held as the
//! 128-bit value of a UUID and timestamps as seconds since the Unix epoch.
use vstd::prelude::*;

verus! {

/// A course of the catalog, keyed by its upper-case id (`CS116`).
pub struct Course {
    pub course_id: String,
    pub course_name: String,
    pub course_faculty: i16,
}

/// An uploaded study resource. `resource_type` is 0 for notes, 1 for exams.
pub struct CourseResource {
    pub title: String,
    pub subtitle: Option<String>,
    pub resource_id: u128,
    pub course_id: String,
    pub resource_type: i16,
    pub dateuploaded: i64,
    pub semester: String,
    pub academic_year: i32,
    pub issolved: bool,
}

/// The metadata part of an upload request, as the client sends it.
pub struct InsertCourseResource {
    pub title: String,
    pub subtitle: Option<String>,
    pub course_id: String,
    pub resource_type: i16,
    pub semester: String,
    pub academic_year: i32,
    pub issolved: bool,
}

pub struct InsertCourseResourceFile {
    pub file_name: String,
}

/// One stored object that belongs to a resource.
pub struct CourseResourceFile {
    pub file_id: u128,
    pub file_name: String,
    pub file_url: String,
    pub resource_id: u128,
}

/// One page of the course listing, with the size of the whole filtered set.
pub struct GetCoursesResponse {
    pub courses: Vec<Course>,
    pub total_courses: i64,
}

pub struct ErrorResponse {
    pub error: String,
}

pub struct GetCoursesQuery {
    pub faculty: Option<i16>,
    pub search: Option<String>,
    pub page: Option<i64>,
}

pub struct GetCourseDetailsQuery {
    pub resource_type: i16,
}

/// A resource together with the files attached to it.
pub struct CourseDetailsResourceResponse {
    pub resource_info: CourseResource,
    pub files: Vec<CourseResourceFile>,
}

/// The public shape of a link: its title and URL only.
pub struct CourseDetailsLinkResponse {
    pub title: String,
    pub url: String,
}

/// A course with its resources of one type, its links, and how many notes
/// and exams it has in all.
pub struct CourseDetails {
    pub metadata: Course,
    pub resources: Vec<CourseDetailsResourceResponse>,
    pub links: Vec<CourseDetailsLinkResponse>,
    pub no_notes: i64,
    pub no_exams: i64,
}

/// An external link attached to a course.
pub struct CourseResourceLink {
    pub link_id: u128,
    pub link_title: String,
    pub link_url: String,
    pub course_id: String,
}

/// A file as received for upload: its client-side name and its bytes.
pub struct CourseResourceUploadFile {
    pub filename: String,
    pub data: Vec<u8>,
}

} // verus!
