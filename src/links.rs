//! Links attached to a course.
use vstd::prelude::*;
use crate::ids::new_uuid;
use crate::model::CourseResourceLink;

verus! {

/// A new link row with a fresh id. Nothing makes links unique: the same
/// title and URL may be attached to a course more than once.
pub fn new_course_link(link_title: String, link_url: String, course_id: String) -> (r:
    CourseResourceLink)
    ensures
        r.link_title == link_title,
        r.link_url == link_url,
        r.course_id == course_id,
{
    CourseResourceLink { link_id: new_uuid(), link_title, link_url, course_id }
}

} // verus!
