use course_catalog::details::{
    assemble_course_details, canonical_course_id, collect_resources, course_lookup_outcome,
    links_to_response, DetailsError,
};
use course_catalog::errors::{details_failure, ServiceError};
use course_catalog::model::{Course, CourseResource, CourseResourceFile, CourseResourceLink};

fn course(id: &str) -> Course {
    Course { course_id: id.to_string(), course_name: "Computing Fundamentals".to_string(), course_faculty: 1 }
}

fn resource(id: u128, title: &str) -> CourseResource {
    CourseResource {
        title: title.to_string(),
        subtitle: None,
        resource_id: id,
        course_id: "CS116".to_string(),
        resource_type: 0,
        dateuploaded: 0,
        semester: "First".to_string(),
        academic_year: 2022,
        issolved: false,
    }
}

fn file(id: u128, resource_id: u128, name: &str) -> CourseResourceFile {
    CourseResourceFile { file_id: id, file_name: name.to_string(), file_url: format!("u/{}", name), resource_id }
}

fn link(title: &str, url: &str) -> CourseResourceLink {
    CourseResourceLink { link_id: 7, link_title: title.to_string(), link_url: url.to_string(), course_id: "CS116".to_string() }
}

#[test]
fn course_id_is_case_insensitive() {
    assert_eq!(canonical_course_id("cs116"), "CS116");
    assert_eq!(canonical_course_id("cs116"), canonical_course_id("CS116"));
}

#[test]
fn missing_course_is_not_found() {
    assert!(matches!(course_lookup_outcome(Ok(None)), Err(DetailsError::NotFound)));
    assert!(matches!(course_lookup_outcome(Err("down".to_string())), Err(DetailsError::Storage(m)) if m == "down"));
    let found = course_lookup_outcome(Ok(Some(course("CS116")))).ok().unwrap();
    assert_eq!(found.course_id, "CS116");
}

#[test]
fn links_keep_only_title_and_url() {
    let out = links_to_response(vec![link("Docs", "https://a"), link("Videos", "https://b")]);
    assert_eq!(out.len(), 2);
    assert_eq!(out[0].title, "Docs");
    assert_eq!(out[0].url, "https://a");
    assert_eq!(out[1].title, "Videos");
    assert_eq!(out[1].url, "https://b");
}

#[test]
fn resource_with_failed_file_lookup_is_dropped() {
    let out = collect_resources(
        vec![resource(1, "a"), resource(2, "b"), resource(3, "c")],
        vec![Ok(vec![file(10, 1, "x.pdf")]), Err("boom".to_string()), Ok(vec![])],
    );
    assert_eq!(out.len(), 2);
    assert_eq!(out[0].resource_info.title, "a");
    assert_eq!(out[0].files.len(), 1);
    assert_eq!(out[0].files[0].file_name, "x.pdf");
    assert_eq!(out[1].resource_info.title, "c");
    assert_eq!(out[1].files.len(), 0);
}

#[test]
fn details_carry_both_counts() {
    let d = assemble_course_details(
        course("CS116"),
        Ok(vec![resource(1, "a")]),
        vec![Ok(vec![])],
        Ok(vec![link("Docs", "https://a")]),
        Ok(4),
        Ok(2),
    )
    .ok()
    .unwrap();
    assert_eq!(d.metadata.course_id, "CS116");
    assert_eq!(d.resources.len(), 1);
    assert_eq!(d.links.len(), 1);
    assert_eq!(d.no_notes, 4);
    assert_eq!(d.no_exams, 2);
}

#[test]
fn failing_child_query_is_storage_error() {
    let r = assemble_course_details(course("CS116"), Ok(vec![]), vec![], Err("links".to_string()), Ok(0), Ok(0));
    assert!(matches!(r, Err(DetailsError::Storage(m)) if m == "links"));
    let r = assemble_course_details(course("CS116"), Err("res".to_string()), vec![], Ok(vec![]), Ok(0), Ok(0));
    assert!(matches!(r, Err(DetailsError::Storage(m)) if m == "res"));
    let r = assemble_course_details(course("CS116"), Ok(vec![]), vec![], Ok(vec![]), Ok(0), Err("exams".to_string()));
    assert!(matches!(r, Err(DetailsError::Storage(m)) if m == "exams"));
}

#[test]
fn service_errors_map_to_statuses() {
    let nf = details_failure(DetailsError::NotFound, "cs999".to_string());
    assert_eq!(nf.status_code(), 404);
    assert_eq!(nf.message(), "Course with id cs999 not found");
    let st = details_failure(DetailsError::Storage("x".to_string()), "CS116".to_string());
    assert_eq!(st.status_code(), 500);
    assert_eq!(st.message(), "x");
    assert_eq!(ServiceError::Upload(403).message(), "Object store refused the upload");
    assert_eq!(ServiceError::Upload(403).status_code(), 500);
    assert_eq!(ServiceError::Auth("no".to_string()).status_code(), 500);
    assert_eq!(
        ServiceError::Validation(course_catalog::upload::UploadValidationError::NoFiles).status_code(),
        400
    );
}
