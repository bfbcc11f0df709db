use course_catalog::links::new_course_link;
use course_catalog::model::InsertCourseResource;
use course_catalog::text::{file_content_type, is_blank_text, sanitize_file_name_to_upload};
use course_catalog::upload::{
    begin_resource_upload, canonical_semester, check_resource_type, prepare_uploads, new_course_resource, prepare_file_upload,
    resource_file_rows, resource_folder, upload_succeeded, validate_upload, validate_upload_now,
    UploadValidationError,
};

fn payload(year: i32) -> InsertCourseResource {
    InsertCourseResource {
        title: "Midterm".to_string(),
        subtitle: None,
        course_id: "CS116".to_string(),
        resource_type: 1,
        semester: "first".to_string(),
        academic_year: year,
        issolved: true,
    }
}

#[test]
fn sanitizing_replaces_each_unsafe_character() {
    let name = "My Notes #1: Final.pdf".to_string();
    let s = sanitize_file_name_to_upload(name);
    assert_eq!(s, "My_Notes__1__Final.pdf");
    assert_eq!(file_content_type(s), "application/pdf");
    assert_eq!(sanitize_file_name_to_upload("a'b\"c;d|e".to_string()), "a_b_c_d_e");
    assert_eq!(sanitize_file_name_to_upload(String::new()), "");
}

#[test]
fn content_type_by_extension() {
    assert_eq!(file_content_type("a.docx".to_string()), "application/vnd.openxmlformats-officedocument.wordprocessingml.document");
    assert_eq!(file_content_type("a.pptx".to_string()), "application/vnd.ms-powerpoint");
    assert_eq!(file_content_type("a.ppt".to_string()), "application/vnd.ms-powerpoint");
    assert_eq!(file_content_type("a.b.jpg".to_string()), "image/jpeg");
    assert_eq!(file_content_type("a.jpeg".to_string()), "image/jpeg");
    assert_eq!(file_content_type("a.png".to_string()), "image/png");
    assert_eq!(file_content_type("a.gif".to_string()), "image/gif");
    assert_eq!(file_content_type("a.PDF".to_string()), "application/octet-stream");
    assert_eq!(file_content_type("archive.tar.gz".to_string()), "application/octet-stream");
    assert_eq!(file_content_type("pdf".to_string()), "application/pdf");
    assert_eq!(file_content_type("noext".to_string()), "application/octet-stream");
}

#[test]
fn academic_year_bounds() {
    let files = 1;
    assert_eq!(validate_upload(&Some(payload(2026)), files, 2025), Err(UploadValidationError::YearAfterCurrent));
    assert_eq!(validate_upload(&Some(payload(1999)), files, 2025), Err(UploadValidationError::YearBeforeMinimum));
    assert_eq!(validate_upload(&Some(payload(2000)), files, 2025), Ok("First".to_string()));
    assert_eq!(validate_upload(&Some(payload(2025)), files, 2025), Ok("First".to_string()));
}

#[test]
fn zero_files_has_its_own_error() {
    let r = validate_upload(&Some(payload(2020)), 0, 2025);
    assert_eq!(r, Err(UploadValidationError::NoFiles));
    assert_eq!(UploadValidationError::NoFiles.message(), "User must upload at least one file");
    assert_ne!(UploadValidationError::NoFiles.message(), UploadValidationError::MissingPayload.message());
    assert_eq!(validate_upload(&None, 0, 2025), Err(UploadValidationError::NoFiles));
}

#[test]
fn each_validation_error_has_an_input() {
    assert_eq!(validate_upload(&None, 2, 2025), Err(UploadValidationError::MissingPayload));
    let mut p = payload(2020);
    p.semester = "Fall".to_string();
    assert_eq!(validate_upload(&Some(p), 1, 2025), Err(UploadValidationError::InvalidSemester));
    let mut p = payload(2020);
    p.title = "   ".to_string();
    assert_eq!(validate_upload(&Some(p), 1, 2025), Err(UploadValidationError::BlankTitleOrCourseId));
    let mut p = payload(2020);
    p.course_id = "".to_string();
    assert_eq!(validate_upload(&Some(p), 1, 2025), Err(UploadValidationError::BlankTitleOrCourseId));
    let mut p = payload(2020);
    p.resource_type = 2;
    assert_eq!(validate_upload(&Some(p), 1, 2025), Err(UploadValidationError::InvalidResourceType));
    assert_eq!(validate_upload_now(&Some(payload(1999)), 1), Err(UploadValidationError::YearBeforeMinimum));
    assert_eq!(validate_upload_now(&Some(payload(2020)), 1), Ok("First".to_string()));
}

#[test]
fn semester_matches_without_case() {
    assert_eq!(canonical_semester("FIRST"), Some("First".to_string()));
    assert_eq!(canonical_semester("second"), Some("Second".to_string()));
    assert_eq!(canonical_semester("SuMmEr"), Some("Summer".to_string()));
    assert_eq!(canonical_semester("Spring"), None);
    assert!(is_blank_text("  "));
    assert!(!is_blank_text(" a "));
}

#[test]
fn object_names_and_urls() {
    let folder = resource_folder("CS116", 0x0123456789abcdef0123456789abcdef);
    assert_eq!(folder, "course_resources/CS116/01234567-89ab-cdef-0123-456789abcdef");
    let p = prepare_file_upload("course_resources/CS116/x", "week 1.png".to_string());
    assert_eq!(p.sanitized_name, "week_1.png");
    assert_eq!(p.object_key, "course_resources/CS116/x/week_1.png");
    assert_eq!(
        p.request_url,
        "https://storage.googleapis.com/upload/storage/v1/b/gjufilesresources/o?uploadType=media&name=course_resources/CS116/x/week_1.png"
    );
    assert_eq!(p.public_url, "https://storage.googleapis.com/gjufilesresources/course_resources/CS116/x/week_1.png");
    assert_eq!(p.content_type, "image/png");
}

#[test]
fn fresh_upload_folder_names_its_resource() {
    let (id, folder) = begin_resource_upload("CS116");
    assert_eq!(folder, resource_folder("CS116", id));
    let (id2, _) = begin_resource_upload("CS116");
    assert_ne!(id, id2);
}

#[test]
fn upload_status_must_be_2xx() {
    assert!(upload_succeeded(200));
    assert!(upload_succeeded(299));
    assert!(!upload_succeeded(199));
    assert!(!upload_succeeded(300));
    assert!(!upload_succeeded(403));
}

#[test]
fn file_rows_match_uploaded_files() {
    let names = ["a b.pdf", "c#d.docx", "e.png"];
    let ups: Vec<_> = names.iter().map(|n| prepare_file_upload("f", n.to_string())).collect();
    let rows = resource_file_rows(42, ups);
    assert_eq!(rows.len(), 3);
    assert_eq!(rows[0].file_name, "a_b.pdf");
    assert_eq!(rows[1].file_name, "c_d.docx");
    assert_eq!(rows[2].file_name, "e.png");
    assert_eq!(rows[2].file_url, "https://storage.googleapis.com/gjufilesresources/f/e.png");
    assert!(rows.iter().all(|r| r.resource_id == 42));
    assert_ne!(rows[0].file_id, rows[1].file_id);
}

#[test]
fn resource_row_keeps_request_fields() {
    let r = new_course_resource("T".to_string(), Some("S".to_string()), "CS116".to_string(), 0, "Summer".to_string(), 2021, true, 9);
    assert_eq!(r.title, "T");
    assert_eq!(r.subtitle.as_deref(), Some("S"));
    assert_eq!(r.course_id, "CS116");
    assert_eq!(r.resource_type, 0);
    assert_eq!(r.semester, "Summer");
    assert_eq!(r.academic_year, 2021);
    assert!(r.issolved);
    assert_eq!(r.resource_id, 9);
    assert!(r.dateuploaded > 1_600_000_000);
}

#[test]
fn links_get_fresh_ids_and_may_repeat() {
    let a = new_course_link("Docs".to_string(), "https://x".to_string(), "CS116".to_string());
    let b = new_course_link("Docs".to_string(), "https://x".to_string(), "CS116".to_string());
    assert_eq!(a.link_title, "Docs");
    assert_eq!(a.link_url, "https://x");
    assert_eq!(a.course_id, "CS116");
    assert_ne!(a.link_id, b.link_id);
}

#[test]
fn every_validation_message_is_fixed() {
    let all = [
        UploadValidationError::NoFiles,
        UploadValidationError::MissingPayload,
        UploadValidationError::InvalidSemester,
        UploadValidationError::BlankTitleOrCourseId,
        UploadValidationError::InvalidResourceType,
        UploadValidationError::YearAfterCurrent,
        UploadValidationError::YearBeforeMinimum,
    ];
    let texts = [
        "User must upload at least one file",
        "Payload is required",
        "Invalid semester",
        "Title / course id can't be empty",
        "Invalid resource type (Must be either 0 for Notes, or 1 for Exams)",
        "Academic year can't be greater than the current year",
        "Academic year can't be less than 2000",
    ];
    for (e, t) in all.iter().zip(texts.iter()) {
        assert_eq!(e.message(), *t);
    }
    assert_eq!(course_catalog::errors::ServiceError::Validation(UploadValidationError::YearAfterCurrent).status_code(), 400);
}

#[test]
fn details_resource_type_must_be_notes_or_exams() {
    assert_eq!(check_resource_type(0), Ok(()));
    assert_eq!(check_resource_type(1), Ok(()));
    assert_eq!(check_resource_type(2), Err(UploadValidationError::InvalidResourceType));
    assert_eq!(check_resource_type(-1), Err(UploadValidationError::InvalidResourceType));
}

#[test]
fn prepared_uploads_follow_input_order() {
    let ups = prepare_uploads("f", vec!["a b.pdf".to_string(), "c:d.gif".to_string()]);
    assert_eq!(ups.len(), 2);
    assert_eq!(ups[0].sanitized_name, "a_b.pdf");
    assert_eq!(ups[0].content_type, "application/pdf");
    assert_eq!(ups[1].sanitized_name, "c_d.gif");
    assert_eq!(ups[1].object_key, "f/c_d.gif");
    let rows = resource_file_rows(5, ups);
    assert_eq!(rows.len(), 2);
    assert_eq!(rows[1].file_name, "c_d.gif");
    assert!(prepare_uploads("f", vec![]).is_empty());
}
