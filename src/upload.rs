//! Resource uploads: checking the request, naming the stored objects, and
//! building the rows that record them. Objects are written before rows and
//! nothing is rolled back: a failing upload leaves earlier objects in place,
//! and a failing file-row insert leaves the resource row without files.
use vstd::prelude::*;
use crate::ids::{current_year, new_uuid, now_unix_seconds, uuid_string, uuid_text};
use crate::model::{CourseResource, CourseResourceFile, InsertCourseResource};
use crate::text::{
    content_type_for,
    extension_of,
    file_content_type,
    is_blank,
    is_blank_text,
    ascii_lower_text,
    is_ascii_text,
    lower_of,
    same_chars,
    sanitize_file_name_to_upload,
    sanitized_name,
    to_lower,
};

verus! {

/// The bucket that holds uploaded resource files.
pub const BUCKET_NAME: &'static str = "gjufilesresources";

/// Earliest academic year accepted for a resource.
pub const MIN_ACADEMIC_YEAR: i32 = 2000;

/// Why an upload request was refused before anything was stored.
#[derive(Clone, Copy, Debug, PartialEq, Eq)]
pub enum UploadValidationError {
    NoFiles,
    MissingPayload,
    InvalidSemester,
    BlankTitleOrCourseId,
    InvalidResourceType,
    YearAfterCurrent,
    YearBeforeMinimum,
}

/// The message shown to the client for each refusal.
pub open spec fn validation_message(e: UploadValidationError) -> Seq<char> {
    match e {
        UploadValidationError::NoFiles => "User must upload at least one file"@,
        UploadValidationError::MissingPayload => "Payload is required"@,
        UploadValidationError::InvalidSemester => "Invalid semester"@,
        UploadValidationError::BlankTitleOrCourseId => "Title / course id can't be empty"@,
        UploadValidationError::InvalidResourceType =>
            "Invalid resource type (Must be either 0 for Notes, or 1 for Exams)"@,
        UploadValidationError::YearAfterCurrent =>
            "Academic year can't be greater than the current year"@,
        UploadValidationError::YearBeforeMinimum => "Academic year can't be less than 2000"@,
    }
}

impl UploadValidationError {
    /// The message shown to the client.
    pub fn message(&self) -> (r: String)
        ensures
            r@ == validation_message(*self),
    {
        match self {
            UploadValidationError::NoFiles => String::from_str("User must upload at least one file"),
            UploadValidationError::MissingPayload => String::from_str("Payload is required"),
            UploadValidationError::InvalidSemester => String::from_str("Invalid semester"),
            UploadValidationError::BlankTitleOrCourseId => String::from_str(
                "Title / course id can't be empty",
            ),
            UploadValidationError::InvalidResourceType => String::from_str(
                "Invalid resource type (Must be either 0 for Notes, or 1 for Exams)",
            ),
            UploadValidationError::YearAfterCurrent => String::from_str(
                "Academic year can't be greater than the current year",
            ),
            UploadValidationError::YearBeforeMinimum => String::from_str(
                "Academic year can't be less than 2000",
            ),
        }
    }
}

/// The refusal for want of files has a message of its own.
pub proof fn lemma_no_files_message_distinct(e: UploadValidationError)
    requires
        e != UploadValidationError::NoFiles,
    ensures
        validation_message(e) != validation_message(UploadValidationError::NoFiles),
{
    reveal_strlit("User must upload at least one file");
    reveal_strlit("Payload is required");
    reveal_strlit("Invalid semester");
    reveal_strlit("Title / course id can't be empty");
    reveal_strlit("Invalid resource type (Must be either 0 for Notes, or 1 for Exams)");
    reveal_strlit("Academic year can't be greater than the current year");
    reveal_strlit("Academic year can't be less than 2000");
    let n = validation_message(UploadValidationError::NoFiles);
    let m = validation_message(e);
    if m.len() == n.len() {
        match e {
            UploadValidationError::NoFiles => {},
            UploadValidationError::MissingPayload => {},
            UploadValidationError::InvalidSemester => {},
            UploadValidationError::BlankTitleOrCourseId => {},
            UploadValidationError::InvalidResourceType => {},
            UploadValidationError::YearAfterCurrent => {},
            UploadValidationError::YearBeforeMinimum => { assert(m[0] != n[0]); },
        }
    }
}

/// Whether a course-details request names a resource type that exists.
pub fn check_resource_type(resource_type: i16) -> (r: Result<(), UploadValidationError>)
    ensures
        r is Ok <==> (resource_type == 0 || resource_type == 1),
        r is Err ==> r == Err::<(), UploadValidationError>(UploadValidationError::InvalidResourceType),
{
    if resource_type != 0 && resource_type != 1 {
        Err(UploadValidationError::InvalidResourceType)
    } else {
        Ok(())
    }
}

/// The canonical spelling of a semester, matched without regard to case.
pub open spec fn semester_spec(s: Seq<char>) -> Option<Seq<char>> {
    let l = lower_of(s);
    if l == "first"@ {
        Some("First"@)
    } else if l == "second"@ {
        Some("Second"@)
    } else if l == "summer"@ {
        Some("Summer"@)
    } else {
        None
    }
}

/// The outcome of checking an upload request, the checks taken in a fixed
/// order: files, metadata, semester, title and course id, resource type, year.
pub open spec fn upload_verdict(
    payload: Option<InsertCourseResource>,
    file_count: nat,
    current_year: int,
) -> Result<Seq<char>, UploadValidationError> {
    if file_count == 0 {
        Err(UploadValidationError::NoFiles)
    } else {
        match payload {
            None => Err(UploadValidationError::MissingPayload),
            Some(p) => match semester_spec(p.semester@) {
                None => Err(UploadValidationError::InvalidSemester),
                Some(sem) => if is_blank(p.title@) || is_blank(p.course_id@) {
                    Err(UploadValidationError::BlankTitleOrCourseId)
                } else if p.resource_type != 0 && p.resource_type != 1 {
                    Err(UploadValidationError::InvalidResourceType)
                } else if p.academic_year > current_year {
                    Err(UploadValidationError::YearAfterCurrent)
                } else if p.academic_year < MIN_ACADEMIC_YEAR {
                    Err(UploadValidationError::YearBeforeMinimum)
                } else {
                    Ok(sem)
                },
            },
        }
    }
}

pub open spec fn verdict_view(r: Result<String, UploadValidationError>) -> Result<
    Seq<char>,
    UploadValidationError,
> {
    match r {
        Ok(s) => Ok(s@),
        Err(e) => Err(e),
    }
}

/// `course_resources/{course_id}/{resource_id}`.
pub open spec fn folder_spec(course_id: Seq<char>, resource_id: u128) -> Seq<char> {
    "course_resources/"@ + course_id + "/"@ + uuid_text(resource_id)
}

pub open spec fn object_key_spec(folder: Seq<char>, name: Seq<char>) -> Seq<char> {
    folder + "/"@ + name
}

pub open spec fn request_url_spec(key: Seq<char>) -> Seq<char> {
    "https://storage.googleapis.com/upload/storage/v1/b/"@ + BUCKET_NAME@
        + "/o?uploadType=media&name="@ + key
}

pub open spec fn public_url_spec(key: Seq<char>) -> Seq<char> {
    "https://storage.googleapis.com/"@ + BUCKET_NAME@ + "/"@ + key
}

/// Everything needed to put one file in the bucket and to record it after.
pub struct PreparedUpload {
    pub sanitized_name: String,
    pub object_key: String,
    pub request_url: String,
    pub content_type: String,
    pub public_url: String,
}

/// Whether `p` is the upload of a file named `name` into `folder`.
pub open spec fn prepared_for(p: PreparedUpload, folder: Seq<char>, name: Seq<char>) -> bool {
    let s = sanitized_name(name);
    let key = object_key_spec(folder, s);
    &&& p.sanitized_name@ == s
    &&& p.object_key@ == key
    &&& p.request_url@ == request_url_spec(key)
    &&& p.content_type@ == content_type_for(extension_of(s))
    &&& p.public_url@ == public_url_spec(key)
}

/// Whether `rows` record the uploads `ups`, one for one and in order, under
/// the resource `resource_id`.
pub open spec fn rows_for_uploads(
    rows: Seq<CourseResourceFile>,
    ups: Seq<PreparedUpload>,
    resource_id: u128,
) -> bool {
    &&& rows.len() == ups.len()
    &&& forall|i: int|
        0 <= i < rows.len() ==> {
            &&& #[trigger] rows[i].file_name == ups[i].sanitized_name
            &&& rows[i].file_url == ups[i].public_url
            &&& rows[i].resource_id == resource_id
        }
}

/// The canonical semester for a client's spelling, or `None`.
pub fn canonical_semester(s: &str) -> (r: Option<String>)
    ensures
        match r {
            Some(c) => semester_spec(s@) == Some(c@),
            None => semester_spec(s@) is None,
        },
        is_ascii_text(s@) ==> lower_of(s@) == ascii_lower_text(s@),
{
    let l = to_lower(s);
    if same_chars(l.as_str(), "first") {
        Some(String::from_str("First"))
    } else if same_chars(l.as_str(), "second") {
        Some(String::from_str("Second"))
    } else if same_chars(l.as_str(), "summer") {
        Some(String::from_str("Summer"))
    } else {
        None
    }
}

/// Checks an upload request against the current year; on success returns
/// the canonical semester.
pub fn validate_upload(payload: &Option<InsertCourseResource>, file_count: usize, current_year: i32) -> (r:
    Result<String, UploadValidationError>)
    ensures
        verdict_view(r) == upload_verdict(*payload, file_count as nat, current_year as int),
        file_count > 0 ==> (payload matches Some(p) ==> (is_ascii_text(p.semester@) ==> lower_of(
            p.semester@,
        ) == ascii_lower_text(p.semester@))),
{
    if file_count == 0 {
        return Err(UploadValidationError::NoFiles);
    }
    let p = match payload {
        Some(p) => p,
        None => return Err(UploadValidationError::MissingPayload),
    };
    let sem = match canonical_semester(p.semester.as_str()) {
        Some(s) => s,
        None => return Err(UploadValidationError::InvalidSemester),
    };
    if is_blank_text(p.title.as_str()) || is_blank_text(p.course_id.as_str()) {
        return Err(UploadValidationError::BlankTitleOrCourseId);
    }
    if p.resource_type != 0 && p.resource_type != 1 {
        return Err(UploadValidationError::InvalidResourceType);
    }
    if p.academic_year > current_year {
        return Err(UploadValidationError::YearAfterCurrent);
    }
    if p.academic_year < MIN_ACADEMIC_YEAR {
        return Err(UploadValidationError::YearBeforeMinimum);
    }
    Ok(sem)
}

/// Checks an upload request against the year of the clock.
pub fn validate_upload_now(payload: &Option<InsertCourseResource>, file_count: usize) -> (r: Result<
    String,
    UploadValidationError,
>)
    ensures
        exists|y: i32| verdict_view(r) == upload_verdict(*payload, file_count as nat, y as int),
{
    let y = current_year();
    validate_upload(payload, file_count, y)
}

/// The folder under which the files of a resource are stored.
pub fn resource_folder(course_id: &str, resource_id: u128) -> (r: String)
    ensures
        r@ == folder_spec(course_id@, resource_id),
{
    let id = uuid_string(resource_id);
    let mut out = String::from_str("course_resources/");
    out.append(course_id);
    out.append("/");
    out.append(id.as_str());
    out
}

/// A fresh resource id and the folder that its files go to.
pub fn begin_resource_upload(course_id: &str) -> (r: (u128, String))
    ensures
        r.1@ == folder_spec(course_id@, r.0),
{
    let id = new_uuid();
    let folder = resource_folder(course_id, id);
    (id, folder)
}

/// Names the object, the upload request and the public URL for one file.
pub fn prepare_file_upload(folder: &str, file_name: String) -> (r: PreparedUpload)
    ensures
        prepared_for(r, folder@, file_name@),
{
    let sanitized = sanitize_file_name_to_upload(file_name);
    let mut key = String::from_str(folder);
    key.append("/");
    key.append(sanitized.as_str());
    let mut request_url = String::from_str("https://storage.googleapis.com/upload/storage/v1/b/");
    request_url.append(BUCKET_NAME);
    request_url.append("/o?uploadType=media&name=");
    request_url.append(key.as_str());
    let mut public_url = String::from_str("https://storage.googleapis.com/");
    public_url.append(BUCKET_NAME);
    public_url.append("/");
    public_url.append(key.as_str());
    let content_type = file_content_type(sanitized.clone());
    PreparedUpload { sanitized_name: sanitized, object_key: key, request_url, content_type, public_url }
}

/// Prepares the upload of each named file into `folder`, in order.
pub fn prepare_uploads(folder: &str, names: Vec<String>) -> (r: Vec<PreparedUpload>)
    ensures
        r@.len() == names@.len(),
        forall|i: int| 0 <= i < r@.len() ==> prepared_for(#[trigger] r@[i], folder@, names@[i]@),
{
    let ghost orig = names@;
    let mut names = names;
    let mut out: Vec<PreparedUpload> = Vec::new();
    while names.len() > 0
        invariant
            out@.len() + names@.len() == orig.len(),
            names@ == orig.subrange(out@.len() as int, orig.len() as int),
            forall|i: int| 0 <= i < out@.len() ==> prepared_for(#[trigger] out@[i], folder@, orig[i]@),
        decreases names@.len(),
    {
        let ghost k: int = out@.len() as int;
        let n = names.remove(0);
        assert(n == orig[k]);
        out.push(prepare_file_upload(folder, n));
        assert(names@ =~= orig.subrange(k + 1, orig.len() as int));
    }
    out
}

/// Whether the store accepted an object: a 2xx status.
pub fn upload_succeeded(status: u16) -> (r: bool)
    ensures
        r == (200 <= status <= 299),
{
    200 <= status && status <= 299
}

/// One file row per upload, in order, each with a fresh id.
pub fn resource_file_rows(resource_id: u128, uploads: Vec<PreparedUpload>) -> (r: Vec<
    CourseResourceFile,
>)
    ensures
        rows_for_uploads(r@, uploads@, resource_id),
{
    let ghost orig = uploads@;
    let mut uploads = uploads;
    let mut out: Vec<CourseResourceFile> = Vec::new();
    while uploads.len() > 0
        invariant
            out@.len() + uploads@.len() == orig.len(),
            uploads@ == orig.subrange(out@.len() as int, orig.len() as int),
            rows_for_uploads(out@, orig.subrange(0, out@.len() as int), resource_id),
        decreases uploads@.len(),
    {
        let ghost k: int = out@.len() as int;
        let u = uploads.remove(0);
        let file_id = new_uuid();
        out.push(
            CourseResourceFile {
                file_id,
                file_name: u.sanitized_name,
                file_url: u.public_url,
                resource_id,
            },
        );
        proof {
            assert(uploads@ =~= orig.subrange(k + 1, orig.len() as int));
            let ups = orig.subrange(0, k + 1);
            assert forall|i: int| 0 <= i < out@.len() implies {
                &&& #[trigger] out@[i].file_name == ups[i].sanitized_name
                &&& out@[i].file_url == ups[i].public_url
                &&& out@[i].resource_id == resource_id
            } by {
                if i < k {
                    assert(orig.subrange(0, k)[i] == ups[i]);
                }
            }
        }
    }
    proof {
        assert(orig.subrange(0, orig.len() as int) =~= orig);
    }
    out
}

/// The resource row for a validated request, stamped now.
pub fn new_course_resource(
    title: String,
    subtitle: Option<String>,
    course_id: String,
    resource_type: i16,
    semester: String,
    academic_year: i32,
    is_solved: bool,
    resource_id: u128,
) -> (r: CourseResource)
    ensures
        r.title == title,
        r.subtitle == subtitle,
        r.course_id == course_id,
        r.resource_type == resource_type,
        r.semester == semester,
        r.academic_year == academic_year,
        r.issolved == is_solved,
        r.resource_id == resource_id,
{
    CourseResource {
        title,
        subtitle,
        resource_id,
        course_id,
        resource_type,
        dateuploaded: now_unix_seconds(),
        semester,
        academic_year,
        issolved: is_solved,
    }
}


/// An upload request is refused for want of files, before any other check,
/// whatever its metadata.
pub proof fn lemma_no_files_refused(payload: Option<InsertCourseResource>, current_year: int)
    ensures
        upload_verdict(payload, 0, current_year) == Err::<Seq<char>, UploadValidationError>(
            UploadValidationError::NoFiles,
        ),
{
}

/// With files and otherwise valid metadata, an upload is accepted exactly
/// when its academic year lies between 2000 and the current year: the year
/// after the current one and 1999 are refused, 2000 and the current year are
/// accepted.
pub proof fn lemma_academic_year_bounds(p: InsertCourseResource, file_count: nat, current_year: int)
    requires
        file_count > 0,
        semester_spec(p.semester@) is Some,
        !is_blank(p.title@),
        !is_blank(p.course_id@),
        p.resource_type == 0 || p.resource_type == 1,
        current_year >= MIN_ACADEMIC_YEAR,
    ensures
        upload_verdict(Some(p), file_count, current_year) is Ok <==> (MIN_ACADEMIC_YEAR
            <= p.academic_year <= current_year),
        p.academic_year == current_year + 1 ==> upload_verdict(Some(p), file_count, current_year)
            == Err::<Seq<char>, UploadValidationError>(UploadValidationError::YearAfterCurrent),
        p.academic_year == 1999 ==> upload_verdict(Some(p), file_count, current_year) == Err::<
            Seq<char>,
            UploadValidationError,
        >(UploadValidationError::YearBeforeMinimum),
{
}

/// After a successful upload of N files, prepared by `prepare_uploads` and
/// recorded by `resource_file_rows`, the resource has exactly N file rows,
/// the i-th carrying the sanitized name of the i-th file.
pub proof fn lemma_upload_file_list(
    names: Seq<String>,
    folder: Seq<char>,
    ups: Seq<PreparedUpload>,
    rows: Seq<CourseResourceFile>,
    resource_id: u128,
)
    requires
        ups.len() == names.len(),
        forall|i: int| 0 <= i < ups.len() ==> prepared_for(#[trigger] ups[i], folder, names[i]@),
        rows_for_uploads(rows, ups, resource_id),
    ensures
        rows.len() == names.len(),
        forall|i: int|
            0 <= i < rows.len() ==> (#[trigger] rows[i]).file_name@ == sanitized_name(names[i]@)
                && rows[i].resource_id == resource_id,
{
    lemma_rows_match_files(names.map_values(|n: String| n@), folder, ups, rows, resource_id);
}

/// After every file of a request was prepared and uploaded, the recorded
/// file rows are as many as the files, and each carries the sanitized name
/// of its file, in the order of the request.
pub proof fn lemma_rows_match_files(
    names: Seq<Seq<char>>,
    folder: Seq<char>,
    ups: Seq<PreparedUpload>,
    rows: Seq<CourseResourceFile>,
    resource_id: u128,
)
    requires
        ups.len() == names.len(),
        forall|i: int| 0 <= i < ups.len() ==> prepared_for(#[trigger] ups[i], folder, names[i]),
        rows_for_uploads(rows, ups, resource_id),
    ensures
        rows.len() == names.len(),
        forall|i: int|
            0 <= i < rows.len() ==> (#[trigger] rows[i]).file_name@ == sanitized_name(names[i])
                && rows[i].resource_id == resource_id,
{
    assert forall|i: int| 0 <= i < rows.len() implies (#[trigger] rows[i]).file_name@
        == sanitized_name(names[i]) && rows[i].resource_id == resource_id by {
        assert(prepared_for(ups[i], folder, names[i]));
        assert(rows[i].file_name == ups[i].sanitized_name);
    }
}

} // verus!
