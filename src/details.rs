//! Assembling a course's details from the rows that the store returned.
//! Resources whose file lookup failed are left out of the result rather than
//! failing the whole request: a lenient policy that loses those resources.
use vstd::prelude::*;
use crate::model::{
    Course,
    CourseDetails,
    CourseDetailsLinkResponse,
    CourseDetailsResourceResponse,
    CourseResource,
    CourseResourceFile,
    CourseResourceLink,
};
use crate::text::{ascii_upper, ascii_upper_text, is_ascii_text, to_upper, upper_of};

verus! {

/// Why a course's details could not be had.
pub enum DetailsError {
    /// No course has the requested id.
    NotFound,
    /// The store failed; the message is the store's.
    Storage(String),
}

/// The resources that keep their place in the details: each one whose file
/// lookup succeeded, with those files, in the order given.
pub open spec fn kept_resources(
    resources: Seq<CourseResource>,
    files: Seq<Result<Vec<CourseResourceFile>, String>>,
) -> Seq<CourseDetailsResourceResponse>
    decreases resources.len(),
{
    if resources.len() == 0 || files.len() == 0 {
        Seq::empty()
    } else {
        let rest = kept_resources(resources.drop_first(), files.drop_first());
        match files[0] {
            Ok(f) => seq![CourseDetailsResourceResponse { resource_info: resources[0], files: f }]
                + rest,
            Err(_) => rest,
        }
    }
}

/// The public shape of a link row.
pub open spec fn link_response(l: CourseResourceLink) -> CourseDetailsLinkResponse {
    CourseDetailsLinkResponse { title: l.link_title, url: l.link_url }
}

/// The id under which a course is stored: the requested id in upper case.
pub fn canonical_course_id(course_id: &str) -> (r: String)
    ensures
        r@ == upper_of(course_id@),
        is_ascii_text(course_id@) ==> r@ == ascii_upper_text(course_id@),
{
    to_upper(course_id)
}

/// The outcome of the primary lookup: a missing course is `NotFound`, a
/// failing store is `Storage`.
pub fn course_lookup_outcome(lookup: Result<Option<Course>, String>) -> (r: Result<
    Course,
    DetailsError,
>)
    ensures
        lookup matches Ok(Some(c)) ==> r == Ok::<Course, DetailsError>(c),
        lookup matches Ok(None) ==> r == Err::<Course, DetailsError>(DetailsError::NotFound),
        lookup matches Err(e) ==> r == Err::<Course, DetailsError>(DetailsError::Storage(e)),
{
    match lookup {
        Ok(Some(c)) => Ok(c),
        Ok(None) => Err(DetailsError::NotFound),
        Err(e) => Err(DetailsError::Storage(e)),
    }
}

/// Maps link rows to their public shape, keeping their order.
pub fn links_to_response(links: Vec<CourseResourceLink>) -> (r: Vec<CourseDetailsLinkResponse>)
    ensures
        r@ == links@.map_values(|l: CourseResourceLink| link_response(l)),
{
    let ghost orig = links@;
    let mut links = links;
    let mut out: Vec<CourseDetailsLinkResponse> = Vec::new();
    while links.len() > 0
        invariant
            out@.len() + links@.len() == orig.len(),
            links@ == orig.subrange(out@.len() as int, orig.len() as int),
            out@ == orig.subrange(0, out@.len() as int).map_values(
                |l: CourseResourceLink| link_response(l),
            ),
        decreases links@.len(),
    {
        let l = links.remove(0);
        let ghost k: int = out@.len() as int;
        out.push(CourseDetailsLinkResponse { title: l.link_title, url: l.link_url });
        proof {
            assert(orig.subrange(0, k + 1).map_values(|l: CourseResourceLink| link_response(l))
                =~= orig.subrange(0, k).map_values(
                |l: CourseResourceLink| link_response(l),
            ).push(link_response(orig[k])));
            assert(links@ =~= orig.subrange(k + 1, orig.len() as int));
        }
    }
    proof {
        assert(orig.subrange(0, orig.len() as int) =~= orig);
    }
    out
}

/// Pairs each resource with the outcome of its file lookup and keeps those
/// whose lookup succeeded.
pub fn collect_resources(
    resources: Vec<CourseResource>,
    files: Vec<Result<Vec<CourseResourceFile>, String>>,
) -> (r: Vec<CourseDetailsResourceResponse>)
    requires
        resources@.len() == files@.len(),
    ensures
        r@ == kept_resources(resources@, files@),
{
    let mut resources = resources;
    let mut files = files;
    let mut out: Vec<CourseDetailsResourceResponse> = Vec::new();
    let ghost whole = kept_resources(resources@, files@);
    while resources.len() > 0
        invariant
            resources@.len() == files@.len(),
            whole == out@ + kept_resources(resources@, files@),
        decreases resources@.len(),
    {
        let ghost rs = resources@;
        let ghost fs = files@;
        let res = resources.remove(0);
        let f = files.remove(0);
        proof {
            assert(resources@ =~= rs.drop_first());
            assert(files@ =~= fs.drop_first());
        }
        match f {
            Ok(fl) => {
                out.push(CourseDetailsResourceResponse { resource_info: res, files: fl });
                proof {
                    assert(whole =~= out@ + kept_resources(resources@, files@));
                }
            },
            Err(_) => {},
        }
    }
    proof {
        assert(out@ + kept_resources(resources@, files@) =~= out@);
    }
    out
}

/// The details of a found course from the outcomes of its child queries. Any
/// failing query but a resource's file lookup fails the whole request.
pub fn assemble_course_details(
    metadata: Course,
    resources: Result<Vec<CourseResource>, String>,
    files: Vec<Result<Vec<CourseResourceFile>, String>>,
    links: Result<Vec<CourseResourceLink>, String>,
    no_notes: Result<i64, String>,
    no_exams: Result<i64, String>,
) -> (r: Result<CourseDetails, DetailsError>)
    requires
        resources matches Ok(rs) ==> rs@.len() == files@.len(),
    ensures
        resources matches Err(e) ==> r == Err::<CourseDetails, DetailsError>(
            DetailsError::Storage(e),
        ),
        resources is Ok ==> (links matches Err(e) ==> r == Err::<CourseDetails, DetailsError>(
            DetailsError::Storage(e),
        )),
        resources is Ok && links is Ok ==> (no_notes matches Err(e) ==> r == Err::<
            CourseDetails,
            DetailsError,
        >(DetailsError::Storage(e))),
        resources is Ok && links is Ok && no_notes is Ok ==> (no_exams matches Err(e) ==> r
            == Err::<CourseDetails, DetailsError>(DetailsError::Storage(e))),
        resources matches Ok(rs) ==> links matches Ok(ls) ==> no_notes matches Ok(n)
            ==> no_exams matches Ok(x) ==> (r matches Ok(d) && d.metadata == metadata
            && d.resources@ == kept_resources(rs@, files@) && d.links@ == ls@.map_values(
            |l: CourseResourceLink| link_response(l),
        ) && d.no_notes == n && d.no_exams == x),
{
    let rs = match resources {
        Ok(rs) => rs,
        Err(e) => return Err(DetailsError::Storage(e)),
    };
    let ls = match links {
        Ok(ls) => ls,
        Err(e) => return Err(DetailsError::Storage(e)),
    };
    let n = match no_notes {
        Ok(n) => n,
        Err(e) => return Err(DetailsError::Storage(e)),
    };
    let x = match no_exams {
        Ok(x) => x,
        Err(e) => return Err(DetailsError::Storage(e)),
    };
    let kept = collect_resources(rs, files);
    let public_links = links_to_response(ls);
    Ok(CourseDetails { metadata, resources: kept, links: public_links, no_notes: n, no_exams: x })
}

/// Course ids that differ only in the case of ASCII letters are looked up
/// under the same stored id.
pub proof fn lemma_case_insensitive_lookup(a: Seq<char>, b: Seq<char>)
    requires
        is_ascii_text(a),
        is_ascii_text(b),
        a.len() == b.len(),
        forall|i: int| 0 <= i < a.len() ==> ascii_upper(#[trigger] a[i]) == ascii_upper(b[i]),
    ensures
        ascii_upper_text(a) == ascii_upper_text(b),
{
    assert(ascii_upper_text(a) =~= ascii_upper_text(b));
}

} // verus!
