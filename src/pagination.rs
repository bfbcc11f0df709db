//! The course listing: the filter shared by the page query and the count
//! query, and the page window.
use vstd::prelude::*;

verus! {

/// Number of courses on one page of the listing.
pub const COURSES_PER_PAGE: i64 = 12;

/// The page that a requested page number stands for: absent or non-positive
/// means the first page.
pub open spec fn page_number(page: Option<i64>) -> int {
    match page {
        Some(p) => if p > 0 {
            p as int
        } else {
            1
        },
        None => 1,
    }
}

/// Offset of the first row of a page.
pub open spec fn page_offset(page: Option<i64>) -> int {
    (page_number(page) - 1) * COURSES_PER_PAGE
}

/// The `LIKE` pattern that matches any text holding `term`.
pub open spec fn wildcard_pattern(term: Seq<char>) -> Seq<char> {
    seq!['%'] + term + seq!['%']
}

/// The row predicate of a listing: a case-insensitive match of `pattern`
/// against the course id or name, and an exact faculty code.
pub struct CourseFilter {
    pub pattern: Option<String>,
    pub faculty: Option<i16>,
}

/// The order in which listed courses come.
#[derive(Clone, Copy, Debug, PartialEq, Eq)]
pub enum CourseOrder {
    /// Ascending by course id; ids are unique, so the order is total.
    CourseIdAscending,
}

/// A listing request as the store runs it: the rows that pass `filter`,
/// sorted by `order`, and of those `page_rows(sorted, offset, limit)`. The
/// total count is taken over `filter` alone.
pub struct CourseQuery {
    pub filter: CourseFilter,
    pub order: CourseOrder,
    pub limit: i64,
    pub offset: i64,
}

/// The rows of one page: `limit` rows of `rows` from `offset` on, fewer at
/// the end, none past it.
pub open spec fn page_rows<T>(rows: Seq<T>, offset: int, limit: int) -> Seq<T> {
    let lo = if offset < rows.len() {
        offset
    } else {
        rows.len() as int
    };
    let hi = if offset + limit < rows.len() {
        offset + limit
    } else {
        rows.len() as int
    };
    rows.subrange(lo, hi)
}

/// Pages 1 to `k` of `rows`, one after another.
pub open spec fn first_pages<T>(rows: Seq<T>, k: nat) -> Seq<T>
    decreases k,
{
    if k == 0 {
        Seq::empty()
    } else {
        first_pages(rows, (k - 1) as nat) + page_rows(
            rows,
            page_offset(Some((k as int) as i64)),
            COURSES_PER_PAGE as int,
        )
    }
}

impl CourseFilter {
    pub open spec fn view(&self) -> (Option<Seq<char>>, Option<i16>) {
        (
            match self.pattern {
                Some(p) => Some(p@),
                None => None,
            },
            self.faculty,
        )
    }
}

impl CourseQuery {
    pub open spec fn view(&self) -> ((Option<Seq<char>>, Option<i16>), int, int) {
        (self.filter.view(), self.limit as int, self.offset as int)
    }
}

/// The filter that a search term and a faculty code ask for.
pub open spec fn filter_spec(faculty: Option<i16>, search: Option<Seq<char>>) -> (
    Option<Seq<char>>,
    Option<i16>,
) {
    (
        match search {
            Some(t) => Some(wildcard_pattern(t)),
            None => None,
        },
        faculty,
    )
}

/// The listing request for the given parameters.
pub open spec fn course_query_spec(
    faculty: Option<i16>,
    search: Option<Seq<char>>,
    page: Option<i64>,
) -> ((Option<Seq<char>>, Option<i16>), int, int) {
    (filter_spec(faculty, search), COURSES_PER_PAGE as int, page_offset(page))
}

pub open spec fn opt_view(s: Option<String>) -> Option<Seq<char>> {
    match s {
        Some(t) => Some(t@),
        None => None,
    }
}

/// Whether a page number can be turned into a row offset without overflow.
pub open spec fn page_in_range(page: Option<i64>) -> bool {
    page_offset(page) <= i64::MAX
}

/// Page number to use: `page` when it is positive, else 1.
pub fn sanitize_page_input(page: Option<i64>) -> (r: i64)
    ensures
        r as int == page_number(page),
        r >= 1,
{
    match page {
        Some(p) => if p <= 0 {
            1
        } else {
            p
        },
        None => 1,
    }
}

pub fn courses_per_page() -> (r: i64)
    ensures
        r == COURSES_PER_PAGE,
{
    COURSES_PER_PAGE
}

/// `%term%`.
pub fn search_pattern(term: &str) -> (r: String)
    ensures
        r@ == wildcard_pattern(term@),
{
    let mut out = String::from_str("%");
    out.append(term);
    out.append("%");
    proof {
        reveal_strlit("%");
    }
    assert(out@ =~= wildcard_pattern(term@));
    out
}

/// The listing request for a faculty code, a search term and a page number.
pub fn build_course_query(faculty: Option<i16>, search: Option<String>, page: Option<i64>) -> (r:
    CourseQuery)
    requires
        page_in_range(page),
    ensures
        r.view() == course_query_spec(faculty, opt_view(search), page),
        r.order == CourseOrder::CourseIdAscending,
{
    let pattern = match search {
        Some(t) => Some(search_pattern(t.as_str())),
        None => None,
    };
    let limit = courses_per_page();
    let p = sanitize_page_input(page);
    let offset = (p - 1) * limit;
    CourseQuery {
        filter: CourseFilter { pattern, faculty },
        order: CourseOrder::CourseIdAscending,
        limit,
        offset,
    }
}

/// The count query runs on the same filter whatever page is asked for, so
/// the total counts the whole filtered set, not one page of it.
pub proof fn lemma_total_independent_of_page(
    faculty: Option<i16>,
    search: Option<Seq<char>>,
    page_a: Option<i64>,
    page_b: Option<i64>,
)
    ensures
        course_query_spec(faculty, search, page_a).0 == course_query_spec(faculty, search, page_b).0,
        course_query_spec(faculty, search, page_a).0 == filter_spec(faculty, search),
{
}

/// Two requests with the same parameters are the same request: same filter,
/// same order, same window.
pub proof fn lemma_listing_repeatable(
    q1: CourseQuery,
    q2: CourseQuery,
    faculty: Option<i16>,
    search: Option<Seq<char>>,
    page: Option<i64>,
)
    requires
        q1.view() == course_query_spec(faculty, search, page),
        q2.view() == course_query_spec(faculty, search, page),
    ensures
        q1.view() == q2.view(),
{
}

/// A page number of zero or less asks for the same rows as page 1.
pub proof fn lemma_nonpositive_page_is_first(faculty: Option<i16>, search: Option<Seq<char>>, p: i64)
    requires
        p <= 0,
    ensures
        course_query_spec(faculty, search, Some(p)) == course_query_spec(faculty, search, Some(1)),
        course_query_spec(faculty, search, None) == course_query_spec(faculty, search, Some(1)),
        course_query_spec(faculty, search, Some(1)).2 == 0,
{
}

/// Pages 1 to `k` of the ordered matching rows hold each of the first
/// `12 * k` rows once, in order; enough pages hold the whole set, each row on
/// exactly one page.
pub proof fn lemma_pages_cover<T>(rows: Seq<T>, k: nat)
    requires
        k <= i64::MAX,
    ensures
        first_pages(rows, k) == rows.subrange(
            0,
            if k * COURSES_PER_PAGE < rows.len() {
                k * COURSES_PER_PAGE
            } else {
                rows.len() as int
            },
        ),
        k * COURSES_PER_PAGE >= rows.len() ==> first_pages(rows, k) == rows,
    decreases k,
{
    if k > 0 {
        lemma_pages_cover(rows, (k - 1) as nat);
        assert(page_offset(Some((k as int) as i64)) == (k - 1) * COURSES_PER_PAGE);
        let prev = first_pages(rows, (k - 1) as nat);
        let hi = if k * COURSES_PER_PAGE < rows.len() {
            k * COURSES_PER_PAGE
        } else {
            rows.len() as int
        };
        assert(first_pages(rows, k) =~= rows.subrange(0, hi));
    } else {
        assert(first_pages(rows, 0) =~= rows.subrange(0, 0));
    }
    if k * COURSES_PER_PAGE >= rows.len() {
        assert(rows.subrange(0, rows.len() as int) =~= rows);
    }
}

} // verus!
