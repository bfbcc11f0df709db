//! Character-level helpers: file-name sanitizing, content types by extension,
//! and the case mappings of std that course ids and semesters go through.
use vstd::prelude::*;
use vstd::string::*;

verus! {

/// The characters that a stored file name may not hold.
pub open spec fn is_unsafe_name_char(c: char) -> bool {
    c == ' ' || c == '#' || c == '\'' || c == '"' || c == ':' || c == ';' || c == '|'
}

pub open spec fn sanitized_char(c: char) -> char {
    if is_unsafe_name_char(c) {
        '_'
    } else {
        c
    }
}

/// A file name with every unsafe character replaced by an underscore.
pub open spec fn sanitized_name(s: Seq<char>) -> Seq<char> {
    Seq::new(s.len(), |i: int| sanitized_char(s[i]))
}

/// Index of the last `.` among the first `n` characters of `s`, or -1.
pub open spec fn last_dot_before(s: Seq<char>, n: int) -> int
    decreases n,
{
    if n <= 0 {
        -1
    } else if s[n - 1] == '.' {
        n - 1
    } else {
        last_dot_before(s, n - 1)
    }
}

/// What follows the last `.` of a file name, or the whole name when it has none.
pub open spec fn extension_of(s: Seq<char>) -> Seq<char> {
    s.subrange(last_dot_before(s, s.len() as int) + 1, s.len() as int)
}

/// The MIME type stored with an uploaded object of the given extension.
pub open spec fn content_type_for(ext: Seq<char>) -> Seq<char> {
    if ext == "pdf"@ {
        "application/pdf"@
    } else if ext == "docx"@ {
        "application/vnd.openxmlformats-officedocument.wordprocessingml.document"@
    } else if ext == "pptx"@ || ext == "ppt"@ {
        "application/vnd.ms-powerpoint"@
    } else if ext == "jpg"@ || ext == "jpeg"@ {
        "image/jpeg"@
    } else if ext == "png"@ {
        "image/png"@
    } else if ext == "gif"@ {
        "image/gif"@
    } else {
        "application/octet-stream"@
    }
}

/// What `str::to_uppercase` returns for the given characters.
pub uninterp spec fn upper_of(s: Seq<char>) -> Seq<char>;

pub open spec fn is_ascii_text(s: Seq<char>) -> bool {
    forall|i: int| 0 <= i < s.len() ==> (s[i] as u32) < 128
}

/// An ASCII letter `a`-`z` in upper case; any other character unchanged.
pub open spec fn ascii_upper(c: char) -> char {
    if 'a' <= c && c <= 'z' {
        (((c as u32) - 32) as u8) as char
    } else {
        c
    }
}

/// An ASCII letter `A`-`Z` in lower case; any other character unchanged.
pub open spec fn ascii_lower(c: char) -> char {
    if 'A' <= c && c <= 'Z' {
        (((c as u32) + 32) as u8) as char
    } else {
        c
    }
}

pub open spec fn ascii_upper_text(s: Seq<char>) -> Seq<char> {
    Seq::new(s.len(), |i: int| ascii_upper(s[i]))
}

pub open spec fn ascii_lower_text(s: Seq<char>) -> Seq<char> {
    Seq::new(s.len(), |i: int| ascii_lower(s[i]))
}

/// What `str::to_lowercase` returns for the given characters.
pub uninterp spec fn lower_of(s: Seq<char>) -> Seq<char>;

/// Relies on `String::push`: appends one character.
#[verifier::external_body]
pub(crate) fn push_char(s: &mut String, c: char)
    ensures
        final(s)@ == old(s)@.push(c),
{
    s.push(c)
}

/// Relies on `str::to_uppercase`: the result depends on the characters alone,
/// and on ASCII text it maps `a`-`z` to `A`-`Z` and keeps every other character.
#[verifier::external_body]
pub(crate) fn to_upper(s: &str) -> (r: String)
    ensures
        r@ == upper_of(s@),
        is_ascii_text(s@) ==> r@ == ascii_upper_text(s@),
{
    s.to_uppercase()
}

/// Relies on `str::to_lowercase`: the result depends on the characters alone,
/// and on ASCII text it maps `A`-`Z` to `a`-`z` and keeps every other character.
#[verifier::external_body]
pub(crate) fn to_lower(s: &str) -> (r: String)
    ensures
        r@ == lower_of(s@),
        is_ascii_text(s@) ==> r@ == ascii_lower_text(s@),
{
    s.to_lowercase()
}

/// Replaces space, `#`, `'`, `"`, `:`, `;` and `|` with `_`.
pub fn sanitize_file_name_to_upload(file_name: String) -> (r: String)
    ensures
        r@ == sanitized_name(file_name@),
{
    let n = file_name.as_str().unicode_len();
    let mut out = String::new();
    let mut i: usize = 0;
    while i < n
        invariant
            n == file_name@.len(),
            i <= n,
            out@ == sanitized_name(file_name@.subrange(0, i as int)),
        decreases n - i,
    {
        let c = file_name.as_str().get_char(i);
        let d = if c == ' ' || c == '#' || c == '\'' || c == '"' || c == ':' || c == ';' || c
            == '|' {
            '_'
        } else {
            c
        };
        push_char(&mut out, d);
        proof {
            assert(sanitized_name(file_name@.subrange(0, i + 1)) =~= sanitized_name(
                file_name@.subrange(0, i as int),
            ).push(d));
        }
        i = i + 1;
    }
    proof {
        assert(file_name@.subrange(0, n as int) =~= file_name@);
    }
    out
}

/// Whether the characters of `s` from `start` on are exactly those of `lit`.
fn tail_equals(s: &str, start: usize, lit: &str) -> (r: bool)
    requires
        start <= s@.len(),
    ensures
        r == (s@.subrange(start as int, s@.len() as int) == lit@),
{
    let n = s.unicode_len();
    let m = lit.unicode_len();
    if n - start != m {
        proof {
            assert(s@.subrange(start as int, s@.len() as int).len() != lit@.len());
        }
        return false;
    }
    let mut k: usize = 0;
    while k < m
        invariant
            n == s@.len(),
            m == lit@.len(),
            n - start == m,
            start <= n,
            k <= m,
            forall|j: int| 0 <= j < k ==> s@[start + j] == lit@[j],
        decreases m - k,
    {
        if s.get_char(start + k) != lit.get_char(k) {
            proof {
                let t = s@.subrange(start as int, s@.len() as int);
                assert(t[k as int] != lit@[k as int]);
            }
            return false;
        }
        k = k + 1;
    }
    proof {
        assert(s@.subrange(start as int, s@.len() as int) =~= lit@);
    }
    true
}

/// The position just after the last `.` of `s`, or 0 when it has none.
fn extension_start(s: &str) -> (r: usize)
    ensures
        r as int == last_dot_before(s@, s@.len() as int) + 1,
        r <= s@.len(),
{
    let mut i: usize = s.unicode_len();
    while i > 0
        invariant
            i <= s@.len(),
            last_dot_before(s@, s@.len() as int) == last_dot_before(s@, i as int),
        decreases i,
    {
        if s.get_char(i - 1) == '.' {
            return i;
        }
        i = i - 1;
    }
    0
}

/// The MIME type for a file name, chosen by its extension.
pub fn file_content_type(file_name: String) -> (r: String)
    ensures
        r@ == content_type_for(extension_of(file_name@)),
{
    let s = file_name.as_str();
    let start = extension_start(s);
    if tail_equals(s, start, "pdf") {
        String::from_str("application/pdf")
    } else if tail_equals(s, start, "docx") {
        String::from_str("application/vnd.openxmlformats-officedocument.wordprocessingml.document")
    } else if tail_equals(s, start, "pptx") || tail_equals(s, start, "ppt") {
        String::from_str("application/vnd.ms-powerpoint")
    } else if tail_equals(s, start, "jpg") || tail_equals(s, start, "jpeg") {
        String::from_str("image/jpeg")
    } else if tail_equals(s, start, "png") {
        String::from_str("image/png")
    } else if tail_equals(s, start, "gif") {
        String::from_str("image/gif")
    } else {
        String::from_str("application/octet-stream")
    }
}


/// Whether two strings hold the same characters.
pub(crate) fn same_chars(a: &str, b: &str) -> (r: bool)
    ensures
        r == (a@ == b@),
{
    let r = tail_equals(a, 0, b);
    proof {
        assert(a@.subrange(0, a@.len() as int) =~= a@);
    }
    r
}

/// Whether a text holds nothing but spaces.
pub open spec fn is_blank(s: Seq<char>) -> bool {
    forall|i: int| 0 <= i < s.len() ==> s[i] == ' '
}

/// Whether `s` is empty once its spaces are removed.
pub fn is_blank_text(s: &str) -> (r: bool)
    ensures
        r == is_blank(s@),
{
    let n = s.unicode_len();
    let mut i: usize = 0;
    while i < n
        invariant
            n == s@.len(),
            i <= n,
            forall|j: int| 0 <= j < i ==> s@[j] == ' ',
        decreases n - i,
    {
        if s.get_char(i) != ' ' {
            return false;
        }
        i = i + 1;
    }
    true
}

} // verus!
