//! Object-storage naming: sanitized file names, object keys, canned
//! ACL validation and public URL construction.

use vstd::prelude::*;
use crate::strutil::lower_chars;
use crate::strutil::push_char;
use crate::strutil::str_eq;
use crate::strutil::to_ascii_lower;
use crate::strutil::trim_both_char;
use crate::strutil::trim_end_char;
use crate::strutil::trim_end_chars;
use crate::strutil::trim_seq;
use crate::strutil::trim_spaces;
use crate::strutil::trim_start_chars;

verus! {

/// Relies on uuid's Uuid::new_v4 and hyphenated formatting: nothing is
/// promised of the random value beyond its printed shape, 36
/// characters of hex and hyphens.
#[verifier::external_body]
pub(crate) fn uuid_v4_hyphenated() -> (r: String)
    ensures
        r@.len() == 36,
{
    uuid::Uuid::new_v4().to_string()
}

/// Relies on chrono's Utc::now and its formatter: the current date in
/// UTC printed as year/month/day. The value depends on the clock, so
/// only its least printed length is promised: a four-digit year or
/// longer, two slashes and two two-digit fields.
#[verifier::external_body]
fn utc_date_prefix() -> (r: String)
    ensures
        r@.len() >= 10,
{
    chrono::Utc::now().format("%Y/%m/%d").to_string()
}

/// What mime_guess reports for a file name: a pure function of the
/// name, the essence of the first guessed type, if any.
pub uninterp spec fn mime_of(name: Seq<char>) -> Option<Seq<char>>;

/// Relies on mime_guess::from_path and first_raw: the guess depends on
/// the file name alone.
#[verifier::external_body]
fn mime_first_raw(name: &str) -> (r: Option<String>)
    ensures
        r matches Some(s) ==> mime_of(name@) == Some(s@),
        r is None ==> mime_of(name@) is None,
{
    mime_guess::from_path(name).first_raw().map(|m| m.to_string())
}

/// A character that survives sanitization unchanged.
pub open spec fn spec_keep_char(c: char) -> bool {
    ('a' <= c && c <= 'z') || ('A' <= c && c <= 'Z') || ('0' <= c && c <= '9') || c == '-' || c
        == '_' || c == '.'
}

/// The sanitized form of a candidate file name: whitespace-trimmed,
/// `upload.bin` when nothing remains, every character outside the safe
/// set replaced by an underscore.
pub open spec fn spec_sanitize_file_name(s: Seq<char>) -> Seq<char> {
    let t = trim_seq(s);
    if t.len() == 0 {
        "upload.bin"@
    } else {
        Seq::new(
            t.len(),
            |i: int|
                if spec_keep_char(t[i]) {
                    t[i]
                } else {
                    '_'
                },
        )
    }
}

/// Sanitize a file name for use inside an object key.
pub fn sanitize_file_name(input: &str) -> (r: String)
    ensures
        r@ == spec_sanitize_file_name(input@),
{
    let trimmed = trim_spaces(input);
    let len = trimmed.unicode_len();
    if len == 0 {
        return String::from_str("upload.bin");
    }
    let mut out = String::new();
    let mut i: usize = 0;
    while i < len
        invariant
            i <= len,
            len == trimmed@.len(),
            trimmed@ == trim_seq(input@),
            trimmed@.len() > 0,
            out@ == spec_sanitize_file_name(input@).take(i as int),
        decreases len - i,
    {
        let c = trimmed.get_char(i);
        let keep = ('a' <= c && c <= 'z') || ('A' <= c && c <= 'Z') || ('0' <= c && c <= '9') || c
            == '-' || c == '_' || c == '.';
        if keep {
            push_char(&mut out, c);
        } else {
            push_char(&mut out, '_');
        }
        proof {
            assert(out@ =~= spec_sanitize_file_name(input@).take(i + 1));
        }
        i = i + 1;
    }
    proof {
        assert(out@ =~= spec_sanitize_file_name(input@));
    }
    out
}

/// The canned ACL names object storage accepts.
pub open spec fn spec_known_acl(a: Seq<char>) -> bool {
    a == "private"@ || a == "public-read"@ || a == "public-read-write"@ || a
        == "authenticated-read"@ || a == "aws-exec-read"@ || a == "bucket-owner-read"@ || a
        == "bucket-owner-full-control"@
}

/// Validate a requested canned ACL: absent or blank means none, a
/// known name (case-insensitively) maps to its canonical lowercase
/// form, and anything else is rejected.
pub fn map_acl(value: Option<&str>) -> (r: Result<Option<String>, String>)
    ensures
        value is None ==> r == Result::<Option<String>, String>::Ok(None::<String>),
        value matches Some(v) ==> (trim_seq(v@).len() == 0 ==> r == Result::<
            Option<String>,
            String,
        >::Ok(None::<String>)),
        value matches Some(v) ==> (trim_seq(v@).len() > 0 ==> (spec_known_acl(
            lower_chars(trim_seq(v@)),
        ) ==> (r matches Ok(o) && o matches Some(a) && a@ == lower_chars(trim_seq(v@))))),
        value matches Some(v) ==> (trim_seq(v@).len() > 0 ==> (!spec_known_acl(
            lower_chars(trim_seq(v@)),
        ) ==> r is Err)),
{
    let raw = match value {
        Some(v) => v,
        None => { return Ok(None) },
    };
    let trimmed = trim_spaces(raw);
    if trimmed.unicode_len() == 0 {
        return Ok(None);
    }
    let lowered = to_ascii_lower(trimmed);
    if str_eq(lowered.as_str(), "private") {
        Ok(Some(String::from_str("private")))
    } else if str_eq(lowered.as_str(), "public-read") {
        Ok(Some(String::from_str("public-read")))
    } else if str_eq(lowered.as_str(), "public-read-write") {
        Ok(Some(String::from_str("public-read-write")))
    } else if str_eq(lowered.as_str(), "authenticated-read") {
        Ok(Some(String::from_str("authenticated-read")))
    } else if str_eq(lowered.as_str(), "aws-exec-read") {
        Ok(Some(String::from_str("aws-exec-read")))
    } else if str_eq(lowered.as_str(), "bucket-owner-read") {
        Ok(Some(String::from_str("bucket-owner-read")))
    } else if str_eq(lowered.as_str(), "bucket-owner-full-control") {
        Ok(Some(String::from_str("bucket-owner-full-control")))
    } else {
        Err(String::from_str("unsupported ACL value: ").concat(lowered.as_str()))
    }
}

/// The public URL of an uploaded object: an explicit public base wins,
/// then a custom endpoint (with the bucket in the path when path-style
/// addressing is forced), then the standard storage host in either
/// addressing style.
pub open spec fn spec_build_public_url(
    public_base: Option<Seq<char>>,
    endpoint: Option<Seq<char>>,
    bucket: Seq<char>,
    region: Seq<char>,
    key: Seq<char>,
    force_path_style: bool,
) -> Seq<char> {
    match public_base {
        Some(b) => trim_end_chars(b, '/') + "/"@ + key,
        None => match endpoint {
            Some(e) => if force_path_style {
                trim_end_chars(e, '/') + "/"@ + bucket + "/"@ + key
            } else {
                trim_end_chars(e, '/') + "/"@ + key
            },
            None => if force_path_style {
                "https://s3."@ + region + ".amazonaws.com/"@ + bucket + "/"@ + key
            } else {
                "https://"@ + bucket + ".s3."@ + region + ".amazonaws.com/"@ + key
            },
        },
    }
}

/// Build the public URL of an uploaded object.
pub fn build_public_url(
    public_base: Option<&str>,
    endpoint: Option<&str>,
    bucket: &str,
    region: &str,
    key: &str,
    force_path_style: bool,
) -> (r: String)
    ensures
        r@ == spec_build_public_url(
            match public_base {
                Some(b) => Some(b@),
                None => None,
            },
            match endpoint {
                Some(e) => Some(e@),
                None => None,
            },
            bucket@,
            region@,
            key@,
            force_path_style,
        ),
{
    if let Some(base) = public_base {
        let trimmed = trim_end_char(base, '/');
        return String::from_str(trimmed).concat("/").concat(key);
    }
    if let Some(e) = endpoint {
        let trimmed = trim_end_char(e, '/');
        if force_path_style {
            return String::from_str(trimmed).concat("/").concat(bucket).concat("/").concat(key);
        }
        return String::from_str(trimmed).concat("/").concat(key);
    }
    if force_path_style {
        String::from_str("https://s3.").concat(region).concat(".amazonaws.com/").concat(
            bucket,
        ).concat("/").concat(key)
    } else {
        String::from_str("https://").concat(bucket).concat(".s3.").concat(region).concat(
            ".amazonaws.com/",
        ).concat(key)
    }
}

/// The shape of an object key: the optional prefix stripped of
/// surrounding slashes when it has substance, then the date path, then
/// a unique file segment.
pub open spec fn spec_object_key(
    prefix: Option<Seq<char>>,
    date: Seq<char>,
    unique: Seq<char>,
    name: Seq<char>,
) -> Seq<char> {
    let tail = date + "/"@ + unique + "-"@ + spec_sanitize_file_name(name);
    match prefix {
        Some(p) => if trim_end_chars(trim_start_chars(p, '/'), '/').len() > 0 {
            trim_end_chars(trim_start_chars(p, '/'), '/') + "/"@ + tail
        } else {
            tail
        },
        None => tail,
    }
}

/// Generate a fresh object key for an upload: optional prefix, the
/// current UTC date as a path, and a UUID joined to the sanitized file
/// name. Date and UUID vary per call, so the key is only pinned up to
/// them.
pub fn generate_object_key(prefix: Option<&str>, original_name: &str) -> (r: String)
    ensures
        exists|date: Seq<char>, unique: Seq<char>|
            date.len() >= 10 && unique.len() == 36 && r@ == spec_object_key(
                match prefix {
                    Some(p) => Some(p@),
                    None => None,
                },
                date,
                unique,
                original_name@,
            ),
{
    let sanitized = sanitize_file_name(original_name);
    let unique = uuid_v4_hyphenated();
    let date = utc_date_prefix();
    let tail = String::from_str(date.as_str()).concat("/").concat(unique.as_str()).concat(
        "-",
    ).concat(sanitized.as_str());
    let r = match prefix {
        Some(p) => {
            let trimmed = trim_both_char(p, '/');
            if trimmed.unicode_len() > 0 {
                String::from_str(trimmed).concat("/").concat(tail.as_str())
            } else {
                tail
            }
        },
        None => tail,
    };
    proof {
        let date_v = date@;
        let unique_v = unique@;
        assert(date_v.len() >= 10 && unique_v.len() == 36 && r@ == spec_object_key(
            match prefix {
                Some(p) => Some(p@),
                None => None::<Seq<char>>,
            },
            date_v,
            unique_v,
            original_name@,
        ));
    }
    r
}

/// The advisory Content-Type for a file name: the first guess, trimmed,
/// and only when something remains of it.
pub fn resolve_content_type(file_name: &str) -> (r: Option<String>)
    ensures
        mime_of(file_name@) is None ==> r is None,
        mime_of(file_name@) matches Some(m) ==> (trim_seq(m).len() == 0 ==> r is None),
        mime_of(file_name@) matches Some(m) ==> (trim_seq(m).len() > 0 ==> (r matches Some(s)
            && s@ == trim_seq(m))),
{
    match mime_first_raw(file_name) {
        None => None,
        Some(m) => {
            let trimmed = trim_spaces(m.as_str());
            if trimmed.unicode_len() == 0 {
                None
            } else {
                Some(String::from_str(trimmed))
            }
        },
    }
}

} // verus!
