use vstd::prelude::*;

use vstd::string::StrSliceExecFns;
use vstd::string::StringSliceAdditionalSpecFns;

use crate::error::XCapError;

verus! {

/// Relies on rand::random: draws a value from the thread-local generator.
/// Nothing is promised of the value.
pub assume_specification<T>[ rand::random::<T> ]() -> (r: T)
    where
        rand::distributions::Standard: rand::distributions::Distribution<T>,
;

/// Decimal digits of `n`, most significant first, without leading zeros.
pub open spec fn decimal(n: nat) -> Seq<char>
    decreases n,
{
    if n < 10 {
        seq![digit_char(n)]
    } else {
        decimal(n / 10).push(digit_char(n % 10))
    }
}

pub open spec fn digit_char(d: nat) -> char {
    ((d + 48) as u8) as char
}

/// The ASCII bytes of a sequence of ASCII characters.
pub open spec fn ascii_bytes(s: Seq<char>) -> Seq<u8> {
    s.map_values(|c: char| c as u8)
}

/// `s` with every leading `:` removed.
pub open spec fn trim_leading_colons(s: Seq<u8>) -> Seq<u8>
    decreases s.len(),
{
    if s.len() > 0 && s[0] == 0x3au8 {
        trim_leading_colons(s.subrange(1, s.len() as int))
    } else {
        s
    }
}

/// The path segment a portal derives from a bus unique name: leading `:`
/// removed and every `.` replaced by `_`.
pub open spec fn object_path_segment(unique_name: Seq<u8>) -> Seq<u8> {
    trim_leading_colons(unique_name).map_values(|c: u8| if c == 0x2eu8 { 0x5fu8 } else { c })
}

/// `base`, then the segment of `unique_name`, then `/` and `token`.
pub open spec fn portal_path(base: Seq<u8>, unique_name: Seq<u8>, token: Seq<u8>) -> Seq<u8> {
    base + object_path_segment(unique_name) + seq![0x2fu8] + token
}

/// Relies on std's `Display` for `u32` (through `format!`): decimal digits.
#[verifier::external_body]
fn response_code_message(code: u32) -> (r: String)
    ensures
        r@ == "Response code is "@ + decimal(code as nat),
{
    format!("Response code is {code}")
}

/// The decimal digits of `n` as ASCII bytes.
pub fn decimal_bytes(n: u32) -> (r: Vec<u8>)
    ensures
        r@ == ascii_bytes(decimal(n as nat)),
    decreases n,
{
    if n < 10 {
        let r = vec![(n as u8) + 48];
        assert(r@ =~= ascii_bytes(decimal(n as nat)));
        r
    } else {
        let mut r = decimal_bytes(n / 10);
        r.push(((n % 10) as u8) + 48);
        assert(r@ =~= ascii_bytes(decimal(n as nat)));
        r
    }
}

/// A fresh request token: the decimal digits of a random number.
pub fn random_token() -> (r: Vec<u8>)
    ensures
        exists|n: u32| r@ == ascii_bytes(decimal(n as nat)),
{
    let n: u32 = rand::random::<u32>();
    decimal_bytes(n)
}

fn append_bytes(out: &mut Vec<u8>, s: &[u8])
    ensures
        final(out)@ == old(out)@ + s@,
{
    let mut i: usize = 0;
    while i < s.len()
        invariant
            i <= s@.len(),
            out@ == old(out)@ + s@.subrange(0, i as int),
        decreases s@.len() - i,
    {
        out.push(s[i]);
        assert(s@.subrange(0, (i + 1) as int) =~= s@.subrange(0, i as int).push(s@[i as int]));
        i = i + 1;
    }
    assert(s@.subrange(0, s@.len() as int) =~= s@);
}

/// The portal's path segment for a bus unique name (`:1.42` becomes `1_42`).
pub fn unique_identifier(unique_name: &[u8]) -> (r: Vec<u8>)
    ensures
        r@ == object_path_segment(unique_name@),
{
    let mut start: usize = 0;
    assert(unique_name@.subrange(0, unique_name@.len() as int) =~= unique_name@);
    while start < unique_name.len() && unique_name[start] == 0x3a
        invariant
            start <= unique_name@.len(),
            trim_leading_colons(unique_name@) == trim_leading_colons(
                unique_name@.subrange(start as int, unique_name@.len() as int),
            ),
        decreases unique_name@.len() - start,
    {
        let ghost rest = unique_name@.subrange(start as int, unique_name@.len() as int);
        assert(rest.subrange(1, rest.len() as int) =~= unique_name@.subrange(
            start + 1,
            unique_name@.len() as int,
        ));
        start = start + 1;
    }
    let ghost trimmed = unique_name@.subrange(start as int, unique_name@.len() as int);
    assert(trim_leading_colons(trimmed) == trimmed);
    let mut out: Vec<u8> = Vec::new();
    let mut i: usize = start;
    while i < unique_name.len()
        invariant
            start <= i <= unique_name@.len(),
            trimmed == unique_name@.subrange(start as int, unique_name@.len() as int),
            out@ == trimmed.subrange(0, i - start).map_values(
                |c: u8| if c == 0x2eu8 { 0x5fu8 } else { c },
            ),
        decreases unique_name@.len() - i,
    {
        let c = unique_name[i];
        out.push(if c == 0x2e { 0x5f } else { c });
        assert(trimmed.subrange(0, i + 1 - start) =~= trimmed.subrange(0, i - start).push(c));
        i = i + 1;
    }
    assert(trimmed.subrange(0, trimmed.len() as int) =~= trimmed);
    out
}

fn object_path(base: &str, unique_name: &[u8], token: &[u8]) -> (r: Vec<u8>)
    ensures
        r@ == portal_path(base.spec_bytes(), unique_name@, token@),
{
    let mut out: Vec<u8> = Vec::new();
    append_bytes(&mut out, base.as_bytes());
    let id = unique_identifier(unique_name);
    append_bytes(&mut out, id.as_slice());
    out.push(0x2f);
    append_bytes(&mut out, token);
    assert(out@ =~= portal_path(base.spec_bytes(), unique_name@, token@));
    out
}

/// Object path of the request object the portal creates for `handle_token`.
pub fn request_path(unique_name: &[u8], handle_token: &[u8]) -> (r: Vec<u8>)
    ensures
        r@ == portal_path(
            "/org/freedesktop/portal/desktop/request/".spec_bytes(),
            unique_name@,
            handle_token@,
        ),
{
    object_path("/org/freedesktop/portal/desktop/request/", unique_name, handle_token)
}

/// Object path of the session the portal creates for `session_handle_token`.
pub fn session_path(unique_name: &[u8], session_handle_token: &[u8]) -> (r: Vec<u8>)
    ensures
        r@ == portal_path(
            "/org/freedesktop/portal/desktop/session/".spec_bytes(),
            unique_name@,
            session_handle_token@,
        ),
{
    object_path("/org/freedesktop/portal/desktop/session/", unique_name, session_handle_token)
}

/// Checks the session handle a `CreateSession` reply names against the path the
/// session was requested under.
pub fn check_session_handle(expected: &[u8], session_handle: &[u8]) -> (r: Result<(), XCapError>)
    ensures
        r.is_ok() <==> expected@ == session_handle@,
        r matches Err(e) ==> e matches XCapError::Error(m) && m@ == "Session handle mismatch"@,
{
    if expected.len() != session_handle.len() {
        return Err(XCapError::new("Session handle mismatch"));
    }
    let mut i: usize = 0;
    while i < expected.len()
        invariant
            i <= expected@.len(),
            expected@.len() == session_handle@.len(),
            forall|j: int| 0 <= j < i ==> expected@[j] == session_handle@[j],
        decreases expected@.len() - i,
    {
        if expected[i] != session_handle[i] {
            return Err(XCapError::new("Session handle mismatch"));
        }
        i = i + 1;
    }
    assert(expected@ =~= session_handle@);
    Ok(())
}

/// The outcome of a portal request from the code of its `Response` signal:
/// 0 is success, 1 means the user cancelled, anything else failed.
pub fn response_result<T>(code: u32, body: T) -> (r: Result<T, XCapError>)
    ensures
        code == 0 <==> r.is_ok(),
        r matches Ok(b) ==> b == body,
        r matches Err(e) ==> e matches XCapError::Error(m) && m@ == if code == 1 {
            "Z-Bus canceled"@
        } else {
            "Response code is "@ + decimal(code as nat)
        },
{
    if code == 0 {
        Ok(body)
    } else if code == 1 {
        Err(XCapError::new("Z-Bus canceled"))
    } else {
        Err(XCapError::Error(response_code_message(code)))
    }
}

/// What `str::to_lowercase` makes of a string.
pub uninterp spec fn lower_of(s: Seq<char>) -> Seq<char>;

/// Relies on str::to_lowercase: the result depends on the characters alone.
#[verifier::external_body]
fn lowercase(s: &str) -> (r: String)
    ensures
        r@ == lower_of(s@),
{
    s.to_lowercase()
}

/// `needle` occurs in `hay` as a contiguous run.
pub open spec fn contains_seq(hay: Seq<char>, needle: Seq<char>) -> bool {
    exists|i: int|
        0 <= i && i + needle.len() <= hay.len() && #[trigger] hay.subrange(i, i + needle.len())
            == needle
}

/// Whether `needle` occurs in `hay` at character `at`.
fn matches_at(hay: &str, needle: &str, at: usize) -> (r: bool)
    requires
        at + needle@.len() <= hay@.len(),
    ensures
        r == (hay@.subrange(at as int, at + needle@.len()) == needle@),
{
    let n = needle.unicode_len();
    let hl = hay.unicode_len();
    let mut j: usize = 0;
    while j < n
        invariant
            n == needle@.len(),
            hl == hay@.len(),
            j <= n,
            at + n <= hay@.len(),
            forall|k: int| 0 <= k < j ==> hay@[at + k] == needle@[k],
        decreases n - j,
    {
        if hay.get_char(at + j) != needle.get_char(j) {
            assert(hay@.subrange(at as int, at + n)[j as int] != needle@[j as int]);
            return false;
        }
        j = j + 1;
    }
    assert(hay@.subrange(at as int, at + n) =~= needle@);
    true
}

/// Whether `needle` occurs anywhere in `hay`.
pub fn str_contains(hay: &str, needle: &str) -> (r: bool)
    ensures
        r == contains_seq(hay@, needle@),
{
    let h = hay.unicode_len();
    let n = needle.unicode_len();
    if n > h {
        return false;
    }
    let mut i: usize = 0;
    loop
        invariant
            h == hay@.len(),
            n == needle@.len(),
            n <= h,
            i <= h - n,
            forall|k: int| 0 <= k < i ==> #[trigger] hay@.subrange(k, k + n) != needle@,
        decreases h - n - i,
    {
        if matches_at(hay, needle, i) {
            return true;
        }
        if i == h - n {
            return false;
        }
        i = i + 1;
    }
}

/// Whether two strings hold the same characters.
pub fn str_eq(a: &str, b: &str) -> (r: bool)
    ensures
        r == (a@ == b@),
{
    if a.unicode_len() != b.unicode_len() {
        return false;
    }
    if a.unicode_len() == 0 {
        assert(a@ =~= b@);
        return true;
    }
    let r = matches_at(a, b, 0);
    assert(a@.subrange(0, b@.len() as int) =~= a@);
    r
}

/// The session is a Wayland one: its type says so, or the display name, already
/// lower-cased, mentions it.
pub fn is_wayland_session(xdg_session_type: &str, lowered_wayland_display: &str) -> (r: bool)
    ensures
        r == (xdg_session_type@ == "wayland"@ || contains_seq(lowered_wayland_display@, "wayland"@)),
{
    str_eq(xdg_session_type, "wayland") || str_contains(lowered_wayland_display, "wayland")
}

/// Decides from `XDG_SESSION_TYPE` and `WAYLAND_DISPLAY` (empty when unset)
/// whether the session runs under a Wayland compositor.
pub fn wayland_detect(xdg_session_type: &str, wayland_display: &str) -> (r: bool)
    ensures
        r == (xdg_session_type@ == "wayland"@ || contains_seq(lower_of(wayland_display@), "wayland"@)),
{
    let lowered = lowercase(wayland_display);
    is_wayland_session(xdg_session_type, lowered.as_str())
}

} // verus!
