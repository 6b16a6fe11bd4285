//! The security headers that every response carries.

use vstd::prelude::*;

verus! {

/// A header as name and value.
pub type Header = (&'static str, &'static str);

/// The characters of a header's name and value.
pub open spec fn header_view(h: Header) -> (Seq<char>, Seq<char>) {
    (h.0@, h.1@)
}

/// The headers, in the order in which they are set: no content sniffing, no
/// framing, no content from anywhere by default, no referrer, no access to
/// location, microphone or camera, and no cross-domain policy files.
pub open spec fn secure_header_list() -> Seq<(Seq<char>, Seq<char>)> {
    seq![
        ("X-Content-Type-Options"@, "nosniff"@),
        ("X-Frame-Options"@, "DENY"@),
        ("Content-Security-Policy"@, "default-src 'none';"@),
        ("Referrer-Policy"@, "no-referrer"@),
        (
            "Permissions-Policy"@,
            "geolocation=(), microphone=(), camera=(), interest-cohort=()"@,
        ),
        ("X-Permitted-Cross-Domain-Policies"@, "none"@),
    ]
}

/// The security headers to set on every response.
pub fn secure_headers() -> (r: Vec<Header>)
    ensures
        r@.map_values(|h: Header| header_view(h)) == secure_header_list(),
{
    let mut headers: Vec<Header> = Vec::new();
    headers.push(("X-Content-Type-Options", "nosniff"));
    headers.push(("X-Frame-Options", "DENY"));
    headers.push(("Content-Security-Policy", "default-src 'none';"));
    headers.push(("Referrer-Policy", "no-referrer"));
    headers.push(
        ("Permissions-Policy", "geolocation=(), microphone=(), camera=(), interest-cohort=()"),
    );
    headers.push(("X-Permitted-Cross-Domain-Policies", "none"));
    proof {
        assert(headers@.map_values(|h: Header| header_view(h)) =~= secure_header_list());
    }
    headers
}

} // verus!
