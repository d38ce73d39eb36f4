//! The "allow everything" CORS policy: three headers, each set to `*`.

use crate::headers::{ascii_bytes, header_entries, names_with_room, try_insert_static};
use hyper::header::HeaderMap;
use vstd::prelude::*;

verus! {

/// Why the headers could not all be set.
#[derive(Debug, Clone, Copy, PartialEq, Eq)]
pub enum CorsError {
    /// The header map had reached the largest size it can hold.
    HeaderMapFull,
}

/// The name `Access-Control-Allow-Origin`, as a header map holds it.
pub open spec fn allow_origin() -> Seq<char> {
    "access-control-allow-origin"@
}

/// The name `Access-Control-Allow-Methods`, as a header map holds it.
pub open spec fn allow_methods() -> Seq<char> {
    "access-control-allow-methods"@
}

/// The name `Access-Control-Allow-Headers`, as a header map holds it.
pub open spec fn allow_headers() -> Seq<char> {
    "access-control-allow-headers"@
}

/// The bytes of the value `*`.
pub open spec fn wildcard() -> Seq<u8> {
    ascii_bytes("*"@)
}

/// Whether `k` is one of the three names that the policy sets.
pub open spec fn is_cors_name(k: Seq<char>) -> bool {
    k == allow_origin() || k == allow_methods() || k == allow_headers()
}

/// The first `n` of the three insertions, in the order origin, methods, headers.
pub open spec fn with_cors_prefix(m: Map<Seq<char>, Seq<Seq<u8>>>, n: nat) -> Map<
    Seq<char>,
    Seq<Seq<u8>>,
> {
    let m1 = if n >= 1 {
        m.insert(allow_origin(), seq![wildcard()])
    } else {
        m
    };
    let m2 = if n >= 2 {
        m1.insert(allow_methods(), seq![wildcard()])
    } else {
        m1
    };
    if n >= 3 {
        m2.insert(allow_headers(), seq![wildcard()])
    } else {
        m2
    }
}

/// The header entries after the policy has been applied to `m`: each of the
/// three names holds exactly one value, `*`, whatever it held before.
pub open spec fn with_cors(m: Map<Seq<char>, Seq<Seq<u8>>>) -> Map<Seq<char>, Seq<Seq<u8>>> {
    with_cors_prefix(m, 3)
}

/// Sets the three CORS headers of `headers` to `*`, replacing what they held.
///
/// On success the entries are exactly `with_cors` of what they were, and success
/// is certain while the map has room for the three names. Only a map of several
/// thousand names may refuse to grow; then `HeaderMapFull` is returned and
/// the insertions made before it (none, one or two, in the order origin,
/// methods, headers) are all that changed.
pub fn insert_cors_headers(headers: &mut HeaderMap) -> (r: Result<(), CorsError>)
    ensures
        header_entries(*old(headers)).dom().len() + 2 < names_with_room() ==> r is Ok,
        r is Ok ==> header_entries(*final(headers)) == with_cors(header_entries(*old(headers))),
        r is Err ==> exists|n: nat|
            n < 3 && header_entries(*final(headers)) == with_cors_prefix(
                header_entries(*old(headers)),
                n,
            ),
{
    proof {
        reveal_strlit("access-control-allow-origin");
        reveal_strlit("access-control-allow-methods");
        reveal_strlit("access-control-allow-headers");
        reveal_strlit("*");
    }
    let ghost m0 = header_entries(*headers);
    match try_insert_static(headers, "access-control-allow-origin", "*") {
        Ok(_) => {},
        Err(_) => {
            assert(header_entries(*headers) == with_cors_prefix(m0, 0));
            return Err(CorsError::HeaderMapFull);
        },
    }
    match try_insert_static(headers, "access-control-allow-methods", "*") {
        Ok(_) => {},
        Err(_) => {
            assert(header_entries(*headers) == with_cors_prefix(m0, 1));
            return Err(CorsError::HeaderMapFull);
        },
    }
    match try_insert_static(headers, "access-control-allow-headers", "*") {
        Ok(_) => {},
        Err(_) => {
            assert(header_entries(*headers) == with_cors_prefix(m0, 2));
            return Err(CorsError::HeaderMapFull);
        },
    }
    Ok(())
}

/// The three names are pairwise distinct.
proof fn lemma_cors_names_distinct()
    ensures
        allow_origin() != allow_methods(),
        allow_origin() != allow_headers(),
        allow_methods() != allow_headers(),
{
    reveal_strlit("access-control-allow-origin");
    reveal_strlit("access-control-allow-methods");
    reveal_strlit("access-control-allow-headers");
    assert(allow_origin()[21] != allow_methods()[21]);
    assert(allow_origin()[21] != allow_headers()[21]);
    assert(allow_methods()[21] != allow_headers()[21]);
}

/// Applying the policy twice leaves the same entries as applying it once.
pub proof fn lemma_with_cors_idempotent(m: Map<Seq<char>, Seq<Seq<u8>>>)
    ensures
        with_cors(with_cors(m)) == with_cors(m),
{
    lemma_cors_names_distinct();
    assert(with_cors(with_cors(m)) =~= with_cors(m));
}

/// The policy overwrites: whatever `Access-Control-Allow-Origin` held before,
/// afterwards it holds the single value `*` and nothing of the old values.
pub proof fn lemma_with_cors_overwrites_origin(m: Map<Seq<char>, Seq<Seq<u8>>>)
    ensures
        with_cors(m).contains_key(allow_origin()),
        with_cors(m)[allow_origin()] == seq![wildcard()],
{
    lemma_cors_names_distinct();
}

/// After the policy, each of the three names holds exactly the one value `*`,
/// and every other name is present exactly when it was, with the same values.
pub proof fn lemma_with_cors_complete(m: Map<Seq<char>, Seq<Seq<u8>>>)
    ensures
        with_cors(m).contains_key(allow_origin()),
        with_cors(m).contains_key(allow_methods()),
        with_cors(m).contains_key(allow_headers()),
        with_cors(m)[allow_origin()] == seq![wildcard()],
        with_cors(m)[allow_methods()] == seq![wildcard()],
        with_cors(m)[allow_headers()] == seq![wildcard()],
        forall|k: Seq<char>|
            !is_cors_name(k) ==> (#[trigger] with_cors(m).contains_key(k) <==> m.contains_key(k)),
        forall|k: Seq<char>|
            !is_cors_name(k) && m.contains_key(k) ==> #[trigger] with_cors(m)[k] == m[k],
{
    lemma_cors_names_distinct();
}

} // verus!
