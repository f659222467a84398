//! Media-reference resolution: turns a protocol media reference
//! (`mxc://authority/identifier`) into a fetchable HTTPS URL, purely
//! syntactically.

use vstd::prelude::*;
use crate::digits::{dec_rep, usize_to_string};
use crate::has_prefix;

verus! {

/// `i` is the position of the one and only `'/'` in `rest`, so that `rest`
/// splits into exactly two segments around it.
pub open spec fn splits_in_two(rest: Seq<char>, i: int) -> bool {
    &&& 0 <= i < rest.len()
    &&& rest[i] == '/'
    &&& forall|j: int| 0 <= j < rest.len() && j != i ==> rest[j] != '/'
}

/// `rest` consists of exactly two `'/'`-separated segments.
pub open spec fn two_segments(rest: Seq<char>) -> bool {
    exists|i: int| splits_in_two(rest, i)
}

/// A request is a thumbnail request when any thumbnail parameter is given.
pub open spec fn is_thumbnail(w: nat, h: nat, method: Seq<char>) -> bool {
    w > 0 || h > 0 || method.len() > 0
}

/// The endpoint verb for the request kind.
pub open spec fn media_verb(thumb: bool) -> Seq<char> {
    if thumb {
        "thumbnail"@
    } else {
        "download"@
    }
}

/// The path prefix: the versioned client-media endpoint when authenticated,
/// the legacy media endpoint otherwise.
pub open spec fn media_prefix(auth: bool, thumb: bool) -> Seq<char> {
    if auth {
        "/_matrix/client/v1/media/"@ + media_verb(thumb)
    } else {
        "/_matrix/media/v1/"@ + media_verb(thumb)
    }
}

/// The query string appended to thumbnail requests: `width`, `height` and
/// `method`, in that fixed order, with `method` defaulting to `crop`.
pub open spec fn thumb_query(w: nat, h: nat, method: Seq<char>) -> Seq<char> {
    "?width="@ + dec_rep(w) + "&height="@ + dec_rep(h) + "&method="@ + (if method.len() == 0 {
        "crop"@
    } else {
        method
    })
}

/// The full URL composed from a split reference.
pub open spec fn media_url(
    server: Seq<char>,
    id: Seq<char>,
    w: nat,
    h: nat,
    method: Seq<char>,
    auth: bool,
) -> Seq<char> {
    let thumb = is_thumbnail(w, h, method);
    let base = "https://"@ + server + media_prefix(auth, thumb) + "/"@ + server + "/"@ + id;
    if thumb {
        base + thumb_query(w, h, method)
    } else {
        base
    }
}

/// What resolution returns, for every input.
///
/// A reference outside the media scheme passes through unchanged when
/// `direct` is set and resolves to the empty string otherwise; a scheme
/// reference that does not split into exactly two segments resolves to the
/// empty string; everything else composes the documented URL shape.
pub open spec fn resolve_spec(
    mxc: Seq<char>,
    direct: bool,
    w: nat,
    h: nat,
    method: Seq<char>,
    auth: bool,
) -> Seq<char> {
    if !has_prefix(mxc, "mxc://"@) {
        if direct {
            mxc
        } else {
            Seq::empty()
        }
    } else {
        let rest = mxc.subrange(6, mxc.len() as int);
        if two_segments(rest) {
            let i = choose|i: int| splits_in_two(rest, i);
            media_url(
                rest.subrange(0, i),
                rest.subrange(i + 1, rest.len() as int),
                w,
                h,
                method,
                auth,
            )
        } else {
            Seq::empty()
        }
    }
}

/// Two split positions in the same sequence coincide.
proof fn lemma_split_unique(rest: Seq<char>, i: int, k: int)
    requires
        splits_in_two(rest, i),
        splits_in_two(rest, k),
    ensures
        i == k,
{
    if i != k {
        assert(rest[k] != '/');
    }
}

/// Resolves a media reference to an HTTPS URL.
///
/// The result is exactly `resolve_spec` of the inputs: the empty string
/// signals an unresolvable reference, and no input makes this panic.
pub fn mxc_to_https(
    mxc_url: String,
    direct_link: bool,
    thumbnail_width: usize,
    thumbnail_height: usize,
    resize_method: String,
    use_authentication: bool,
) -> (r: String)
    ensures
        r@ == resolve_spec(
            mxc_url@,
            direct_link,
            thumbnail_width as nat,
            thumbnail_height as nat,
            resize_method@,
            use_authentication,
        ),
{
    let s: &str = mxc_url.as_str();
    let len: usize = s.unicode_len();
    proof {
        reveal_strlit("mxc://");
    }
    let prefixed: bool = len >= 6 && s.get_char(0) == 'm' && s.get_char(1) == 'x' && s.get_char(2)
        == 'c' && s.get_char(3) == ':' && s.get_char(4) == '/' && s.get_char(5) == '/';
    proof {
        if prefixed {
            assert(mxc_url@.subrange(0, 6) =~= "mxc://"@);
        } else {
            if has_prefix(mxc_url@, "mxc://"@) {
                assert(mxc_url@.subrange(0, 6)[0] == 'm');
                assert(mxc_url@.subrange(0, 6)[1] == 'x');
                assert(mxc_url@.subrange(0, 6)[2] == 'c');
                assert(mxc_url@.subrange(0, 6)[3] == ':');
                assert(mxc_url@.subrange(0, 6)[4] == '/');
                assert(mxc_url@.subrange(0, 6)[5] == '/');
                assert(false);
            }
        }
    }
    if !prefixed {
        if direct_link {
            return mxc_url;
        } else {
            return String::new();
        }
    }
    let ghost rest: Seq<char> = mxc_url@.subrange(6, mxc_url@.len() as int);

    let mut j: usize = 6;
    while j < len && s.get_char(j) != '/'
        invariant
            6 <= j <= len,
            len == s@.len(),
            s@ == mxc_url@,
            forall|k: int| 6 <= k < j ==> mxc_url@[k] != '/',
        decreases len - j,
    {
        j += 1;
    }
    if j == len {
        proof {
            assert forall|i: int| !splits_in_two(rest, i) by {
                if splits_in_two(rest, i) {
                    assert(rest[i] == mxc_url@[6 + i]);
                }
            }
        }
        return String::new();
    }

    let mut k: usize = j + 1;
    let mut has_second: bool = false;
    while k < len
        invariant
            j + 1 <= k <= len,
            j < len,
            len == s@.len(),
            s@ == mxc_url@,
            has_second <==> exists|m: int| j + 1 <= m < k && mxc_url@[m] == '/',
        decreases len - k,
    {
        if s.get_char(k) == '/' {
            has_second = true;
            proof {
                assert(j + 1 <= k < k + 1 && mxc_url@[k as int] == '/');
            }
        }
        k += 1;
    }
    if has_second {
        proof {
            let m = choose|m: int| j + 1 <= m < len && mxc_url@[m] == '/';
            assert forall|i: int| !splits_in_two(rest, i) by {
                if splits_in_two(rest, i) {
                    assert(rest[j - 6] == mxc_url@[j as int]);
                    assert(rest[m - 6] == mxc_url@[m]);
                    if i != j - 6 {
                        assert(rest[j - 6] != '/');
                    } else {
                        assert(rest[m - 6] != '/');
                    }
                }
            }
        }
        return String::new();
    }
    proof {
        assert(rest[j - 6] == mxc_url@[j as int]);
        assert forall|x: int| 0 <= x < rest.len() && x != j - 6 implies rest[x] != '/' by {
            assert(rest[x] == mxc_url@[6 + x]);
        }
        assert(splits_in_two(rest, j - 6));
        let i = choose|i: int| splits_in_two(rest, i);
        lemma_split_unique(rest, i, j - 6);
    }

    let server: &str = s.substring_char(6, j);
    let id: &str = s.substring_char(j + 1, len);
    proof {
        assert(server@ =~= rest.subrange(0, j - 6));
        assert(id@ =~= rest.subrange(j - 6 + 1, rest.len() as int));
    }

    let thumb: bool = thumbnail_width > 0 || thumbnail_height > 0 || resize_method.as_str().unicode_len() > 0;

    let mut url = String::from_str("https://");
    url.append(server);
    if use_authentication {
        url.append("/_matrix/client/v1/media/");
    } else {
        url.append("/_matrix/media/v1/");
    }
    if thumb {
        url.append("thumbnail");
    } else {
        url.append("download");
    }
    url.append("/");
    url.append(server);
    url.append("/");
    url.append(id);
    if thumb {
        url.append("?width=");
        let ws = usize_to_string(thumbnail_width);
        url.append(ws.as_str());
        url.append("&height=");
        let hs = usize_to_string(thumbnail_height);
        url.append(hs.as_str());
        url.append("&method=");
        if resize_method.as_str().unicode_len() == 0 {
            url.append("crop");
        } else {
            url.append(resize_method.as_str());
        }
    }
    proof {
        assert(url@ =~= media_url(
            server@,
            id@,
            thumbnail_width as nat,
            thumbnail_height as nat,
            resize_method@,
            use_authentication,
        ));
    }
    url
}

/// For a well-formed reference with no thumbnail parameters, resolution
/// yields exactly the download URL: the versioned client-media shape when
/// authenticated, the legacy shape otherwise.
pub proof fn lemma_resolve_download(authority: Seq<char>, id: Seq<char>, auth: bool)
    requires
        forall|i: int| 0 <= i < authority.len() ==> authority[i] != '/',
        forall|i: int| 0 <= i < id.len() ==> id[i] != '/',
    ensures
        resolve_spec("mxc://"@ + authority + "/"@ + id, false, 0, 0, Seq::<char>::empty(), auth)
            == "https://"@ + authority + (if auth {
            "/_matrix/client/v1/media/download/"@
        } else {
            "/_matrix/media/v1/download/"@
        }) + authority + "/"@ + id,
{
    reveal_strlit("mxc://");
    reveal_strlit("/");
    reveal_strlit("/_matrix/media/v1/");
    reveal_strlit("/_matrix/client/v1/media/");
    reveal_strlit("download");
    reveal_strlit("/_matrix/media/v1/download/");
    reveal_strlit("/_matrix/client/v1/media/download/");
    let mxc = "mxc://"@ + authority + "/"@ + id;
    assert(mxc.subrange(0, 6) =~= "mxc://"@);
    assert(has_prefix(mxc, "mxc://"@));
    let rest = mxc.subrange(6, mxc.len() as int);
    assert(rest =~= authority + "/"@ + id);
    let a = authority.len() as int;
    assert(rest[a] == '/');
    assert forall|x: int| 0 <= x < rest.len() && x != a implies rest[x] != '/' by {
        if x < a {
            assert(rest[x] == authority[x]);
        } else {
            assert(rest[x] == id[x - a - 1]);
        }
    }
    assert(splits_in_two(rest, a));
    let i = choose|i: int| splits_in_two(rest, i);
    lemma_split_unique(rest, i, a);
    assert(rest.subrange(0, a) =~= authority);
    assert(rest.subrange(a + 1, rest.len() as int) =~= id);
    assert(!is_thumbnail(0, 0, Seq::<char>::empty()));
    if auth {
        assert(media_url(authority, id, 0, 0, Seq::<char>::empty(), true) =~= "https://"@
            + authority + "/_matrix/client/v1/media/download/"@ + authority + "/"@ + id);
    } else {
        assert(media_url(authority, id, 0, 0, Seq::<char>::empty(), false) =~= "https://"@
            + authority + "/_matrix/media/v1/download/"@ + authority + "/"@ + id);
    }
}

/// A scheme reference that splits into two segments always resolves to a
/// URL beginning with `https://`; the empty string is only ever the
/// unresolvable sentinel.
pub proof fn lemma_resolved_url_shape(
    mxc: Seq<char>,
    direct: bool,
    w: nat,
    h: nat,
    method: Seq<char>,
    auth: bool,
)
    requires
        has_prefix(mxc, "mxc://"@),
        two_segments(mxc.subrange(6, mxc.len() as int)),
    ensures
        has_prefix(resolve_spec(mxc, direct, w, h, method, auth), "https://"@),
{
    reveal_strlit("mxc://");
    reveal_strlit("https://");
    let r = resolve_spec(mxc, direct, w, h, method, auth);
    assert(r.subrange(0, 8) =~= "https://"@);
}

/// Resolution is idempotent on its own successful output: re-resolving a
/// resolved URL with passthrough enabled hands it back unchanged.
pub proof fn lemma_resolution_idempotent(
    mxc: Seq<char>,
    direct: bool,
    w: nat,
    h: nat,
    method: Seq<char>,
    auth: bool,
    w2: nat,
    h2: nat,
    method2: Seq<char>,
    auth2: bool,
)
    requires
        has_prefix(mxc, "mxc://"@),
        two_segments(mxc.subrange(6, mxc.len() as int)),
    ensures
        resolve_spec(resolve_spec(mxc, direct, w, h, method, auth), true, w2, h2, method2, auth2)
            == resolve_spec(mxc, direct, w, h, method, auth),
{
    lemma_resolved_url_shape(mxc, direct, w, h, method, auth);
    lemma_passthrough_fixed_point(
        resolve_spec(mxc, direct, w, h, method, auth),
        w2,
        h2,
        method2,
        auth2,
    );
}

/// An already-resolved HTTPS URL is a fixed point of resolution with
/// passthrough enabled, whatever the remaining parameters are.
pub proof fn lemma_passthrough_fixed_point(
    s: Seq<char>,
    w: nat,
    h: nat,
    method: Seq<char>,
    auth: bool,
)
    requires
        has_prefix(s, "https://"@),
    ensures
        resolve_spec(s, true, w, h, method, auth) == s,
{
    reveal_strlit("https://");
    reveal_strlit("mxc://");
    if has_prefix(s, "mxc://"@) {
        assert(s.subrange(0, 6)[0] == 'm');
        assert(s.subrange(0, 8)[0] == 'h');
        assert(s.subrange(0, 6)[0] == s[0]);
        assert(s.subrange(0, 8)[0] == s[0]);
        assert(false);
    }
}

} // verus!
