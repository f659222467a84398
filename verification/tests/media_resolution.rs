use mesh_core::media::mxc_to_https;

fn resolve_plain(mxc: &str) -> String {
    mxc_to_https(mxc.to_string(), false, 0, 0, String::new(), false)
}

#[test]
fn download_url_unauthenticated() {
    assert_eq!(
        resolve_plain("mxc://example.org/abc123"),
        "https://example.org/_matrix/media/v1/download/example.org/abc123"
    );
}

#[test]
fn download_url_authenticated() {
    assert_eq!(
        mxc_to_https("mxc://example.org/abc123".to_string(), false, 0, 0, String::new(), true),
        "https://example.org/_matrix/client/v1/media/download/example.org/abc123"
    );
}

#[test]
fn thumbnail_url_with_default_method() {
    assert_eq!(
        mxc_to_https("mxc://example.org/abc123".to_string(), false, 64, 64, String::new(), false),
        "https://example.org/_matrix/media/v1/thumbnail/example.org/abc123?width=64&height=64&method=crop"
    );
}

#[test]
fn thumbnail_url_authenticated() {
    assert_eq!(
        mxc_to_https("mxc://example.org/abc123".to_string(), false, 320, 240, String::new(), true),
        "https://example.org/_matrix/client/v1/media/thumbnail/example.org/abc123?width=320&height=240&method=crop"
    );
}

#[test]
fn explicit_resize_method_forces_thumbnail() {
    assert_eq!(
        mxc_to_https("mxc://example.org/abc123".to_string(), false, 0, 0, "scale".to_string(), false),
        "https://example.org/_matrix/media/v1/thumbnail/example.org/abc123?width=0&height=0&method=scale"
    );
}

#[test]
fn large_dimensions_render_in_decimal() {
    assert_eq!(
        mxc_to_https("mxc://hs/x".to_string(), false, 1234, 9075, String::new(), false),
        "https://hs/_matrix/media/v1/thumbnail/hs/x?width=1234&height=9075&method=crop"
    );
}

#[test]
fn passthrough_returns_input_unchanged() {
    assert_eq!(
        mxc_to_https("https://cdn.example/x.png".to_string(), true, 0, 0, String::new(), false),
        "https://cdn.example/x.png"
    );
}

#[test]
fn no_passthrough_rejects_foreign_scheme() {
    assert_eq!(resolve_plain("https://cdn.example/x.png"), "");
}

#[test]
fn single_segment_reference_is_unresolvable() {
    assert_eq!(
        mxc_to_https("mxc://onlyoneparthere".to_string(), true, 0, 0, String::new(), false),
        ""
    );
}

#[test]
fn three_segment_reference_is_unresolvable() {
    assert_eq!(resolve_plain("mxc://example.org/a/b"), "");
}

#[test]
fn empty_input_without_passthrough_is_empty() {
    assert_eq!(resolve_plain(""), "");
}

#[test]
fn empty_input_with_passthrough_stays_empty() {
    assert_eq!(mxc_to_https(String::new(), true, 0, 0, String::new(), false), "");
}

#[test]
fn resolving_a_resolved_url_is_a_fixed_point() {
    let once = resolve_plain("mxc://example.org/abc123");
    let twice = mxc_to_https(once.clone(), true, 0, 0, String::new(), false);
    assert_eq!(once, twice);
}

#[test]
fn resolving_a_resolved_thumbnail_url_is_a_fixed_point() {
    let once =
        mxc_to_https("mxc://example.org/abc123".to_string(), false, 64, 64, String::new(), true);
    let twice = mxc_to_https(once.clone(), true, 64, 64, "crop".to_string(), true);
    assert_eq!(once, twice);
}

#[test]
fn empty_authority_and_identifier_still_compose() {
    assert_eq!(
        resolve_plain("mxc:///"),
        "https:///_matrix/media/v1/download//"
    );
}
