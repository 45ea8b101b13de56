use deployer::publish::{
    asset_key_prefix, content_md5_for, content_type_for, object_key, upload_params,
};
use deployer::sitemap::sitemap_ping_url;

#[test]
fn content_md5_of_known_inputs() {
    // base64(md5("")) and base64(md5("hello")).
    assert_eq!(content_md5_for(b""), "1B2M2Y8AsgTpgAmY7PhCfg==");
    assert_eq!(content_md5_for(b"hello"), "XUFAKrxLKna5cZ2REBfFkg==");
}

#[test]
fn content_type_guessed_from_extension() {
    assert_eq!(content_type_for("index.html"), "text/html");
    assert_eq!(content_type_for("app.js"), "text/javascript");
    assert_eq!(content_type_for("strange.zzz"), "application/octet-stream");
    assert_eq!(content_type_for("no-extension"), "application/octet-stream");
}

#[test]
fn object_keys_join_prefix_and_relative_path() {
    assert_eq!(object_key("C1/_nuxt", "js/app.js"), "C1/_nuxt/js/app.js");
    assert_eq!(asset_key_prefix("C1"), "C1/_nuxt");
}

#[test]
fn upload_params_compose() {
    let params = upload_params("C1/_nuxt", "app.css", b"hello");
    assert_eq!(params.key, "C1/_nuxt/app.css");
    assert_eq!(params.content_type, "text/css");
    assert_eq!(params.content_md5, "XUFAKrxLKna5cZ2REBfFkg==");
}

#[test]
fn sitemap_ping_url_encodes_target() {
    assert_eq!(
        sitemap_ping_url("example.com"),
        "https://www.google.com/ping?sitemap=https%3A%2F%2Fexample%2Ecom%2Fsitemap%2Dindex%2Exml"
    );
    // Alphanumerics pass through; everything else becomes upper-case hex.
    assert_eq!(
        sitemap_ping_url("ab12"),
        "https://www.google.com/ping?sitemap=https%3A%2F%2Fab12%2Fsitemap%2Dindex%2Exml"
    );
}
