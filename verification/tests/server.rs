use ric3::assets::{resolve_asset, asset_source, base_name, cache_control, style_plan, AssetFamily, AssetSource};
use ric3::dates::{dec_string, Date};
use ric3::metadata::{decode, decode_fields, DecodeError};
use ric3::posts::{content_path, metadata_path, post_dir_candidate, resolve_post, resolve_post_dir, FileProbe};
use ric3::qr::{default_qr_id, respond};
use ric3::redirect::{make_https, replace_all};
use ric3::{Args, ServeError};

const GOOD_METADATA: &str = "title = \"Hello\"\nauthor = \"A\"\ndate_published = 2024-01-01\ndate_updated = 2024-01-02\npost_type = \"article\"\nsynopsis = \"greeting\"\n";

#[test]
fn default_ports() {
    let args = Args::default();
    assert_eq!(args.http_port, 8080);
    assert_eq!(args.https_port, 4343);
}

#[test]
fn error_statuses() {
    assert_eq!(ServeError::BadRequest(String::from("x")).status_code(), 400);
    assert_eq!(ServeError::NotFound.status_code(), 404);
    assert_eq!(ServeError::ConversionError.status_code(), 400);
    assert_eq!(ServeError::BadRequest(String::from("x")).reason(), "x");
    assert_eq!(ServeError::NotFound.reason(), "Not Found");
}

#[test]
fn decode_complete_document() {
    let m = decode(GOOD_METADATA).expect("well-formed metadata must decode");
    assert_eq!(m.title, "Hello");
    assert_eq!(m.author, "A");
    assert_eq!(m.date_published, Date { year: 2024, month: 1, day: 1 });
    assert_eq!(m.date_updated, Date { year: 2024, month: 1, day: 2 });
    assert_eq!(m.post_type, "article");
    assert_eq!(m.synopsis, "greeting");
}

#[test]
fn decode_rejects_bad_syntax() {
    assert_eq!(decode("not = = toml"), Err(DecodeError::Syntax));
}

#[test]
fn decode_rejects_missing_field() {
    let doc = "title = \"Hello\"\nauthor = \"A\"\ndate_published = 2024-01-01\ndate_updated = 2024-01-02\npost_type = \"article\"\n";
    assert_eq!(decode(doc), Err(DecodeError::MissingField));
}

#[test]
fn decode_rejects_wrong_typed_text_field() {
    let doc = "title = 7\nauthor = \"A\"\ndate_published = 2024-01-01\ndate_updated = 2024-01-02\npost_type = \"article\"\nsynopsis = \"s\"\n";
    assert_eq!(decode(doc), Err(DecodeError::MissingField));
}

#[test]
fn decode_rejects_text_as_date() {
    let doc = "title = \"Hello\"\nauthor = \"A\"\ndate_published = \"2024-01-01\"\ndate_updated = 2024-01-02\npost_type = \"article\"\nsynopsis = \"s\"\n";
    assert_eq!(decode(doc), Err(DecodeError::MalformedDate));
}

#[test]
fn decode_rejects_time_without_date() {
    let doc = "title = \"Hello\"\nauthor = \"A\"\ndate_published = 07:32:00\ndate_updated = 2024-01-02\npost_type = \"article\"\nsynopsis = \"s\"\n";
    assert_eq!(decode(doc), Err(DecodeError::MalformedDate));
}

#[test]
fn decode_keeps_date_component_only() {
    let doc = "title = \"T\"\nauthor = \"A\"\ndate_published = 2024-01-01T07:32:00Z\ndate_updated = 2024-01-02\npost_type = \"p\"\nsynopsis = \"s\"\n";
    let m = decode(doc).expect("datetime with a date component must decode");
    assert_eq!(m.date_published, Date { year: 2024, month: 1, day: 1 });
}

#[test]
fn decode_fields_from_parsed_table() {
    let table: toml::Table = GOOD_METADATA.parse().expect("document parses");
    let m = decode_fields(&table).expect("all fields present");
    assert_eq!(m.title, "Hello");
    let empty: toml::Table = "".parse().expect("empty document parses");
    assert_eq!(decode_fields(&empty), Err(DecodeError::MissingField));
}

#[test]
fn date_rendering_is_zero_padded() {
    assert_eq!(Date { year: 2024, month: 1, day: 1 }.render(), "2024-01-01");
    assert_eq!(Date { year: 999, month: 12, day: 31 }.render(), "0999-12-31");
    assert_eq!(Date { year: 1, month: 2, day: 3 }.render(), "0001-02-03");
    assert_eq!(Date { year: 65535, month: 10, day: 20 }.render(), "65535-10-20");
    assert_eq!(dec_string(0), "0");
    assert_eq!(dec_string(8080), "8080");
}

#[test]
fn post_with_complete_metadata_renders_everything() {
    let meta = FileProbe::Content(String::from(GOOD_METADATA));
    let content = FileProbe::Content(String::from("# Hi"));
    let page = resolve_post(&meta, &content).expect("well-formed post must render");
    assert!(page.contains("Hello"));
    assert!(page.contains("A"));
    assert!(page.contains("2024-01-01"));
    assert!(page.contains("2024-01-02"));
    assert!(page.contains("<h1>Hi</h1>"));
    assert!(page.starts_with("<!DOCTYPE html>"));
    assert!(page.ends_with("</body></html>"));
}

#[test]
fn post_error_messages_follow_the_failing_check() {
    let good = FileProbe::Content(String::from(GOOD_METADATA));
    let cases = [
        (FileProbe::Missing, good.clone(), "No post metadata found"),
        (FileProbe::Unreadable, good.clone(), "Metadata can not be read"),
        (FileProbe::Content(String::from("not = = toml")), good.clone(), "Metadata can not be parsed"),
        (good.clone(), FileProbe::Missing, "No post content found"),
        (good.clone(), FileProbe::Unreadable, "Content can not be read"),
    ];
    for (meta, content, message) in cases {
        match resolve_post(&meta, &content) {
            Err(ServeError::BadRequest(m)) => assert_eq!(m, message),
            other => panic!("expected BadRequest({message}), got {other:?}"),
        }
    }
}

#[test]
fn unknown_post_id_falls_back_to_default_directory() {
    assert_eq!(post_dir_candidate("my-first-post"), "posts/my-first-post");
    assert_eq!(resolve_post_dir("my-first-post", true), "posts/my-first-post");
    assert_eq!(resolve_post_dir("no-such-post", false), "posts/default");
    assert_eq!(metadata_path("posts/default"), "posts/default/metadata.toml");
    assert_eq!(content_path("posts/default"), "posts/default/content.md");
}

#[test]
fn asset_with_known_extension_gets_a_plan() {
    let plan = resolve_asset(AssetFamily::Image, "missing.png").expect("png has a MIME type");
    assert_eq!(plan.path, "assets/img/missing.png");
    assert_eq!(plan.mime_type, "image/png");
    assert_eq!(plan.display_name, "missing.png");
    let favicon = resolve_asset(AssetFamily::Favicon, "favicon.ico").expect("ico has a MIME type");
    assert_eq!(favicon.path, "assets/favicon/favicon.ico");
    assert_eq!(favicon.display_name, "favicon.ico");
}

#[test]
fn asset_with_unknown_extension_is_refused_before_any_file_access() {
    match resolve_asset(AssetFamily::Image, "strange.zzzz") {
        Err(ServeError::BadRequest(m)) => assert_eq!(m, "MIME Type couldn't be determined"),
        other => panic!("expected BadRequest, got {other:?}"),
    }
}

#[test]
fn missing_image_degrades_to_the_placeholder() {
    match asset_source(AssetFamily::Image, false) {
        Ok(AssetSource::FallbackImage(p)) => assert_eq!(p, "assets/img/not-found.png"),
        other => panic!("expected the placeholder image, got {other:?}"),
    }
    match asset_source(AssetFamily::Image, true) {
        Ok(AssetSource::Requested) => {}
        other => panic!("expected the requested file, got {other:?}"),
    }
}

#[test]
fn missing_favicon_is_a_hard_not_found() {
    match asset_source(AssetFamily::Favicon, false) {
        Err(ServeError::NotFound) => {}
        other => panic!("expected NotFound, got {other:?}"),
    }
}

#[test]
fn stylesheet_plan_is_fixed() {
    let plan = style_plan();
    assert_eq!(plan.path, "assets/style.css");
    assert_eq!(plan.mime_type, "text/css; charset=utf-8");
    assert_eq!(plan.display_name, "style.css");
    assert_eq!(cache_control(), "max-age=3600, must-revalidate");
}

#[test]
fn base_name_takes_what_follows_the_last_slash() {
    assert_eq!(base_name("assets/img/a.png"), "a.png");
    assert_eq!(base_name("plain.txt"), "plain.txt");
    assert_eq!(base_name("dir/"), "");
    assert_eq!(base_name(""), "");
}

#[test]
fn replacement_is_textual_and_leftmost() {
    assert_eq!(replace_all("a8080b8080", "8080", "4343"), "a4343b4343");
    assert_eq!(replace_all("aaa", "aa", "b"), "ba");
    assert_eq!(replace_all("abc", "", "x"), "abc");
    assert_eq!(replace_all("example.com", "8080", "4343"), "example.com");
    assert_eq!(replace_all("80", "80", "8080"), "8080");
}

#[test]
fn plaintext_request_redirects_to_https_equivalent() {
    let args = Args { http_port: 8080, https_port: 4343 };
    let t = make_https("example.com:8080", Some("/posts/x"), args).expect("valid authority");
    assert_eq!(t.host, "example.com:4343");
    assert_eq!(t.path_and_query, "/posts/x");
    assert_eq!(t.uri_string(), "https://example.com:4343/posts/x");
}

#[test]
fn redirect_without_path_defaults_to_root() {
    let args = Args { http_port: 8080, https_port: 4343 };
    let t = make_https("example.com", None, args).expect("valid authority");
    assert_eq!(t.host, "example.com");
    assert_eq!(t.path_and_query, "/");
}

#[test]
fn redirect_leaves_an_https_host_alone() {
    let args = Args { http_port: 8080, https_port: 4343 };
    let t = make_https("example.com:4343", Some("/posts/x"), args).expect("valid authority");
    assert_eq!(t.host, "example.com:4343");
    assert_eq!(t.path_and_query, "/posts/x");
}

#[test]
fn redirect_with_invalid_rewritten_host_fails() {
    let args = Args { http_port: 8080, https_port: 4343 };
    match make_https("bad host:8080", Some("/"), args) {
        Err(ServeError::ConversionError) => {}
        other => panic!("expected ConversionError, got {other:?}"),
    }
}

#[test]
fn qr_page_echoes_id_and_address() {
    let page = respond(default_qr_id(), "203.0.113.5");
    assert!(page.contains("DEFAULT"));
    assert!(page.contains("203.0.113.5"));
    assert!(page.contains("Rice Co."));
    assert_eq!(default_qr_id(), "DEFAULT");
}
