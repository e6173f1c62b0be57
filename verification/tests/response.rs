use bile::utils::response::{Css, ErrorPage, Html, Ico, Json, Png, Redirect, Text, Xml};
use bile::utils::{embedding_of, mime_of, Embedding, Error};

#[test]
fn assets_are_served_with_their_type_and_may_be_kept_for_a_year() {
    let css = Css("body {}").into_response();
    assert_eq!(css.status, 200);
    assert_eq!(css.content_type.as_deref(), Some("text/css; charset=utf-8"));
    assert_eq!(css.cache_control.as_deref(), Some("max-age=31536000, immutable"));
    assert_eq!(css.location, None);
    assert_eq!(css.body, "body {}");

    let ico = Ico(vec![0u8, 1]).into_response();
    assert_eq!(ico.content_type.as_deref(), Some("image/x-icon"));
    assert_eq!(ico.cache_control.as_deref(), Some("max-age=31536000, immutable"));
    assert_eq!(ico.body, vec![0u8, 1]);

    let json = Json("{}").into_response();
    assert_eq!(json.content_type.as_deref(), Some("application/json"));
    assert_eq!(json.cache_control.as_deref(), Some("max-age=31536000, immutable"));

    let png = Png(7u8).into_response();
    assert_eq!(png.status, 200);
    assert_eq!(png.content_type.as_deref(), Some("image/png"));
    assert_eq!(png.cache_control.as_deref(), Some("max-age=31536000, immutable"));
    assert_eq!(png.body, 7);
}

#[test]
fn pages_are_served_with_their_type_and_may_be_kept_for_five_minutes() {
    let text = Text("User-agent: *").into_response();
    assert_eq!(text.status, 200);
    assert_eq!(text.content_type.as_deref(), Some("text/plain; charset=utf-8"));
    assert_eq!(text.cache_control.as_deref(), Some("max-age=300, private"));

    let html = Html(Some("<p>hi</p>".to_string())).into_response();
    assert_eq!(html.status, 200);
    assert_eq!(html.content_type.as_deref(), Some("text/html; charset=utf-8"));
    assert_eq!(html.cache_control.as_deref(), Some("max-age=300, private"));
    assert_eq!(html.body, "<p>hi</p>");

    let xml = Xml(Some("<feed/>".to_string())).into_response();
    assert_eq!(xml.status, 200);
    assert_eq!(xml.content_type.as_deref(), Some("text/xml"));
    assert_eq!(xml.cache_control.as_deref(), Some("max-age=300, private"));
    assert_eq!(xml.body, "<feed/>");
}

#[test]
fn a_page_that_did_not_render_is_a_server_error() {
    for failed in [Html(None).into_response(), Xml(None).into_response()] {
        assert_eq!(failed.status, 500);
        assert_eq!(failed.content_type.as_deref(), Some("text/html; charset=utf-8"));
        assert_eq!(failed.cache_control, None);
        assert_eq!(failed.body, "a serious error has occured");
    }
}

#[test]
fn redirections_carry_their_status_and_location() {
    let to = Redirect::to("/project").unwrap().into_response();
    assert_eq!(to.status, 303);
    assert_eq!(to.location.as_deref(), Some("/project"));
    assert_eq!(to.content_type, None);
    let temporary = Redirect::temporary("/project/log").unwrap().into_response();
    assert_eq!(temporary.status, 307);
    assert_eq!(temporary.location.as_deref(), Some("/project/log"));
    let permanent = Redirect::permanent("/project/commit/abc").unwrap().into_response();
    assert_eq!(permanent.status, 308);
    assert_eq!(permanent.location.as_deref(), Some("/project/commit/abc"));
    let root = Redirect::permanent_root().into_response();
    assert_eq!((root.status, root.location.as_deref()), (308, Some("/")));
    let root = Redirect::temporary_root().into_response();
    assert_eq!((root.status, root.location.as_deref()), (307, Some("/")));
}

#[test]
fn a_location_that_cannot_stand_in_a_header_makes_no_redirection() {
    assert!(Redirect::permanent("/a\nb").is_none());
    assert!(Redirect::permanent("/a\rb").is_none());
    assert!(Redirect::permanent("/a\0b").is_none());
    assert!(Redirect::to("/a\u{7f}b").is_none());
    assert!(Redirect::temporary("\u{1b}").is_none());
    assert!(Redirect::permanent("/a\tb").is_some());
    assert!(Redirect::permanent("/a b").is_some());
    assert!(Redirect::permanent("/ünïcödé").is_some());
    assert!(Redirect::permanent("").is_some());
}

#[test]
fn the_media_type_is_spelled_out_or_falls_back() {
    assert_eq!(mime_of("png", true), "application/octet-stream");
    assert_eq!(mime_of("png", false), "text/plain; charset=utf-8");
    assert_eq!(mime_of("", false), "text/plain; charset=utf-8");
    assert_eq!(mime_of("image/png", true), "image/png");
    assert_eq!(mime_of("Text/HTML; Charset=UTF-8", false), "text/html; charset=utf-8");
    assert_eq!(mime_of("*/*", true), "*/*");
    assert_eq!(mime_of("/png", true), "application/octet-stream");
    assert_eq!(mime_of("image png", false), "text/plain; charset=utf-8");
}

#[test]
fn error_pages_and_errors_carry_their_status() {
    let page = ErrorPage::new();
    assert_eq!(page.status, 500);
    assert_eq!(page.with_status(404).status, 404);
    let custom = Error::new(404, "repo does not exist");
    assert_eq!(custom.status(), 404);
    let failure = Error::failure(bile::utils::error::Error::new(
        bile::utils::error::ErrorKind::Store,
        "object not found",
    ));
    assert_eq!(failure.status(), 500);
    assert!(matches!(failure, Error::Failure { status: 500, .. }));
}

#[test]
fn a_binary_file_is_embedded_by_the_type_of_its_media_type() {
    assert_eq!(embedding_of("image/png"), Embedding::Image);
    assert_eq!(embedding_of("image/svg+xml; charset=utf-8"), Embedding::Image);
    assert_eq!(embedding_of("audio/ogg"), Embedding::Audio);
    assert_eq!(embedding_of("video/mp4"), Embedding::Video);
    assert_eq!(embedding_of("application/octet-stream"), Embedding::Nothing);
    assert_eq!(embedding_of("text/plain"), Embedding::Nothing);
    assert_eq!(embedding_of("image"), Embedding::Image);
    assert_eq!(embedding_of("images/png"), Embedding::Nothing);
    assert_eq!(embedding_of("/image"), Embedding::Nothing);
    assert_eq!(embedding_of(""), Embedding::Nothing);
}
