//! Media types and header values, as the `mime` and `http` crates know them.

use vstd::prelude::*;

verus! {

/// `mime::TEXT_CSS_UTF_8`, as text.
#[verifier::external_body]
pub(crate) fn text_css_utf_8() -> (res: String)
    ensures
        res@ == "text/css; charset=utf-8"@,
{
    mime::TEXT_CSS_UTF_8.as_ref().to_owned()
}

/// `mime::APPLICATION_JSON`, as text.
#[verifier::external_body]
pub(crate) fn application_json() -> (res: String)
    ensures
        res@ == "application/json"@,
{
    mime::APPLICATION_JSON.as_ref().to_owned()
}

/// `mime::IMAGE_PNG`, as text.
#[verifier::external_body]
pub(crate) fn image_png() -> (res: String)
    ensures
        res@ == "image/png"@,
{
    mime::IMAGE_PNG.as_ref().to_owned()
}

/// `mime::TEXT_PLAIN_UTF_8`, as text.
#[verifier::external_body]
pub(crate) fn text_plain_utf_8() -> (res: String)
    ensures
        res@ == "text/plain; charset=utf-8"@,
{
    mime::TEXT_PLAIN_UTF_8.as_ref().to_owned()
}

/// `mime::TEXT_HTML_UTF_8`, as text.
#[verifier::external_body]
pub(crate) fn text_html_utf_8() -> (res: String)
    ensures
        res@ == "text/html; charset=utf-8"@,
{
    mime::TEXT_HTML_UTF_8.as_ref().to_owned()
}

/// `mime::TEXT_XML`, as text.
#[verifier::external_body]
pub(crate) fn text_xml() -> (res: String)
    ensures
        res@ == "text/xml"@,
{
    mime::TEXT_XML.as_ref().to_owned()
}

/// `mime::APPLICATION_OCTET_STREAM`, as text.
#[verifier::external_body]
pub(crate) fn application_octet_stream() -> (res: String)
    ensures
        res@ == "application/octet-stream"@,
{
    mime::APPLICATION_OCTET_STREAM.as_ref().to_owned()
}

/// The media type that the `mime` crate reads out of `text`, written the way
/// the crate writes it; `None` where it reads none.
pub uninterp spec fn parsed_mime(text: Seq<char>) -> Option<Seq<char>>;

/// `<mime::Mime as FromStr>::from_str`, and the text of what it gives.
#[verifier::external_body]
pub(crate) fn parse_mime(text: &str) -> (res: Option<String>)
    ensures
        match res {
            Some(mime) => parsed_mime(text@) == Some(mime@),
            None => parsed_mime(text@) is None,
        },
{
    text.parse::<mime::Mime>().ok().map(|mime| mime.as_ref().to_owned())
}

/// Whether `c` may stand in the value of a header: a tab, or anything from
/// the space on but the delete character.
pub open spec fn header_char(c: char) -> bool {
    c == '\t' || (c as u32 >= 32 && c as u32 != 127)
}

/// Whether `text` can be the value of a header.
pub open spec fn header_text(text: Seq<char>) -> bool {
    forall|i: int| 0 <= i < text.len() ==> header_char(#[trigger] text[i])
}

/// `<http::HeaderValue as TryFrom<&str>>::try_from`: whether the `http` crate
/// takes `text` for the value of a header. It does unless one of the bytes of
/// `text` is a control character other than the tab.
#[verifier::external_body]
pub(crate) fn header_value_ok(text: &str) -> (res: bool)
    ensures
        res == header_text(text@),
{
    http::HeaderValue::try_from(text).is_ok()
}

} // verus!

verus! {

/// What stands for `c` in HTML text: a numeric character reference for the
/// five characters that HTML gives a meaning to, `c` itself otherwise.
pub open spec fn escaped_char(c: char) -> Seq<char> {
    if c == '"' {
        "&#34;"@
    } else if c == '&' {
        "&#38;"@
    } else if c == '\'' {
        "&#39;"@
    } else if c == '<' {
        "&#60;"@
    } else if c == '>' {
        "&#62;"@
    } else {
        seq![c]
    }
}

/// `text` with every character replaced by what stands for it in HTML.
pub open spec fn escaped(text: Seq<char>) -> Seq<char>
    decreases text.len(),
{
    if text.len() == 0 {
        Seq::empty()
    } else {
        escaped(text.drop_last()) + escaped_char(text.last())
    }
}

/// Whether `c` is one of the characters that open or close a tag or a quoted
/// attribute in HTML.
pub open spec fn is_markup(c: char) -> bool {
    c == '<' || c == '>' || c == '"' || c == '\''
}

/// Escaped text holds no character that opens or closes a tag or a quoted
/// attribute, whatever the text was.
pub proof fn lemma_escaped_is_inert(text: Seq<char>)
    ensures
        forall|i: int| 0 <= i < escaped(text).len() ==> !is_markup(#[trigger] escaped(text)[i]),
    decreases text.len(),
{
    if text.len() > 0 {
        lemma_escaped_is_inert(text.drop_last());
        reveal_strlit("&#34;");
        reveal_strlit("&#38;");
        reveal_strlit("&#39;");
        reveal_strlit("&#60;");
        reveal_strlit("&#62;");
        let front = escaped(text.drop_last());
        let back = escaped_char(text.last());
        assert forall|i: int| 0 <= i < back.len() implies !is_markup(#[trigger] back[i]) by {}
        assert forall|i: int| 0 <= i < escaped(text).len() implies !is_markup(
            #[trigger] escaped(text)[i],
        ) by {
            if i < front.len() {
                assert(escaped(text)[i] == front[i]);
            } else {
                assert(escaped(text)[i] == back[i - front.len()]);
            }
        }
    }
}

/// `askama::filters::Escaper::write_escaped_str` of `askama::filters::Html`,
/// writing into a fresh string: `"`, `&`, `'`, `<` and `>` come out as
/// `&#34;`, `&#38;`, `&#39;`, `&#60;` and `&#62;`, everything else as it is.
#[verifier::external_body]
pub(crate) fn escape_html(text: &str) -> (res: String)
    ensures
        res@ == escaped(text@),
{
    let mut out = String::new();
    let _ = askama::filters::Escaper::write_escaped_str(&askama::filters::Html, &mut out, text);
    out
}

} // verus!
