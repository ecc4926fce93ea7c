//! Shared XML-emission helpers: character escaping (through the `xml`
//! crate) and verified builders for attributes and simple text elements.

use vstd::prelude::*;
use vstd::string::*;

verus! {

/// The escaping of one character inside an attribute value, exactly as
/// `xml::escape::escape_str_attribute` performs it.
pub open spec fn escape_attr_char(c: char) -> Seq<char> {
    if c == '<' {
        "&lt;"@
    } else if c == '>' {
        "&gt;"@
    } else if c == '"' {
        "&quot;"@
    } else if c == '\'' {
        "&apos;"@
    } else if c == '&' {
        "&amp;"@
    } else if c == '\n' {
        "&#xA;"@
    } else if c == '\r' {
        "&#xD;"@
    } else {
        seq![c]
    }
}

/// `s` with every character escaped for use in an attribute value.
pub open spec fn escaped_attr(s: Seq<char>) -> Seq<char>
    decreases s.len(),
{
    if s.len() == 0 {
        Seq::empty()
    } else {
        escaped_attr(s.drop_last()) + escape_attr_char(s.last())
    }
}

/// The escaping of one character inside character data, exactly as
/// `xml::escape::escape_str_pcdata` performs it.
pub open spec fn escape_text_char(c: char) -> Seq<char> {
    if c == '<' {
        "&lt;"@
    } else if c == '>' {
        "&gt;"@
    } else if c == '&' {
        "&amp;"@
    } else {
        seq![c]
    }
}

/// `s` with every character escaped for use in character data.
pub open spec fn escaped_text(s: Seq<char>) -> Seq<char>
    decreases s.len(),
{
    if s.len() == 0 {
        Seq::empty()
    } else {
        escaped_text(s.drop_last()) + escape_text_char(s.last())
    }
}

/// Relies on `xml::escape::escape_str_attribute`: it replaces `<`, `>`,
/// `"`, `'`, `&`, `\n` and `\r` with their entity references and passes
/// every other character through unchanged.
#[verifier::external_body]
pub(crate) fn escape_attr(s: &str) -> (r: String)
    ensures
        r@ == escaped_attr(s@),
{
    xml::escape::escape_str_attribute(s).into_owned()
}

/// Relies on `xml::escape::escape_str_pcdata`: it replaces `<`, `>` and
/// `&` with their entity references and passes every other character
/// through unchanged.
#[verifier::external_body]
pub(crate) fn escape_text(s: &str) -> (r: String)
    ensures
        r@ == escaped_text(s@),
{
    xml::escape::escape_str_pcdata(s).into_owned()
}

/// One XML attribute, leading space included, with its value escaped.
pub open spec fn spec_attr(name: Seq<char>, value: Seq<char>) -> Seq<char> {
    " "@ + name + "=\""@ + escaped_attr(value) + "\""@
}

/// Appends ` name="value"` to `out`, escaping the value.
pub fn push_attr(out: &mut String, name: &str, value: &str)
    ensures
        final(out)@ == old(out)@ + spec_attr(name@, value@),
{
    out.append(" ");
    out.append(name);
    out.append("=\"");
    let e = escape_attr(value);
    out.append(e.as_str());
    out.append("\"");
}

/// A text element: `<name>text</name>`, with the text escaped.
pub open spec fn spec_text_elem(name: Seq<char>, text: Seq<char>) -> Seq<char> {
    "<"@ + name + ">"@ + escaped_text(text) + "</"@ + name + ">"@
}

/// Appends `<name>text</name>` to `out`, escaping the text.
pub fn push_text_elem(out: &mut String, name: &str, text: &str)
    ensures
        final(out)@ == old(out)@ + spec_text_elem(name@, text@),
{
    out.append("<");
    out.append(name);
    out.append(">");
    let e = escape_text(text);
    out.append(e.as_str());
    out.append("</");
    out.append(name);
    out.append(">");
}

} // verus!
