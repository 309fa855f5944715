//! The formats a comparison report can be written in.

use vstd::prelude::*;

use crate::text::{chars_eq, chars_of, concat_str};

verus! {

/// A report format.
#[derive(Debug, Clone, Copy, PartialEq, Eq, Structural)]
pub enum ReportFormat {
    Markdown,
    Html,
    Json,
}

/// The format a name asks for: `markdown` or `md`, `html`, `json`.
pub open spec fn format_named(name: Seq<char>) -> Option<ReportFormat> {
    if name == "markdown"@ || name == "md"@ {
        Some(ReportFormat::Markdown)
    } else if name == "html"@ {
        Some(ReportFormat::Html)
    } else if name == "json"@ {
        Some(ReportFormat::Json)
    } else {
        None
    }
}

/// `markdown` and `md` ask for Markdown, `html` for HTML, `json` for JSON;
/// every other name is unknown.
pub proof fn law_format_names(name: Seq<char>)
    ensures
        (name == "markdown"@ || name == "md"@) ==> format_named(name) == Some(ReportFormat::Markdown),
        name == "html"@ ==> format_named(name) == Some(ReportFormat::Html),
        name == "json"@ ==> format_named(name) == Some(ReportFormat::Json),
        !(name == "markdown"@ || name == "md"@ || name == "html"@ || name == "json"@)
            ==> format_named(name) is None,
{
    reveal_strlit("markdown");
    reveal_strlit("md");
    reveal_strlit("html");
    reveal_strlit("json");
    assert("markdown"@[0] == 'm' && "md"@[0] == 'm' && "html"@[0] == 'h' && "json"@[0] == 'j');
}

/// The format a name asks for, or the message naming an unknown one.
pub fn report_format(name: &str) -> (r: Result<ReportFormat, String>)
    ensures
        r is Ok <==> format_named(name@) is Some,
        r matches Ok(f) ==> format_named(name@) == Some(f),
        r matches Err(m) ==> m@ == "Unknown format: "@ + name@ + ". Use markdown, html, or json."@,
{
    let n = chars_of(name);
    if chars_eq(&n, &chars_of("markdown")) || chars_eq(&n, &chars_of("md")) {
        Ok(ReportFormat::Markdown)
    } else if chars_eq(&n, &chars_of("html")) {
        Ok(ReportFormat::Html)
    } else if chars_eq(&n, &chars_of("json")) {
        Ok(ReportFormat::Json)
    } else {
        Err(concat_str(concat_str("Unknown format: ", name).as_str(), ". Use markdown, html, or json."))
    }
}

} // verus!
