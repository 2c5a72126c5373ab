//! Chat messages are written in Markdown and shown as sanitized HTML.
use vstd::prelude::*;

verus! {

/// The HTML that pulldown-cmark writes for a Markdown text, with its tables,
/// strikethrough and task-list extensions each on or off as given.
pub uninterp spec fn markdown_html(
    input: Seq<char>,
    tables: bool,
    strikethrough: bool,
    tasklists: bool,
) -> Seq<char>;

/// The HTML that ammonia keeps of a fragment under its default policy, with
/// links allowed only to the given URL schemes.
pub uninterp spec fn sanitized_html(html: Seq<char>, schemes: Seq<Seq<char>>) -> Seq<char>;

/// The texts of a list of string slices.
pub open spec fn texts(v: Seq<&str>) -> Seq<Seq<char>> {
    v.map_values(|s: &str| s@)
}

/// `pulldown_cmark::html::push_html` over `pulldown_cmark::Parser::new_ext`:
/// the HTML of a Markdown text, with the tables, strikethrough and task-list
/// extensions set as given. The contract claims only that the result is a
/// function of these arguments.
#[verifier::external_body]
fn markdown_to_html(input: &str, tables: bool, strikethrough: bool, tasklists: bool) -> (r:
    String)
    ensures
        r@ == markdown_html(input@, tables, strikethrough, tasklists),
{
    let mut options = pulldown_cmark::Options::empty();
    options.set(pulldown_cmark::Options::ENABLE_TABLES, tables);
    options.set(pulldown_cmark::Options::ENABLE_STRIKETHROUGH, strikethrough);
    options.set(pulldown_cmark::Options::ENABLE_TASKLISTS, tasklists);
    let mut out = String::new();
    pulldown_cmark::html::push_html(&mut out, pulldown_cmark::Parser::new_ext(input, options));
    out
}

/// `ammonia::Builder::clean`, with the default policy and the given URL
/// schemes: what is left of an HTML fragment once scripts, event handlers and
/// links to other schemes are removed. The contract claims only that the
/// result is a function of these arguments.
#[verifier::external_body]
fn sanitize_html(html: &str, schemes: &[&str]) -> (r: String)
    ensures
        r@ == sanitized_html(html@, texts(schemes@)),
{
    ammonia::Builder::default().url_schemes(schemes.iter().copied().collect()).clean(
        html,
    ).to_string()
}

/// The URL schemes a link in a chat message may use.
pub open spec fn chat_link_schemes() -> Seq<Seq<char>> {
    seq!["http"@, "https"@, "mailto"@]
}

/// A Markdown text as the HTML that the chat shows: rendered with tables,
/// strikethrough and task lists, then sanitized so that links may only use
/// `http`, `https` and `mailto`.
pub fn render_markdown(input: &str) -> (r: String)
    ensures
        r@ == sanitized_html(markdown_html(input@, true, true, true), chat_link_schemes()),
{
    let html = markdown_to_html(input, true, true, true);
    let schemes: [&str; 3] = ["http", "https", "mailto"];
    assert(texts(schemes@) =~= chat_link_schemes());
    sanitize_html(html.as_str(), &schemes)
}

} // verus!
