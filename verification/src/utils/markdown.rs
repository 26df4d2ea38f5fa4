//! Rendering markdown, through the `comrak` crate.

use comrak::{markdown_to_html, Options};
use vstd::prelude::*;
use crate::config::ComrakConfig;
use crate::utils::text::text;

verus! {

/// The HTML that `comrak` renders from the markdown text `md` under the
/// extension switches `switches`, given in the order of the fields of
/// `ComrakConfig`, with the prefix `header_ids` for the ids of headers and
/// the delimiter `front_matter` of front matter.
pub uninterp spec fn markdown_html(
    md: Seq<char>,
    switches: Seq<bool>,
    header_ids: Option<Seq<char>>,
    front_matter: Option<Seq<char>>,
) -> Seq<char>;

impl ComrakConfig {
    /// The switches of the configuration, in the order of its fields.
    pub open spec fn switches(self) -> Seq<bool> {
        seq![
            self.strikethrough,
            self.tagfilter,
            self.table,
            self.autolink,
            self.tasklist,
            self.superscript,
            self.footnotes,
            self.description_lists,
            self.multiline_block_quotes,
            self.math_dollars,
            self.math_code,
            self.shortcodes,
            self.wikilinks_title_after_pipe,
            self.wikilinks_title_before_pipe,
            self.underline,
            self.spoiler,
            self.greentext,
        ]
    }

    /// The HTML that the configuration renders from `md`.
    pub open spec fn rendered(self, md: Seq<char>) -> Seq<char> {
        markdown_html(md, self.switches(), text(self.header_ids), text(self.front_matter_delimiter))
    }
}

/// Renders `md` with `comrak::markdown_to_html`, under the default options
/// of the crate with the extensions set as `c` says.
///
/// Trusted: the result is what `markdown_html` names for the text and the
/// settings of `c`; every other option keeps its default.
#[verifier::external_body]
fn to_html(md: &str, c: &ComrakConfig) -> (html: String)
    ensures
        html@ == markdown_html(
            md@,
            c.switches(),
            text(c.header_ids),
            text(c.front_matter_delimiter),
        ),
{
    let mut o = Options::default();
    let e = &mut o.extension;
    e.strikethrough = c.strikethrough; e.tagfilter = c.tagfilter;
    e.table = c.table; e.autolink = c.autolink;
    e.tasklist = c.tasklist; e.superscript = c.superscript;
    e.footnotes = c.footnotes; e.description_lists = c.description_lists;
    e.multiline_block_quotes = c.multiline_block_quotes; e.math_dollars = c.math_dollars;
    e.math_code = c.math_code; e.shortcodes = c.shortcodes;
    e.wikilinks_title_after_pipe = c.wikilinks_title_after_pipe;
    e.wikilinks_title_before_pipe = c.wikilinks_title_before_pipe;
    e.underline = c.underline; e.spoiler = c.spoiler; e.greentext = c.greentext;
    e.header_ids = c.header_ids.clone();
    e.front_matter_delimiter = c.front_matter_delimiter.clone();
    markdown_to_html(md, &o)
}

/// Renders the markdown text `md` to HTML.
pub fn render(md: &str, c: &ComrakConfig) -> (html: String)
    ensures
        html@ == c.rendered(md@),
{
    to_html(md, c)
}

} // verus!
