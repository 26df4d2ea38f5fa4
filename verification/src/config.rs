//! Settings that the services read.

use vstd::prelude::*;
use vstd::string::StringExecFns;
use crate::utils::text::same_str;

verus! {

/// Settings of the comment service.
#[derive(Debug)]
pub struct RalineConfig {
    pub site_url: String,
    pub site_name: String,
    pub server_url: String,
    /// Addresses, in their canonical text form, that may not submit.
    pub disallow_ips: Vec<String>,
    /// Length in seconds of the window in which one address may post once.
    pub ip_qps: u64,
    /// Whether submissions wait for approval.
    pub audit: bool,
    pub disable_user_agent: bool,
    pub disable_region: bool,
    /// Words that mark a comment as spam.
    pub forbidden_words: Vec<String>,
    pub recaptcha_v3_key: Option<String>,
    pub turnstile_key: Option<String>,
}

/// The rate-limit window of a configuration that names none.
pub fn default_ip_qps() -> (n: u64)
    ensures
        n == 60,
{
    60
}

/// The value of a switch that is on unless configured otherwise.
pub fn default_true() -> (b: bool)
    ensures
        b,
{
    true
}

} // verus!

verus! {

/// Settings of the spam checker.
#[derive(Debug)]
pub struct AkismetConfig {
    /// The key of the checking service; the word `false` switches the
    /// checker off.
    pub akismet_key: String,
}

/// The key of a configuration that names none.
pub fn default_key() -> (key: String)
    ensures
        key@ == "70542d86693e"@,
{
    String::from_str("70542d86693e")
}

impl AkismetConfig {
    /// Whether the spam checker is switched on.
    pub fn enabled(&self) -> (b: bool)
        ensures
            b == (self.akismet_key@ != "false"@),
    {
        !same_str(self.akismet_key.as_str(), "false")
    }
}

/// The credentials of one identity provider.
#[derive(Debug)]
pub struct AuthConfigDefine {
    pub client_id: String,
    pub client_secret: Option<String>,
}

/// The credentials of the identity providers.
#[derive(Debug)]
pub struct AuthConfig {
    pub qq: AuthConfigDefine,
    pub weibo: AuthConfigDefine,
    pub wechat: AuthConfigDefine,
    pub github: AuthConfigDefine,
    pub twitter: AuthConfigDefine,
}

/// Settings of the address database.
#[derive(Debug)]
pub struct Ip2RegionConfig {
    pub db_path: String,
}

/// The path of the address database of a configuration that names none.
pub fn default_db_path() -> (path: String)
    ensures
        path@ == "./data/ip2region.xdb"@,
{
    String::from_str("./data/ip2region.xdb")
}

/// Settings of outgoing mail.
#[derive(Debug)]
pub struct EmailConfig {
    pub from: String,
}

/// The markdown extensions that rendering applies.
#[derive(Debug)]
pub struct ComrakConfig {
    pub strikethrough: bool,
    pub tagfilter: bool,
    pub table: bool,
    pub autolink: bool,
    pub tasklist: bool,
    pub superscript: bool,
    pub header_ids: Option<String>,
    pub footnotes: bool,
    pub description_lists: bool,
    pub front_matter_delimiter: Option<String>,
    pub multiline_block_quotes: bool,
    pub math_dollars: bool,
    pub math_code: bool,
    pub shortcodes: bool,
    pub wikilinks_title_after_pipe: bool,
    pub wikilinks_title_before_pipe: bool,
    pub underline: bool,
    pub spoiler: bool,
    pub greentext: bool,
}

impl ComrakConfig {
    /// Every switch is on, and neither a prefix for header ids nor a
    /// delimiter for front matter is set.
    pub open spec fn all_on(self) -> bool {
        &&& self.strikethrough
        &&& self.tagfilter
        &&& self.table
        &&& self.autolink
        &&& self.tasklist
        &&& self.superscript
        &&& self.header_ids is None
        &&& self.footnotes
        &&& self.description_lists
        &&& self.front_matter_delimiter is None
        &&& self.multiline_block_quotes
        &&& self.math_dollars
        &&& self.math_code
        &&& self.shortcodes
        &&& self.wikilinks_title_after_pipe
        &&& self.wikilinks_title_before_pipe
        &&& self.underline
        &&& self.spoiler
        &&& self.greentext
    }
}

impl Default for ComrakConfig {
    fn default() -> (c: ComrakConfig)
        ensures
            c.all_on(),
    {
        ComrakConfig {
            strikethrough: default_true(),
            tagfilter: default_true(),
            table: default_true(),
            autolink: default_true(),
            tasklist: default_true(),
            superscript: default_true(),
            header_ids: None,
            footnotes: default_true(),
            description_lists: default_true(),
            front_matter_delimiter: None,
            multiline_block_quotes: default_true(),
            math_dollars: default_true(),
            math_code: default_true(),
            shortcodes: default_true(),
            wikilinks_title_after_pipe: default_true(),
            wikilinks_title_before_pipe: default_true(),
            underline: default_true(),
            spoiler: default_true(),
            greentext: default_true(),
        }
    }
}

} // verus!
