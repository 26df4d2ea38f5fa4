//! The spam checker, as far as the service decides about it.

use vstd::prelude::*;
use vstd::string::StringExecFns;
use crate::config::{AkismetConfig, RalineConfig};
use crate::dto::comment::AddCommentReq;
use crate::model::comments::clone_opt;
use crate::service::spam::Verdict;

verus! {

/// Sets up the spam checker from the configuration.
#[derive(Debug)]
pub struct AkismetPlugin;

/// The spam checker: switched off, or set up for one site with one key.
#[derive(Debug)]
pub enum Akismet {
    Disable,
    Enable { blog: String, key: String },
}

/// What the spam checker is asked about one comment.
#[derive(Debug)]
pub struct CheckRequest {
    /// The address of the commented page.
    pub blog: String,
    pub user_ip: String,
    pub comment_content: String,
    pub comment_author: Option<String>,
    pub comment_author_email: Option<String>,
}

impl AkismetPlugin {
    /// The checker that the configuration asks for: none where the key is
    /// the word `false`.
    pub fn create_client(config: AkismetConfig, raline: RalineConfig) -> (a: Akismet)
        ensures
            config.akismet_key@ == "false"@ ==> a is Disable,
            config.akismet_key@ != "false"@ ==> a == (Akismet::Enable {
                blog: raline.site_url,
                key: config.akismet_key,
            }),
    {
        if !config.enabled() {
            return Akismet::Disable;
        }
        Akismet::Enable { blog: raline.site_url, key: config.akismet_key }
    }
}

impl Akismet {
    /// Whether `r` asks about the comment `comment` from address `ip` on
    /// the site `blog`.
    pub open spec fn asks(r: CheckRequest, blog: Seq<char>, ip: Seq<char>, comment: AddCommentReq) -> bool {
        &&& r.blog@ == blog + seq!['/'] + comment.url@
        &&& r.user_ip@ == ip
        &&& r.comment_content == comment.comment
        &&& r.comment_author == comment.nick
        &&& r.comment_author_email == comment.mail
    }

    /// Builds the question to the spam checker about a comment from
    /// address `ip`. A checker that is switched off asks nothing.
    pub fn request(&self, ip: &str, comment: &AddCommentReq) -> (r: Option<CheckRequest>)
        ensures
            match *self {
                Akismet::Disable => r is None,
                Akismet::Enable { blog, key } => r matches Some(q) && Akismet::asks(
                    q,
                    blog@,
                    ip@,
                    *comment,
                ),
            },
    {
        match self {
            Akismet::Disable => None,
            Akismet::Enable { blog, key } => {
                proof {
                    reveal_strlit("/");
                    assert("/"@ =~= seq!['/']);
                }
                let mut page = blog.clone();
                page.append("/");
                page.append(comment.url.as_str());
                Some(
                    CheckRequest {
                        blog: page,
                        user_ip: String::from_str(ip),
                        comment_content: comment.comment.clone(),
                        comment_author: clone_opt(&comment.nick),
                        comment_author_email: clone_opt(&comment.mail),
                    },
                )
            },
        }
    }

    /// The verdict for what the spam checker answered: `spam` is its
    /// answer where it gave one, and `None` where it failed. A checker that
    /// is switched off finds nothing.
    pub fn check_comment(&self, spam: Option<bool>) -> (v: Verdict)
        ensures
            v == match *self {
                Akismet::Disable => Verdict::Ham,
                Akismet::Enable { .. } => match spam {
                    Some(true) => Verdict::Spam,
                    Some(false) => Verdict::Ham,
                    None => Verdict::Unavailable,
                },
            },
    {
        match self {
            Akismet::Disable => Verdict::Ham,
            Akismet::Enable { .. } => match spam {
                Some(true) => Verdict::Spam,
                Some(false) => Verdict::Ham,
                None => Verdict::Unavailable,
            },
        }
    }
}

} // verus!
