//! Classifying a new comment.
//!
//! A submission by anyone but an administrator passes four fail-fast
//! checks, each of which rejects it outright: the deny list of addresses,
//! the registration of the page, the duplicate check, and the rate limit.
//! What passes is given a status:
//! the audit setting chooses between `Waiting` and `Approved`, the verdict
//! of the spam checker can turn `Approved` into `Spam`, and a forbidden
//! word turns any status into `Spam`.

use vstd::prelude::*;
use vstd::string::StringExecFns;
use crate::dto::comment::AddCommentReq;
use crate::error::Rejection;
use crate::model::comments::{clone_opt, Model};
use crate::model::page_view_counter::PathId;
use crate::model::CommentStatus;
use crate::service::comment::CommentService;
use crate::service::criteria::{exists_row, Authorship, Criteria};
use crate::utils::pattern::{is_match, regex_is_match};
use crate::utils::text::{decimal, decimal_text, join, joined, same_str, text, texts};

verus! {

/// What the spam checker said of a comment. A checker that could not be
/// reached counts as one that found nothing.
#[derive(Clone, Copy, Debug, PartialEq, Eq, Structural)]
pub enum Verdict {
    Ham,
    Spam,
    Unavailable,
}

/// The answer of one check on a submission.
#[derive(Clone, Copy, Debug, PartialEq, Eq, Structural)]
pub enum Outcome {
    /// The submission is turned down for the given reason.
    Reject(Rejection),
    /// The check has no objection.
    Continue,
}

/// The fail-fast checks on a submission, in the order in which they run.
#[derive(Clone, Copy, Debug, PartialEq, Eq, Structural)]
pub enum Check {
    /// The address of the submitter is not on the deny list.
    DenyList,
    /// The commented page is registered.
    Page,
    /// The page holds no comment with the same author fields and text.
    Duplicate,
    /// The address did not post within the rate-limit window.
    RateLimit,
}

/// The text that is stored for a submission: the comment itself, or, where
/// it quotes comment `pid` of author `at`, the comment behind a link to the
/// quoted one.
pub open spec fn stored_text(at: Option<Seq<char>>, pid: Option<i32>, comment: Seq<char>) -> Seq<char> {
    match (pid, at) {
        (Some(p), Some(a)) => seq!['[', '@'] + a + seq![']', '(', '#'] + decimal(p as int) + seq![
            ')',
            ':',
            ' ',
        ] + comment,
        _ => comment,
    }
}

/// The pattern that matches any of the words: their alternation, in
/// parentheses.
pub open spec fn forbidden_pattern(words: Seq<Seq<char>>) -> Seq<char> {
    seq!['('] + joined(words, seq!['|']) + seq![')']
}

/// Whether `row` repeats the submission on page `page_id`: same mail, link
/// and nick, and the text that the submission would be stored with.
pub open spec fn repeats(page_id: i32, comment: AddCommentReq) -> spec_fn(Model) -> bool {
    |row: Model|
        {
            &&& row.page_id == page_id
            &&& text(row.mail) == text(comment.mail)
            &&& text(row.link) == text(comment.link)
            &&& text(row.nick) == text(comment.nick)
            &&& row.content@ == stored_text(text(comment.at), comment.pid, comment.comment@)
        }
}

/// Whether `row` came from address `ip` less than `window` seconds before
/// `now`.
pub open spec fn recent_from(ip: Seq<char>, now: i64, window: u64) -> spec_fn(Model) -> bool {
    |row: Model| row.ip@ == ip && row.created_at > now - window * 1000
}

/// Some row of `rows` satisfies `p`.
pub open spec fn some_row(rows: Seq<Model>, p: spec_fn(Model) -> bool) -> bool {
    exists|i: int| 0 <= i < rows.len() && p(#[trigger] rows[i])
}

/// `s` is one of the listed texts.
pub open spec fn listed(list: Seq<String>, s: Seq<char>) -> bool {
    exists|i: int| 0 <= i < list.len() && (#[trigger] list[i])@ == s
}

/// The status of a comment that passed the fail-fast checks. `hit` tells
/// whether the forbidden words match the comment, and is `None` where they
/// form no valid pattern.
pub open spec fn settled(audit: bool, verdict: Verdict, hit: Option<bool>) -> Result<
    CommentStatus,
    Rejection,
> {
    match hit {
        None => Err(Rejection::ForbiddenWords),
        Some(true) => Ok(CommentStatus::Spam),
        Some(false) => Ok(
            if audit {
                CommentStatus::Waiting
            } else if verdict == Verdict::Spam {
                CommentStatus::Spam
            } else {
                CommentStatus::Approved
            },
        ),
    }
}

/// Gives a comment that passed the fail-fast checks its status.
pub fn settle(audit: bool, verdict: Verdict, hit: Option<bool>) -> (r: Result<CommentStatus, Rejection>)
    ensures
        r == settled(audit, verdict, hit),
{
    let mut status = if audit {
        CommentStatus::Waiting
    } else {
        CommentStatus::Approved
    };
    if status == CommentStatus::Approved {
        if verdict == Verdict::Spam {
            status = CommentStatus::Spam;
        }
    }
    match hit {
        None => Err(Rejection::ForbiddenWords),
        Some(true) => Ok(CommentStatus::Spam),
        Some(false) => Ok(status),
    }
}

/// A forbidden word makes spam of a comment, whatever the audit setting
/// and whatever the spam checker said.
pub proof fn lemma_forbidden_word_forces_spam(audit: bool, verdict: Verdict)
    ensures
        settled(audit, verdict, Some(true)) == Ok::<CommentStatus, Rejection>(CommentStatus::Spam),
{
}

/// A spam checker that cannot be reached decides as one that reports no
/// spam.
pub proof fn lemma_unavailable_is_ham(audit: bool, hit: Option<bool>)
    ensures
        settled(audit, Verdict::Unavailable, hit) == settled(audit, Verdict::Ham, hit),
{
}

/// The classification is a function of its inputs: two runs on the same
/// submission, under the same configuration and on the same rows, with a
/// spam checker that reports no spam and the same finding on forbidden
/// words, give the same answer.
pub proof fn lemma_same_input_same_answer(
    service: CommentService,
    rows: Seq<Model>,
    page: Option<PathId>,
    comment: AddCommentReq,
    ip: Seq<char>,
    now: i64,
    hit: Option<bool>,
    first: Result<CommentStatus, Rejection>,
    second: Result<CommentStatus, Rejection>,
)
    requires
        first == service.classified(rows, page, comment, ip, now, Verdict::Ham, hit),
        second == service.classified(rows, page, comment, ip, now, Verdict::Ham, hit),
    ensures
        first == second,
{
}

/// A forbidden word makes spam of every submission that passes the
/// fail-fast checks.
pub proof fn lemma_forbidden_word_classifies_as_spam(
    service: CommentService,
    rows: Seq<Model>,
    page: Option<PathId>,
    comment: AddCommentReq,
    ip: Seq<char>,
    now: i64,
    verdict: Verdict,
)
    requires
        service.refusal(rows, page, comment, ip, now) is None,
    ensures
        service.classified(rows, page, comment, ip, now, verdict, Some(true)) == Ok::<
            CommentStatus,
            Rejection,
        >(CommentStatus::Spam),
{
}

/// No check makes a status better: a comment under audit is never
/// approved.
pub proof fn lemma_audit_never_approves(verdict: Verdict, hit: Option<bool>)
    ensures
        settled(true, verdict, hit) != Ok::<CommentStatus, Rejection>(CommentStatus::Approved),
{
}

/// Whether `s` is one of the listed texts.
pub fn is_listed(list: &Vec<String>, s: &str) -> (b: bool)
    ensures
        b == listed(list@, s@),
{
    let mut i: usize = 0;
    while i < list.len()
        invariant
            i <= list.len(),
            forall|k: int| 0 <= k < i ==> (#[trigger] list@[k])@ != s@,
        decreases list.len() - i,
    {
        if same_str(list[i].as_str(), s) {
            return true;
        }
        i += 1;
    }
    false
}

/// Builds the text that is stored for a comment that quotes comment `pid`
/// of author `at`.
pub fn quote(at: &str, pid: i32, comment: &str) -> (r: String)
    ensures
        r@ == stored_text(Some(at@), Some(pid), comment@),
{
    let mut r = String::from_str("[@");
    proof {
        reveal_strlit("[@");
        reveal_strlit("](#");
        reveal_strlit("): ");
        assert("[@"@ =~= seq!['[', '@']);
        assert("](#"@ =~= seq![']', '(', '#']);
        assert("): "@ =~= seq![')', ':', ' ']);
    }
    r.append(at);
    r.append("](#");
    r.append(decimal_text(pid).as_str());
    r.append("): ");
    r.append(comment);
    r
}

/// Builds the pattern that matches any of the words.
pub fn build_pattern(words: &Vec<String>) -> (r: String)
    ensures
        r@ == forbidden_pattern(texts(words@)),
{
    let mut r = String::from_str("(");
    proof {
        reveal_strlit("(");
        reveal_strlit("|");
        reveal_strlit(")");
        assert("("@ =~= seq!['(']);
        assert("|"@ =~= seq!['|']);
        assert(")"@ =~= seq![')']);
    }
    r.append(join(words, "|").as_str());
    r.append(")");
    r
}

impl AddCommentReq {
    /// The text that is stored for the submission.
    pub open spec fn stored(self) -> Seq<char> {
        stored_text(text(self.at), self.pid, self.comment@)
    }

    /// Builds the text that is stored for the submission.
    pub fn content(&self) -> (r: String)
        ensures
            r@ == self.stored(),
    {
        match (&self.pid, &self.at) {
            (Some(pid), Some(at)) => quote(at.as_str(), *pid, self.comment.as_str()),
            _ => self.comment.clone(),
        }
    }
}

impl CommentService {
    /// The answer of one check on a submission from address `ip` at time
    /// `now`.
    pub open spec fn outcome(
        self,
        check: Check,
        rows: Seq<Model>,
        page: Option<PathId>,
        comment: AddCommentReq,
        ip: Seq<char>,
        now: i64,
    ) -> Outcome {
        let reject = match check {
            Check::DenyList => listed(self.raline.disallow_ips@, ip),
            Check::Page => page is None,
            Check::Duplicate => page is Some && some_row(rows, repeats(page->0.id, comment)),
            Check::RateLimit => some_row(rows, recent_from(ip, now, self.raline.ip_qps)),
        };
        if reject {
            Outcome::Reject(
                match check {
                    Check::DenyList => Rejection::ForbiddenIp,
                    Check::Page => Rejection::PageNotFound,
                    Check::Duplicate => Rejection::DuplicateContent,
                    Check::RateLimit => Rejection::TooFast,
                },
            )
        } else {
            Outcome::Continue
        }
    }

    /// The rejection with which the fail-fast checks answer a submission:
    /// that of the first check that objects, in the order deny list,
    /// page, duplicate, rate limit.
    pub open spec fn refusal(
        self,
        rows: Seq<Model>,
        page: Option<PathId>,
        comment: AddCommentReq,
        ip: Seq<char>,
        now: i64,
    ) -> Option<Rejection> {
        if let Outcome::Reject(e) = self.outcome(Check::DenyList, rows, page, comment, ip, now) {
            Some(e)
        } else if let Outcome::Reject(e) = self.outcome(Check::Page, rows, page, comment, ip, now) {
            Some(e)
        } else if let Outcome::Reject(e) = self.outcome(
            Check::Duplicate,
            rows,
            page,
            comment,
            ip,
            now,
        ) {
            Some(e)
        } else if let Outcome::Reject(e) = self.outcome(
            Check::RateLimit,
            rows,
            page,
            comment,
            ip,
            now,
        ) {
            Some(e)
        } else {
            None
        }
    }

    /// The answer of the whole pipeline, given what the spam checker said
    /// and whether the forbidden words matched.
    pub open spec fn classified(
        self,
        rows: Seq<Model>,
        page: Option<PathId>,
        comment: AddCommentReq,
        ip: Seq<char>,
        now: i64,
        verdict: Verdict,
        hit: Option<bool>,
    ) -> Result<CommentStatus, Rejection> {
        match self.refusal(rows, page, comment, ip, now) {
            Some(e) => Err(e),
            None => settled(self.raline.audit, verdict, hit),
        }
    }

    /// The criteria of the rows that repeat a submission.
    pub fn duplicate_criteria(&self, page_id: i32, comment: &AddCommentReq) -> (c: Criteria)
        ensures
            c.pred() == repeats(page_id, *comment),
    {
        let mut c = Criteria::any();
        c.page_id = Some(page_id);
        c.same_as = Some(
            Authorship {
                mail: clone_opt(&comment.mail),
                link: clone_opt(&comment.link),
                nick: clone_opt(&comment.nick),
                content: comment.content(),
            },
        );
        proof {
            assert(c.pred() =~= repeats(page_id, *comment));
        }
        c
    }

    /// The criteria of the rows that came from `ip` within the rate-limit
    /// window before `now`.
    pub fn rate_criteria(&self, ip: &str, now: i64) -> (c: Criteria)
        ensures
            c.pred() == recent_from(ip@, now, self.raline.ip_qps),
    {
        let mut c = Criteria::any();
        c.ip = Some(String::from_str(ip));
        let start: i128 = now as i128 - (self.raline.ip_qps as i128) * 1000;
        if start >= i64::MIN as i128 {
            c.created_after = Some(start as i64);
        }
        proof {
            assert(c.pred() =~= recent_from(ip@, now, self.raline.ip_qps));
        }
        c
    }

    /// Runs one check on a submission from address `client_ip` at time
    /// `now`. `rows` must hold every comment of the page and every comment
    /// from the address; `page` is the page registered for the path of the
    /// submission.
    pub fn run(
        &self,
        check: Check,
        rows: &Vec<Model>,
        page: Option<&PathId>,
        comment: &AddCommentReq,
        client_ip: &str,
        now: i64,
    ) -> (r: Outcome)
        ensures
            r == self.outcome(
                check,
                rows@,
                match page {
                    Some(p) => Some(*p),
                    None => None,
                },
                *comment,
                client_ip@,
                now,
            ),
    {
        match check {
            Check::DenyList => if is_listed(&self.raline.disallow_ips, client_ip) {
                Outcome::Reject(Rejection::ForbiddenIp)
            } else {
                Outcome::Continue
            },
            Check::Page => if page.is_none() {
                Outcome::Reject(Rejection::PageNotFound)
            } else {
                Outcome::Continue
            },
            Check::Duplicate => match page {
                Some(p) => if exists_row(rows, &self.duplicate_criteria(p.id, comment)) {
                    Outcome::Reject(Rejection::DuplicateContent)
                } else {
                    Outcome::Continue
                },
                None => Outcome::Continue,
            },
            Check::RateLimit => if exists_row(rows, &self.rate_criteria(client_ip, now)) {
                Outcome::Reject(Rejection::TooFast)
            } else {
                Outcome::Continue
            },
        }
    }

    /// Runs the fail-fast checks in their order, and stops at the first
    /// that objects.
    pub fn screen(
        &self,
        rows: &Vec<Model>,
        page: Option<&PathId>,
        comment: &AddCommentReq,
        client_ip: &str,
        now: i64,
    ) -> (r: Option<Rejection>)
        ensures
            r == self.refusal(
                rows@,
                match page {
                    Some(p) => Some(*p),
                    None => None,
                },
                *comment,
                client_ip@,
                now,
            ),
    {
        if let Outcome::Reject(e) = self.run(Check::DenyList, rows, page, comment, client_ip, now) {
            return Some(e);
        }
        if let Outcome::Reject(e) = self.run(Check::Page, rows, page, comment, client_ip, now) {
            return Some(e);
        }
        if let Outcome::Reject(e) = self.run(Check::Duplicate, rows, page, comment, client_ip, now) {
            return Some(e);
        }
        if let Outcome::Reject(e) = self.run(Check::RateLimit, rows, page, comment, client_ip, now) {
            return Some(e);
        }
        None
    }

    /// Whether a forbidden word matches `content`: `Some(false)` where no
    /// word is configured, `None` where the words form no valid pattern.
    pub fn forbidden_hit(&self, content: &str) -> (r: Option<bool>)
        ensures
            self.raline.forbidden_words@.len() == 0 ==> r == Some(false),
            self.raline.forbidden_words@.len() > 0 ==> (r matches Some(hit) ==> hit == regex_is_match(
                forbidden_pattern(texts(self.raline.forbidden_words@)),
                content@,
            )),
    {
        if self.raline.forbidden_words.len() > 0 {
            let pattern = build_pattern(&self.raline.forbidden_words);
            is_match(pattern.as_str(), content)
        } else {
            Some(false)
        }
    }

    /// Classifies a submission: rejects it, or names the status under
    /// which it is stored. `verdict` is what the spam checker said; it is
    /// only read where the comment would otherwise be approved.
    ///
    /// The answer is `classified` for one of two outcomes of the search
    /// for forbidden words: the one that `regex_is_match` names, or none
    /// where the words did not compile.
    pub fn check_comment(
        &self,
        rows: &Vec<Model>,
        page: Option<&PathId>,
        comment: &AddCommentReq,
        client_ip: &str,
        now: i64,
        verdict: Verdict,
    ) -> (r: Result<CommentStatus, Rejection>)
        ensures
            ({
                let page = match page {
                    Some(p) => Some(*p),
                    None => None,
                };
                let words = texts(self.raline.forbidden_words@);
                let hit = if words.len() == 0 {
                    false
                } else {
                    regex_is_match(forbidden_pattern(words), comment.comment@)
                };
                ||| r == self.classified(rows@, page, *comment, client_ip@, now, verdict, Some(hit))
                ||| words.len() > 0 && r == self.classified(
                    rows@,
                    page,
                    *comment,
                    client_ip@,
                    now,
                    verdict,
                    None,
                )
            }),
    {
        if let Some(e) = self.screen(rows, page, comment, client_ip, now) {
            return Err(e);
        }
        settle(self.raline.audit, verdict, self.forbidden_hit(comment.comment.as_str()))
    }
}

} // verus!
