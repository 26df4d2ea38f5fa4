//! Turning stored rows into what a response shows.

use vstd::prelude::*;
use crate::dto::comment::CommentResp;
use crate::model::comments::{clone_opt, Model};
use crate::model::users;
use crate::model::UserType;
use crate::plugins::uaparser::{Client, ToStringExt};
use crate::service::comment::CommentService;
use crate::utils::avatar::{avatar_url, pictures};
use crate::utils::ip2region::Location;
use crate::utils::jwt::OptionalClaims;
use crate::utils::markdown::render;
use crate::utils::sanitize::{sanitize, sanitized};
use crate::utils::text::text;

verus! {

/// A stored row together with what the outside services found out about
/// it.
#[derive(Debug)]
pub struct Sourced {
    pub row: Model,
    /// The parsed user agent of the row, where it was parsed.
    pub client: Option<Client>,
    /// The region of the address of the row, where it is known.
    pub location: Option<Location>,
}

/// The first of `users` with the id `uid`.
pub open spec fn user_of(users: Seq<users::Model>, uid: Option<i32>) -> Option<users::Model>
    decreases users.len(),
{
    if users.len() == 0 {
        None
    } else if uid == Some(users[0].id) {
        Some(users[0])
    } else {
        user_of(users.drop_first(), uid)
    }
}

/// The rows that stand under the root with the id `root`.
pub open spec fn under(root: i32) -> spec_fn(Sourced) -> bool {
    |c: Sourced| c.row.rid == root
}

/// A reference to another comment as a response shows it: absent where
/// the row names none.
pub open spec fn reference(id: i32) -> Option<i32> {
    if id == 0 {
        None
    } else {
        Some(id)
    }
}

/// Finds the first of `users` with the id `uid`.
pub fn find_user(users: &Vec<users::Model>, uid: Option<i32>) -> (r: Option<&users::Model>)
    ensures
        match r {
            Some(u) => user_of(users@, uid) == Some(*u),
            None => user_of(users@, uid) is None,
        },
{
    let id = match uid {
        Some(id) => id,
        None => {
            proof {
                lemma_no_user(users@);
            }
            return None;
        },
    };
    let mut i: usize = 0;
    proof {
        assert(users@.skip(0) =~= users@);
    }
    while i < users.len()
        invariant
            i <= users.len(),
            uid == Some(id),
            user_of(users@, uid) == user_of(users@.skip(i as int), uid),
        decreases users.len() - i,
    {
        proof {
            assert(users@.skip(i as int).drop_first() =~= users@.skip(i + 1));
            assert(users@.skip(i as int)[0] == users@[i as int]);
        }
        if users[i].id == id {
            return Some(&users[i]);
        }
        i += 1;
    }
    None
}

/// A comment without an author account belongs to no user.
pub proof fn lemma_no_user(users: Seq<users::Model>)
    ensures
        user_of(users, None) is None,
    decreases users.len(),
{
    if users.len() > 0 {
        lemma_no_user(users.drop_first());
    }
}

impl CommentService {
    /// Whether the response `r` shows the row `c` to caller `who`, but for
    /// its replies.
    ///
    /// Name, mail and picture are those of the author's account where the
    /// row has one; otherwise the row's own, and a picture derived from
    /// them. The text is rendered from markdown and cleaned. Browser and
    /// system are shown
    /// unless switched off. The source text is shown to signed-in callers
    /// only. The region is shown unless switched off, to an administrator
    /// always and in more detail.
    pub open spec fn shows(
        self,
        r: CommentResp,
        c: Sourced,
        users: Seq<users::Model>,
        who: OptionalClaims,
    ) -> bool {
        let user = user_of(users, c.row.user_id);
        let nick = match user {
            Some(u) => Some(u.username),
            None => c.row.nick,
        };
        let mail = match user {
            Some(u) => if u.email is Some {
                u.email
            } else {
                c.row.mail
            },
            None => c.row.mail,
        };
        let account_picture = match user {
            Some(u) => u.avatar,
            None => None,
        };
        &&& r.status == c.row.status
        &&& r.comment@ == sanitized(self.comrak.rendered(c.row.content@))
        &&& r.inserted_at == c.row.created_at
        &&& r.link == c.row.link
        &&& r.nick == nick
        &&& r.mail == mail
        &&& r.ty == match user {
            Some(u) => Some(u.ty),
            None => None,
        }
        &&& match account_picture {
            Some(a) => r.avatar == a,
            None => pictures(
                r.avatar@,
                match nick {
                    Some(n) => n@,
                    None => Seq::empty(),
                },
                match mail {
                    Some(m) => m@,
                    None => Seq::empty(),
                },
            ),
        }
        &&& r.pid == reference(c.row.pid)
        &&& r.rid == reference(c.row.rid)
        &&& r.user_id == c.row.user_id
        &&& r.sticky == c.row.sticky
        &&& r.like == c.row.star
        &&& r.object_id == c.row.id
        &&& r.level == 0
        &&& r.browser@ == match c.client {
            Some(client) => if self.raline.disable_user_agent {
                Seq::empty()
            } else {
                client.user_agent.text()
            },
            None => Seq::empty(),
        }
        &&& r.os@ == match c.client {
            Some(client) => if self.raline.disable_user_agent {
                Seq::empty()
            } else {
                client.os.text()
            },
            None => Seq::empty(),
        }
        &&& r.orig == if who.0 is None {
            None
        } else {
            Some(c.row.content)
        }
        &&& text(r.addr) == if self.shows_region(who) {
            match c.location {
                Some(l) => Some(l.described(if who.admin() { 3 } else { 1 })),
                None => None,
            }
        } else {
            None
        }
        &&& r.time == c.row.created_at
    }

    /// Whether the response `r` shows the row `c` to caller `who`, without
    /// replies.
    pub open spec fn presents(
        self,
        r: CommentResp,
        c: Sourced,
        users: Seq<users::Model>,
        who: OptionalClaims,
    ) -> bool {
        self.shows(r, c, users, who) && r.children@.len() == 0
    }

    /// Whether the response `r` shows the root `root` with its replies
    /// from `pool`: the rows of the pool under the root, in the order of
    /// the pool, each without replies of its own.
    pub open spec fn threaded(
        self,
        r: CommentResp,
        root: Sourced,
        pool: Seq<Sourced>,
        users: Seq<users::Model>,
        who: OptionalClaims,
    ) -> bool {
        let kids = pool.filter(under(root.row.id));
        &&& self.shows(r, root, users, who)
        &&& r.children@.len() == kids.len()
        &&& forall|j: int|
            0 <= j < kids.len() ==> self.presents(#[trigger] r.children@[j], kids[j], users, who)
                && kids[j].row.rid == root.row.id
    }

    /// Whether the region of a comment is shown to caller `who`: to an
    /// administrator always, to everyone else unless switched off.
    pub open spec fn shows_region(self, who: OptionalClaims) -> bool {
        who.admin() || !self.raline.disable_region
    }

    /// Tells whether the region of a comment has to be looked up for
    /// caller `who`.
    pub fn wants_region(&self, who: &OptionalClaims) -> (b: bool)
        ensures
            b == self.shows_region(*who),
    {
        who.is_admin() || !self.raline.disable_region
    }

    /// Tells whether the user agent of a comment has to be parsed.
    pub fn wants_user_agent(&self) -> (b: bool)
        ensures
            b == !self.raline.disable_user_agent,
    {
        !self.raline.disable_user_agent
    }

    /// Builds what a response shows of the row `c` to caller `login_user`.
    /// `users` must hold the account of the author, if the row has one.
    pub fn format_comment(
        &self,
        c: &Sourced,
        users: &Vec<users::Model>,
        login_user: &OptionalClaims,
    ) -> (r: CommentResp)
        ensures
            self.presents(r, *c, users@, *login_user),
    {
        let is_admin = login_user.is_admin();
        let (browser, os) = match &c.client {
            Some(client) => {
                if self.wants_user_agent() {
                    (client.user_agent.to_string(), client.os.to_string())
                } else {
                    (String::new(), String::new())
                }
            },
            None => (String::new(), String::new()),
        };
        let addr = if self.wants_region(login_user) {
            match &c.location {
                Some(l) => Some(l.copy().to_string(if is_admin { 3 } else { 1 })),
                None => None,
            }
        } else {
            None
        };
        let comment_html = sanitize(render(c.row.content.as_str(), &self.comrak).as_str());
        let orig = if login_user.is_none() {
            None
        } else {
            Some(c.row.content.clone())
        };
        let user = find_user(users, c.row.user_id);
        let nick = match user {
            Some(u) => Some(u.username.clone()),
            None => clone_opt(&c.row.nick),
        };
        let mail = match user {
            Some(u) => if u.email.is_some() {
                clone_opt(&u.email)
            } else {
                clone_opt(&c.row.mail)
            },
            None => clone_opt(&c.row.mail),
        };
        let account_picture = match user {
            Some(u) => clone_opt(&u.avatar),
            None => None,
        };
        let avatar = match account_picture {
            Some(a) => a,
            None => {
                proof {
                    reveal_strlit("");
                    assert(""@ =~= Seq::<char>::empty());
                }
                let n: &str = match &nick {
                    Some(s) => s.as_str(),
                    None => "",
                };
                let m: &str = match &mail {
                    Some(s) => s.as_str(),
                    None => "",
                };
                avatar_url(n, m)
            },
        };
        let ty: Option<UserType> = match user {
            Some(u) => Some(u.ty),
            None => None,
        };
        CommentResp {
            status: c.row.status,
            comment: comment_html,
            inserted_at: c.row.created_at,
            link: clone_opt(&c.row.link),
            nick,
            mail,
            ty,
            avatar,
            pid: if c.row.pid == 0 { None } else { Some(c.row.pid) },
            rid: if c.row.rid == 0 { None } else { Some(c.row.rid) },
            user_id: c.row.user_id,
            sticky: c.row.sticky,
            like: c.row.star,
            object_id: c.row.id,
            level: 0,
            browser,
            os,
            orig,
            addr,
            time: c.row.created_at,
            children: Vec::new(),
        }
    }

    /// Builds the replies that stand under the root with the id `root`.
    pub fn format_replies(
        &self,
        root: i32,
        pool: &Vec<Sourced>,
        users: &Vec<users::Model>,
        login_user: &OptionalClaims,
    ) -> (kids: Vec<CommentResp>)
        ensures
            kids@.len() == pool@.filter(under(root)).len(),
            forall|j: int|
                0 <= j < kids@.len() ==> self.presents(
                    #[trigger] kids@[j],
                    pool@.filter(under(root))[j],
                    users@,
                    *login_user,
                ) && pool@.filter(under(root))[j].row.rid == root,
    {
        let mut kids: Vec<CommentResp> = Vec::new();
        let mut k: usize = 0;
        proof {
            assert(pool@.take(0) =~= Seq::<Sourced>::empty());
            Seq::<Sourced>::empty().lemma_all_neg_filter_empty(under(root));
        }
        while k < pool.len()
            invariant
                k <= pool.len(),
                kids@.len() == pool@.take(k as int).filter(under(root)).len(),
                forall|j: int|
                    0 <= j < kids@.len() ==> self.presents(
                        #[trigger] kids@[j],
                        pool@.take(k as int).filter(under(root))[j],
                        users@,
                        *login_user,
                    ) && pool@.take(k as int).filter(under(root))[j].row.rid == root,
            decreases pool.len() - k,
        {
            proof {
                assert(pool@.take(k + 1) =~= pool@.take(k as int).push(pool@[k as int]));
                pool@.take(k as int).lemma_filter_push(pool@[k as int], under(root));
            }
            if pool[k].row.rid == root {
                let shown = self.format_comment(&pool[k], users, login_user);
                kids.push(shown);
            }
            k += 1;
        }
        proof {
            assert(pool@.take(pool.len() as int) =~= pool@);
        }
        kids
    }

    /// Builds the threads of a response: each of `roots` in order, with
    /// the rows of `children` that stand under it.
    pub fn compute_comments(
        &self,
        roots: &Vec<Sourced>,
        children: &Vec<Sourced>,
        users: &Vec<users::Model>,
        login_user: &OptionalClaims,
    ) -> (data: Vec<CommentResp>)
        ensures
            data@.len() == roots@.len(),
            forall|i: int|
                0 <= i < data@.len() ==> self.threaded(
                    #[trigger] data@[i],
                    roots@[i],
                    children@,
                    users@,
                    *login_user,
                ),
            forall|i: int, j: int|
                0 <= i < data@.len() && 0 <= j < data@[i].children@.len() ==> (
                #[trigger] data@[i].children@[j]).children@.len() == 0 && data@[i].children@[j].rid
                    == reference(data@[i].object_id),
    {
        let mut data: Vec<CommentResp> = Vec::new();
        let mut i: usize = 0;
        while i < roots.len()
            invariant
                i <= roots.len(),
                data@.len() == i,
                forall|k: int|
                    0 <= k < i ==> self.threaded(
                        #[trigger] data@[k],
                        roots@[k],
                        children@,
                        users@,
                        *login_user,
                    ),
            decreases roots.len() - i,
        {
            let mut cr = self.format_comment(&roots[i], users, login_user);
            let kids = self.format_replies(cr.object_id, children, users, login_user);
            cr.children = kids;
            data.push(cr);
            i += 1;
        }
        proof {
            assert forall|i: int, j: int|
                0 <= i < data@.len() && 0 <= j < data@[i].children@.len() implies (
            #[trigger] data@[i].children@[j]).children@.len() == 0 && data@[i].children@[j].rid
                == reference(data@[i].object_id) by {
                assert(self.threaded(data@[i], roots@[i], children@, users@, *login_user));
            }
        }
        data
    }
}

} // verus!
