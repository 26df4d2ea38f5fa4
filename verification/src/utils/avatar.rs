//! The picture shown beside a comment.

use md5::{Digest, Md5};
use vstd::prelude::*;
use vstd::string::StringExecFns;
use crate::utils::pattern::{is_match, regex_is_match};

verus! {

/// The MD5 digest of `data`.
///
/// This names what the `md-5` crate computes.
pub uninterp spec fn md5_digest(data: Seq<u8>) -> Seq<u8>;

/// What `str::replace` makes of `s` when every match of `from` is replaced
/// by `to`.
pub uninterp spec fn str_replaced(s: Seq<char>, from: Seq<char>, to: Seq<char>) -> Seq<char>;

/// The character of a hexadecimal digit, in lower case.
pub open spec fn hex_char(n: int) -> char {
    if n == 0 {
        '0'
    } else if n == 1 {
        '1'
    } else if n == 2 {
        '2'
    } else if n == 3 {
        '3'
    } else if n == 4 {
        '4'
    } else if n == 5 {
        '5'
    } else if n == 6 {
        '6'
    } else if n == 7 {
        '7'
    } else if n == 8 {
        '8'
    } else if n == 9 {
        '9'
    } else if n == 10 {
        'a'
    } else if n == 11 {
        'b'
    } else if n == 12 {
        'c'
    } else if n == 13 {
        'd'
    } else if n == 14 {
        'e'
    } else {
        'f'
    }
}

/// The bytes in hexadecimal, two lower-case digits for each, the high one
/// first.
pub open spec fn hex_lower(bytes: Seq<u8>) -> Seq<char>
    decreases bytes.len(),
{
    if bytes.len() == 0 {
        Seq::empty()
    } else {
        hex_lower(bytes.drop_last()).push(hex_char(bytes.last() as int / 16)).push(
            hex_char(bytes.last() as int % 16),
        )
    }
}

/// Hashes `data` with `md5::Md5`: `new`, `update`, `finalize`.
///
/// Trusted: the result is the digest that `md5_digest` names, 16 bytes
/// long.
#[verifier::external_body]
fn md5_of(data: &[u8]) -> (out: Vec<u8>)
    ensures
        out@ == md5_digest(data@),
        out@.len() == 16,
{
    let mut hasher = Md5::new();
    hasher.update(data);
    hasher.finalize().to_vec()
}

/// Encodes `bytes` with `base16ct::lower::encode_string`.
///
/// Trusted: the result holds two lower-case hexadecimal digits for each
/// byte, in order. The crate panics on an input longer than half the
/// address space, which the precondition leaves out.
#[verifier::external_body]
fn hex_of(bytes: &[u8]) -> (s: String)
    requires
        bytes@.len() <= usize::MAX / 2,
    ensures
        s@ == hex_lower(bytes@),
{
    base16ct::lower::encode_string(bytes)
}

/// Replaces every match of `from` in `s` by `to`, with `str::replace`.
///
/// Trusted: the result is what `str_replaced` names.
#[verifier::external_body]
fn replace(s: &str, from: &str, to: &str) -> (r: String)
    ensures
        r@ == str_replaced(s@, from@, to@),
{
    s.replace(from, to)
}

/// The address of the picture for a commenter with name `nick` and mail
/// address `email`, where `numeric_nick` tells whether the name is a
/// number and `qq_mail` whether the address is a numbered QQ mailbox.
///
/// A numeric name is taken for a QQ number; of a QQ mailbox the number in
/// front is; everyone else gets the picture registered for the digest of
/// the mail address.
pub open spec fn avatar_of(nick: Seq<char>, email: Seq<char>, numeric_nick: bool, qq_mail: bool) -> Seq<
    char,
> {
    if numeric_nick {
        "https://q1.qlogo.cn/g?b=qq&nk="@ + nick + "&s=100"@
    } else if qq_mail {
        "https://q1.qlogo.cn/g?b=qq&nk="@ + str_replaced(email, "@qq.com"@, ""@) + "&s=100"@
    } else {
        "https://seccdn.libravatar.org/avatar/"@ + hex_lower(md5_digest(vstd::utf8::encode_utf8(email)))
    }
}

/// Builds the address of the picture, given what the two patterns said.
pub fn avatar_from(nick: &str, email: &str, numeric_nick: bool, qq_mail: bool) -> (url: String)
    ensures
        url@ == avatar_of(nick@, email@, numeric_nick, qq_mail),
{
    if numeric_nick {
        let mut url = String::from_str("https://q1.qlogo.cn/g?b=qq&nk=");
        url.append(nick);
        url.append("&s=100");
        url
    } else if qq_mail {
        let qq = replace(email, "@qq.com", "");
        let mut url = String::from_str("https://q1.qlogo.cn/g?b=qq&nk=");
        url.append(qq.as_str());
        url.append("&s=100");
        url
    } else {
        let hash = md5_of(email.as_bytes());
        let hex = hex_of(hash.as_slice());
        let mut url = String::from_str("https://seccdn.libravatar.org/avatar/");
        url.append(hex.as_str());
        url
    }
}

/// Whether `url` is an address that `avatar_url` may build for `nick` and
/// `email`: the name counts as numeric where the pattern `^[0-9]+$` matches
/// it, the address as a QQ mailbox where `^[0-9]+@qq.com$` matches it, and
/// a pattern that is refused counts as one that does not match.
pub open spec fn pictures(url: Seq<char>, nick: Seq<char>, email: Seq<char>) -> bool {
    let n = regex_is_match("^[0-9]+$"@, nick);
    let q = regex_is_match("^[0-9]+@qq.com$"@, email);
    ||| url == avatar_of(nick, email, n, q)
    ||| url == avatar_of(nick, email, false, q)
    ||| url == avatar_of(nick, email, n, false)
    ||| url == avatar_of(nick, email, false, false)
}

/// Builds the address of the picture for a commenter with name `nick` and
/// mail address `email`.
pub fn avatar_url(nick: &str, email: &str) -> (url: String)
    ensures
        pictures(url@, nick@, email@),
{
    let numeric_nick = match is_match("^[0-9]+$", nick) {
        Some(hit) => hit,
        None => false,
    };
    let qq_mail = match is_match("^[0-9]+@qq.com$", email) {
        Some(hit) => hit,
        None => false,
    };
    avatar_from(nick, email, numeric_nick, qq_mail)
}

} // verus!
