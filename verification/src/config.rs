//! Where the database lives, read from a `DATABASE_URL` value.
use vstd::prelude::*;
use crate::text::{chars_of, string_from_chars};

verus! {

/// The database location used when `DATABASE_URL` is not set.
pub fn default_database_url() -> (res: String)
    ensures
        res@ == "ecommerce.db"@,
{
    String::from_str("ecommerce.db")
}

/// A database file: an absolute path, or a path under the working directory.
#[derive(Clone, Debug, PartialEq, Eq)]
pub enum DatabasePath {
    Absolute(String),
    UnderWorkingDir(String),
}

/// Whether `s` starts with `prefix`.
pub open spec fn has_prefix(s: Seq<char>, prefix: Seq<char>) -> bool {
    prefix.len() <= s.len() && s.take(prefix.len() as int) == prefix
}

/// The file part of a database URL after `prefix`: absolute where it
/// starts with `/`.
pub open spec fn file_part(rest: Seq<char>) -> (bool, Seq<char>) {
    (rest.len() > 0 && rest[0] == '/', rest)
}

/// Where the database named by `url` lives: a `sqlite://` or `sqlite:`
/// prefix is dropped, and what is left is absolute where it starts with
/// `/`; any other value is a path under the working directory.
pub open spec fn database_location(url: Seq<char>) -> (bool, Seq<char>) {
    if has_prefix(url, "sqlite://"@) {
        file_part(url.skip("sqlite://"@.len() as int))
    } else if has_prefix(url, "sqlite:"@) {
        file_part(url.skip("sqlite:"@.len() as int))
    } else {
        (false, url)
    }
}

/// The view of a database path: whether it is absolute, and its text.
pub open spec fn location_of(p: DatabasePath) -> (bool, Seq<char>) {
    match p {
        DatabasePath::Absolute(s) => (true, s@),
        DatabasePath::UnderWorkingDir(s) => (false, s@),
    }
}

fn starts_with(chars: &Vec<char>, prefix: &Vec<char>) -> (res: bool)
    ensures
        res == has_prefix(chars@, prefix@),
{
    if prefix.len() > chars.len() {
        return false;
    }
    let mut i: usize = 0;
    while i < prefix.len()
        invariant
            prefix.len() <= chars.len(),
            i <= prefix.len(),
            forall|k: int| 0 <= k < i ==> chars@[k] == prefix@[k],
        decreases prefix.len() - i,
    {
        if chars[i] != prefix[i] {
            assert(chars@.take(prefix.len() as int)[i as int] != prefix@[i as int]);
            return false;
        }
        i += 1;
    }
    assert(chars@.take(prefix.len() as int) =~= prefix@);
    true
}

fn after_prefix(chars: &Vec<char>, n: usize) -> (res: DatabasePath)
    requires
        n <= chars.len(),
    ensures
        location_of(res) == file_part(chars@.skip(n as int)),
{
    let rest = string_from_chars(chars, n, chars.len());
    assert(chars@.subrange(n as int, chars.len() as int) == chars@.skip(n as int));
    if n < chars.len() && chars[n] == '/' {
        DatabasePath::Absolute(rest)
    } else {
        DatabasePath::UnderWorkingDir(rest)
    }
}

/// Where the database named by the `DATABASE_URL` value `url` lives.
pub fn database_path(url: &str) -> (res: DatabasePath)
    ensures
        location_of(res) == database_location(url@),
{
    let chars = chars_of(url);
    let long = chars_of("sqlite://");
    let short = chars_of("sqlite:");
    if starts_with(&chars, &long) {
        after_prefix(&chars, long.len())
    } else if starts_with(&chars, &short) {
        after_prefix(&chars, short.len())
    } else {
        DatabasePath::UnderWorkingDir(String::from_str(url))
    }
}

/// Law: the location is the URL with at most its `sqlite://` or `sqlite:`
/// prefix cut off (the longer one where both fit), and it is absolute
/// exactly where such a prefix was cut off and what is left starts with `/`.
pub proof fn law_database_location_strips_prefix(url: Seq<char>)
    ensures
        has_prefix(url, "sqlite://"@) ==> url == "sqlite://"@ + database_location(url).1,
        !has_prefix(url, "sqlite://"@) && has_prefix(url, "sqlite:"@) ==> url == "sqlite:"@
            + database_location(url).1,
        !has_prefix(url, "sqlite://"@) && !has_prefix(url, "sqlite:"@) ==> database_location(url).1
            == url && !database_location(url).0,
        database_location(url).0 <==> (has_prefix(url, "sqlite://"@) || has_prefix(url, "sqlite:"@))
            && database_location(url).1.len() > 0 && database_location(url).1[0] == '/',
{
    if has_prefix(url, "sqlite://"@) {
        assert(url =~= url.take("sqlite://"@.len() as int) + url.skip("sqlite://"@.len() as int));
    } else if has_prefix(url, "sqlite:"@) {
        assert(url =~= url.take("sqlite:"@.len() as int) + url.skip("sqlite:"@.len() as int));
    }
}

} // verus!
