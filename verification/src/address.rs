//! Repository addresses: from what a user configured to `(owner, name)`.
//!
//! Three forms are understood: a URL with a path (`https://host/owner/name`),
//! an SSH-style address (`host:owner/name`), and a bare `owner/name`. A
//! trailing `.git` is not part of the name in any of them.

use vstd::prelude::*;
use crate::errors::{DataError, DataErrorView};
use crate::text::{
    copy_range, ends_with, find_from, lemma_position_absent, lemma_position_after, position,
    strip_suffixes, strip_suffixes_chars, to_chars, to_string,
};

verus! {

broadcast use vstd::string::group_string_axioms;

/// What `url::Url::parse` makes of `address`: `None` where the parser
/// refuses it; `Some(None)` where it is a URL whose path is opaque (one
/// that cannot be a base); otherwise the segments of its path, as
/// `Url::path_segments` gives them.
pub uninterp spec fn url_segments(address: Seq<char>) -> Option<Option<Seq<Seq<char>>>>;

/// The value of what the URL parser gave.
pub open spec fn segments_view(segments: Option<Option<Vec<String>>>) -> Option<
    Option<Seq<Seq<char>>>,
> {
    match segments {
        Some(Some(parts)) => Some(Some(Seq::new(parts@.len(), |i: int| parts@[i]@))),
        Some(None) => Some(None),
        None => None,
    }
}

/// Whether `address` cannot begin with the scheme of a URL: it holds no
/// `:`, or an `@` before its first `:`.
pub open spec fn schemeless(address: Seq<char>) -> bool {
    !address.contains(':') || address.take(position(address, ':')).contains('@')
}

/// Calls `url::Url::parse` on `address` and, where that succeeds,
/// `Url::path_segments` on the URL, copying each segment out. Both depend
/// on their arguments alone; the contract gives their combined result its
/// name. It adds one fact: the parser, which is given no base, refuses a
/// text that does not begin with a scheme, and a scheme is made of ASCII
/// letters, digits, `+`, `-` and `.` and ends at the first `:`.
#[verifier::external_body]
fn path_segments(address: &str) -> (r: Option<Option<Vec<String>>>)
    ensures
        segments_view(r) == url_segments(address@),
        schemeless(address@) ==> r is None,
{
    match url::Url::parse(address) {
        Ok(parsed) => Some(parsed.path_segments().map(|parts| parts.map(String::from).collect())),
        Err(_) => None,
    }
}

/// `name` without any trailing `.git`.
pub open spec fn without_git(name: Seq<char>) -> Seq<char> {
    strip_suffixes(name, ".git"@)
}

/// `text` cut at its first `/` into owner and name, where it has one.
pub open spec fn owner_and_name(text: Seq<char>) -> Option<(Seq<char>, Seq<char>)> {
    let slash = position(text, '/');
    if 0 <= slash < text.len() {
        Some((text.take(slash), without_git(text.skip(slash + 1))))
    } else {
        None
    }
}

/// The owner and name that `address` stands for, given what the URL parser
/// made of it.
///
/// A URL with a path gives its first two path segments, and nothing where
/// it has fewer. Anything else that holds a `:` is an SSH-style address:
/// what follows the first `:` is cut at its first `/`. Anything else is
/// cut at its first `/`.
pub open spec fn resolve(address: Seq<char>, segments: Option<Option<Seq<Seq<char>>>>) -> Option<
    (Seq<char>, Seq<char>),
> {
    match segments {
        Some(Some(parts)) => if parts.len() >= 2 {
            Some((parts[0], without_git(parts[1])))
        } else {
            None
        },
        _ => {
            let colon = position(address, ':');
            if 0 <= colon < address.len() {
                owner_and_name(address.skip(colon + 1))
            } else {
                owner_and_name(address)
            }
        },
    }
}

/// The result for an address: its owner and name, or the configuration
/// error that names the address.
pub open spec fn repo_of(address: Seq<char>, segments: Option<Option<Seq<Seq<char>>>>) -> Result<
    (Seq<char>, Seq<char>),
    DataErrorView,
> {
    match resolve(address, segments) {
        Some(pair) => Ok(pair),
        None => Err(DataErrorView::ConfigError("Could not parse owner/repo from: "@ + address)),
    }
}

/// The value of a resolved address.
pub open spec fn repo_view(r: Result<(String, String), DataError>) -> Result<
    (Seq<char>, Seq<char>),
    DataErrorView,
> {
    match r {
        Ok(pair) => Ok((pair.0@, pair.1@)),
        Err(e) => Err(e@),
    }
}

/// `owner/name` is cut into `owner` and `name` without `.git`, where
/// `owner` holds no `/`.
proof fn lemma_owner_and_name(owner: Seq<char>, name: Seq<char>)
    requires
        !owner.contains('/'),
    ensures
        owner_and_name(owner + seq!['/'] + name) == Some((owner, without_git(name))),
{
    let text = owner + seq!['/'] + name;
    lemma_position_after(owner, '/', name);
    assert(text.take(owner.len() as int) =~= owner);
    assert(text.skip(owner.len() as int + 1) =~= name);
}

/// A trailing `.git` is no part of a name, and a name that ends otherwise
/// is kept as it is.
pub proof fn lemma_git_suffix_dropped(name: Seq<char>)
    ensures
        without_git(name + ".git"@) == without_git(name),
        !ends_with(name, ".git"@) ==> without_git(name) == name,
{
    reveal_strlit(".git");
    let longer = name + ".git"@;
    assert(longer.skip(longer.len() - 4) =~= ".git"@);
    assert(longer.take(longer.len() - 4) =~= name);
}

/// The first form of address: a URL with a path of two segments or more
/// names the repository of its first two segments.
pub proof fn lemma_url_resolves(address: Seq<char>, parts: Seq<Seq<char>>)
    requires
        parts.len() >= 2,
    ensures
        resolve(address, Some(Some(parts))) == Some((parts[0], without_git(parts[1]))),
{
}

/// The second form of address: `host:owner/name`, which the URL parser
/// refuses or reads as a URL with an opaque path, names the repository
/// `owner/name`. The host may hold anything but `:`, the owner anything
/// but `/`.
pub proof fn lemma_ssh_style_resolves(
    host: Seq<char>,
    owner: Seq<char>,
    name: Seq<char>,
    parsed: Option<Option<Seq<Seq<char>>>>,
)
    requires
        parsed is None || parsed == Some(None::<Seq<Seq<char>>>),
        !host.contains(':'),
        !owner.contains('/'),
    ensures
        resolve(host + ":"@ + owner + "/"@ + name, parsed) == Some((owner, without_git(name))),
{
    reveal_strlit(":");
    reveal_strlit("/");
    assert(":"@ =~= seq![':']);
    assert("/"@ =~= seq!['/']);
    let path = owner + seq!['/'] + name;
    let address = host + ":"@ + owner + "/"@ + name;
    assert(address =~= host + seq![':'] + path);
    lemma_position_after(host, ':', path);
    assert(address.skip(host.len() as int + 1) =~= path);
    lemma_owner_and_name(owner, name);
}

/// The third form of address: a bare `owner/name`, which the URL parser
/// refuses, names the repository `owner/name`. Neither part may hold a
/// `:`, which would make the address one of the second form, and the
/// owner holds no `/`.
pub proof fn lemma_bare_resolves(
    owner: Seq<char>,
    name: Seq<char>,
    parsed: Option<Option<Seq<Seq<char>>>>,
)
    requires
        parsed is None || parsed == Some(None::<Seq<Seq<char>>>),
        !owner.contains('/'),
        !owner.contains(':'),
        !name.contains(':'),
    ensures
        resolve(owner + "/"@ + name, parsed) == Some((owner, without_git(name))),
{
    reveal_strlit("/");
    assert("/"@ =~= seq!['/']);
    let address = owner + "/"@ + name;
    assert(address =~= owner + seq!['/'] + name);
    assert(!address.contains(':')) by {
        if address.contains(':') {
            let j = choose|j: int| 0 <= j < address.len() && address[j] == ':';
            if j < owner.len() {
                assert(owner.contains(address[j]));
            } else if j > owner.len() {
                assert(name[j - owner.len() - 1] == ':');
                assert(name.contains(':'));
            }
        }
    }
    lemma_position_absent(address, ':');
    lemma_owner_and_name(owner, name);
}

/// An address without `:` and `/` that the URL parser refuses names no
/// repository.
pub proof fn lemma_plain_word_refused(address: Seq<char>)
    requires
        !address.contains(':'),
        !address.contains('/'),
    ensures
        resolve(address, None) is None,
{
    lemma_position_absent(address, ':');
    lemma_position_absent(address, '/');
}

/// `name` without any trailing `.git`.
fn strip_git(name: &Vec<char>) -> (r: String)
    ensures
        r@ == without_git(name@),
{
    let suffix = to_chars(".git");
    let stripped = strip_suffixes_chars(name, &suffix);
    to_string(&stripped)
}

/// `text[from..]` cut at its first `/` into owner and name.
fn cut_owner_and_name(text: &Vec<char>, from: usize) -> (r: Option<(String, String)>)
    requires
        from <= text.len(),
    ensures
        match r {
            Some(pair) => owner_and_name(text@.skip(from as int)) == Some((pair.0@, pair.1@)),
            None => owner_and_name(text@.skip(from as int)) is None,
        },
{
    let slash = find_from(text, from, '/');
    let ghost tail = text@.skip(from as int);
    if slash < text.len() {
        let owner = copy_range(text, from, slash);
        let name = copy_range(text, slash + 1, text.len());
        proof {
            assert(tail.take(slash - from) =~= owner@);
            assert(tail.skip(slash - from + 1) =~= name@);
        }
        Some((to_string(&owner), strip_git(&name)))
    } else {
        None
    }
}

/// The owner and name that `address` stands for, given what the URL parser
/// made of it, or the configuration error that names the address.
pub fn resolve_repo_address(address: &str, segments: Option<Option<Vec<String>>>) -> (r: Result<
    (String, String),
    DataError,
>)
    ensures
        repo_view(r) == repo_of(address@, segments_view(segments)),
{
    let found = match segments {
        Some(Some(parts)) => {
            if parts.len() >= 2 {
                let name = to_chars(parts[1].as_str());
                Some((parts[0].clone(), strip_git(&name)))
            } else {
                None
            }
        },
        _ => {
            let chars = to_chars(address);
            let colon = find_from(&chars, 0, ':');
            proof {
                assert(chars@.skip(0) =~= chars@);
            }
            if colon < chars.len() {
                cut_owner_and_name(&chars, colon + 1)
            } else {
                cut_owner_and_name(&chars, 0)
            }
        },
    };
    match found {
        Some(pair) => Ok(pair),
        None => {
            let mut message = String::from_str("Could not parse owner/repo from: ");
            message.append(address);
            Err(DataError::ConfigError(message))
        },
    }
}

/// The owner and name of the repository at `url_or_path`, or the
/// configuration error that names the address.
///
/// What the URL parser makes of the address decides between the forms. An
/// address that cannot begin with a scheme is no URL, so its result does
/// not hang on the parser.
pub fn parse_repo_url(url_or_path: &str) -> (r: Result<(String, String), DataError>)
    ensures
        repo_view(r) == repo_of(url_or_path@, url_segments(url_or_path@)),
        schemeless(url_or_path@) ==> repo_view(r) == repo_of(url_or_path@, None),
{
    let segments = path_segments(url_or_path);
    resolve_repo_address(url_or_path, segments)
}

/// The full name of a repository: `owner/name`.
pub fn repo_full_name(owner: &str, name: &str) -> (r: String)
    ensures
        r@ == owner@ + "/"@ + name@,
{
    let mut r = String::from_str(owner);
    r.append("/");
    r.append(name);
    r
}

} // verus!
