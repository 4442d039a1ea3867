use vstd::prelude::*;
use vstd::string::*;

use crate::error::Error;

verus! {

/// What `url::Url::parse` yields for a given string: `None` when the string
/// is not a syntactically valid absolute URL, and `Some(p)` with the URL's
/// serialized path `p` otherwise. Parsing depends on the string alone.
pub uninterp spec fn url_path_of(s: Seq<char>) -> Option<Seq<char>>;

/// Relies on `url::Url::parse` and `url::Url::path`: parsing an absolute URL
/// is a function of the input string alone, and `path` returns the parsed
/// URL's serialized path (which begins with a `'/'` slash exactly when the
/// URL has path segments).
#[verifier::external_body]
fn parse_url_path(s: &str) -> (r: Option<String>)
    ensures
        r.deep_view() == url_path_of(s@),
{
    match url::Url::parse(s) {
        Ok(u) => Some(u.path().to_string()),
        Err(_) => None,
    }
}

/// The suffix of `p` after its last `'/'` slash; all of `p` when `p` holds
/// no slash.
pub open spec fn after_last_slash(p: Seq<char>) -> Seq<char>
    decreases p.len(),
{
    if p.len() == 0 {
        p
    } else if p.last() == '/' {
        Seq::empty()
    } else {
        after_last_slash(p.drop_last()).push(p.last())
    }
}

/// The split of `p` on `'/'`, as `str::split` performs it: splitting the
/// empty string yields one empty piece, and every slash opens a new piece.
pub open spec fn split_on_slash(p: Seq<char>) -> Seq<Seq<char>>
    decreases p.len(),
{
    if p.len() == 0 {
        seq![Seq::<char>::empty()]
    } else if p.last() == '/' {
        split_on_slash(p.drop_last()).push(Seq::empty())
    } else {
        let rest = split_on_slash(p.drop_last());
        rest.update(rest.len() - 1, rest.last().push(p.last()))
    }
}

/// The `'/'`-separated segments of a URL path `p` that begins with a slash:
/// the split of everything after the leading slash.
pub open spec fn path_segments_of(p: Seq<char>) -> Seq<Seq<char>>
    recommends
        p.len() >= 1,
        p[0] == '/',
{
    split_on_slash(p.skip(1))
}

/// The filename a URL yields: the last path segment of a URL that parses,
/// whose path begins with a slash (it has path segments), and whose last
/// segment is non-empty; nothing otherwise.
pub open spec fn filename_of_url(s: Seq<char>) -> Option<Seq<char>> {
    match url_path_of(s) {
        Option::Some(p) => {
            if p.len() >= 1 && p[0] == '/' && after_last_slash(p).len() > 0 {
                Option::Some(after_last_slash(p))
            } else {
                Option::None
            }
        },
        Option::None => Option::None,
    }
}

/// A split always yields at least one piece.
pub proof fn lemma_split_on_slash_nonempty(p: Seq<char>)
    ensures
        split_on_slash(p).len() >= 1,
    decreases p.len(),
{
    if p.len() == 0 {
    } else if p.last() == '/' {
        lemma_split_on_slash_nonempty(p.drop_last());
    } else {
        lemma_split_on_slash_nonempty(p.drop_last());
    }
}

/// The last piece of a split is the suffix after the last slash.
pub proof fn lemma_split_on_slash_last(p: Seq<char>)
    ensures
        split_on_slash(p).last() == after_last_slash(p),
    decreases p.len(),
{
    lemma_split_on_slash_nonempty(p);
    if p.len() == 0 {
    } else if p.last() == '/' {
    } else {
        lemma_split_on_slash_nonempty(p.drop_last());
        lemma_split_on_slash_last(p.drop_last());
    }
}

/// Dropping the leading slash of a path does not change the suffix after
/// the last slash.
pub proof fn lemma_after_last_slash_skip(p: Seq<char>)
    requires
        p.len() >= 1,
        p[0] == '/',
    ensures
        after_last_slash(p) == after_last_slash(p.skip(1)),
    decreases p.len(),
{
    if p.len() == 1 {
        assert(p.last() == '/');
        assert(p.skip(1) =~= Seq::<char>::empty());
    } else if p.last() == '/' {
        assert(p.skip(1).last() == p.last());
    } else {
        assert(p.skip(1).last() == p.last());
        assert(p.skip(1).drop_last() =~= p.drop_last().skip(1));
        lemma_after_last_slash_skip(p.drop_last());
    }
}

/// When `p[k]` is the last slash of `p`, the suffix after the last slash is
/// exactly what follows position `k`.
proof fn lemma_after_last_slash_at(p: Seq<char>, k: int)
    requires
        0 <= k < p.len(),
        p[k] == '/',
        forall|j: int| k < j < p.len() ==> p[j] != '/',
    ensures
        after_last_slash(p) == p.subrange(k + 1, p.len() as int),
    decreases p.len(),
{
    if k == p.len() - 1 {
        assert(after_last_slash(p) =~= p.subrange(k + 1, p.len() as int));
    } else {
        assert(p.last() != '/');
        lemma_after_last_slash_at(p.drop_last(), k);
        assert(after_last_slash(p) =~= p.subrange(k + 1, p.len() as int));
    }
}

/// For every URL whose path has segments and whose last segment is
/// non-empty, the derived filename is exactly that last segment.
pub proof fn lemma_filename_is_last_segment(s: Seq<char>, p: Seq<char>)
    requires
        url_path_of(s) == Option::Some(p),
        p.len() >= 1,
        p[0] == '/',
        path_segments_of(p).last().len() > 0,
    ensures
        filename_of_url(s) == Option::Some(path_segments_of(p).last()),
{
    lemma_split_on_slash_last(p.skip(1));
    lemma_after_last_slash_skip(p);
}

/// A derived filename is never the empty string.
pub proof fn lemma_filename_never_empty(s: Seq<char>)
    ensures
        filename_of_url(s) matches Option::Some(f) ==> f.len() > 0,
{
}

/// The last `'/'`-separated segment of a URL path: `Some` exactly when the
/// path begins with a slash (it has segments) and its last segment is
/// non-empty.
pub fn last_path_segment(path: &str) -> (r: Option<String>)
    ensures
        r is Some <==> path@.len() >= 1 && path@[0] == '/' && after_last_slash(path@).len() > 0,
        r is Some ==> r->Some_0@ == after_last_slash(path@),
{
    let n: usize = path.unicode_len();
    if n == 0 {
        return Option::None;
    }
    if path.get_char(0) != '/' {
        return Option::None;
    }
    let mut i: usize = n;
    while i > 1 && path.get_char(i - 1) != '/'
        invariant
            1 <= i <= n,
            n == path@.len(),
            path@[0] == '/',
            forall|j: int| i <= j < n ==> path@[j] != '/',
        decreases i,
    {
        i = i - 1;
    }
    proof {
        lemma_after_last_slash_at(path@, i - 1);
    }
    if i == n {
        return Option::None;
    }
    let name: &str = path.substring_char(i, n);
    Option::Some(name.to_owned())
}

/// Derive a local filename from a URL: the last segment of the URL's path.
/// Fails with a parse error on a malformed URL, and with an invalid-URL
/// error when the URL has no path segments or its last segment is empty.
pub fn get_filename_from_url(url_str: &str) -> (r: Result<String, Error>)
    ensures
        r is Ok <==> filename_of_url(url_str@) is Some,
        r is Ok ==> r->Ok_0@ == filename_of_url(url_str@)->Some_0,
        r is Ok ==> r->Ok_0@.len() > 0,
        r is Err ==> (r->Err_0 is UrlParse <==> url_path_of(url_str@) is None),
        r is Err ==> r->Err_0 is UrlParse || r->Err_0 is InvalidUrl,
{
    match parse_url_path(url_str) {
        Option::Some(path) => match last_path_segment(path.as_str()) {
            Option::Some(name) => Result::Ok(name),
            Option::None => Result::Err(Error::InvalidUrl),
        },
        Option::None => Result::Err(Error::UrlParse),
    }
}

} // verus!
