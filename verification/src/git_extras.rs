//! The identity of a hosted repository, read from the URL of a remote.

use git2::Remote;
use vstd::prelude::*;
use vstd::string::StringExecFns;

verus! {

/// A remote of a local repository, as `git2` holds it.
#[verifier::external_type_specification]
#[verifier::external_body]
pub struct ExRemote<'repo>(Remote<'repo>);

/// The URL that `remote` holds, as `git2::Remote::url` reads it: the stored
/// text, or `None` where what is stored is not valid UTF-8.
pub uninterp spec fn reported_url(remote: &Remote) -> Option<Seq<char>>;

/// Calls `git2::Remote::url`, which reads the URL stored in `remote` and
/// changes nothing: the result is what `reported_url` names. Nothing is
/// claimed of the text itself.
#[verifier::external_body]
fn remote_url<'a>(remote: &'a Remote<'_>) -> (url: Option<&'a str>)
    ensures
        match url {
            Some(text) => reported_url(remote) == Some(text@),
            None => reported_url(remote).is_none(),
        },
{
    remote.url()
}

/// Owner and name of a repository on the hosting service.
#[derive(Debug)]
pub struct Repo {
    pub owner: String,
    pub name: String,
}

/// The suffix that hosting services append to the last path segment.
pub open spec fn git_suffix() -> Seq<char> {
    seq!['.', 'g', 'i', 't']
}

/// Index of the last occurrence of `c` in `s`, or -1 where `s` holds none.
pub open spec fn last_index_of(s: Seq<char>, c: char) -> int
    decreases s.len(),
{
    if s.len() == 0 {
        -1
    } else if s.last() == c {
        s.len() - 1
    } else {
        last_index_of(s.drop_last(), c)
    }
}

/// What follows the last occurrence of `c` in `s`; all of `s` where it holds none.
pub open spec fn after_last(s: Seq<char>, c: char) -> Seq<char> {
    s.subrange(last_index_of(s, c) + 1, s.len() as int)
}

/// `s` ends with `suffix`.
pub open spec fn ends_with(s: Seq<char>, suffix: Seq<char>) -> bool {
    suffix.len() <= s.len() && s.subrange(s.len() - suffix.len(), s.len() as int) == suffix
}

/// `s` without one `.git` at its end, where it ends with one.
pub open spec fn without_git_suffix(s: Seq<char>) -> Seq<char> {
    if ends_with(s, git_suffix()) {
        s.subrange(0, s.len() - git_suffix().len())
    } else {
        s
    }
}

/// Owner and name that a remote URL stands for.
///
/// The name is the text after the last `/`, without one trailing `.git`. The
/// owner is the path segment before that `/`, without anything up to and
/// including its last `:`. A URL without `/`, or one that leaves either part
/// empty, stands for no repository.
pub open spec fn repo_identity(url: Seq<char>) -> Option<(Seq<char>, Seq<char>)> {
    let slash = last_index_of(url, '/');
    if slash < 0 {
        None
    } else {
        let name = without_git_suffix(url.subrange(slash + 1, url.len() as int));
        let owner = after_last(after_last(url.subrange(0, slash), '/'), ':');
        if owner.len() == 0 || name.len() == 0 {
            None
        } else {
            Some((owner, name))
        }
    }
}

/// `last_index_of` names an occurrence of `c`, and no occurrence follows it.
pub proof fn lemma_last_index_of(s: Seq<char>, c: char)
    ensures
        -1 <= last_index_of(s, c) < s.len(),
        last_index_of(s, c) >= 0 ==> s[last_index_of(s, c)] == c,
        forall|j: int| last_index_of(s, c) < j < s.len() ==> s[j] != c,
        last_index_of(s, c) >= 0 <==> s.contains(c),
    decreases s.len(),
{
    if s.len() > 0 && s.last() != c {
        let front = s.drop_last();
        lemma_last_index_of(front, c);
        let at = last_index_of(front, c);
        assert forall|j: int| at < j < s.len() implies s[j] != c by {
            if j < front.len() {
                assert(front[j] == s[j]);
            }
        }
        if at >= 0 {
            assert(s[at] == front[at]);
        }
        if s.contains(c) {
            let i = choose|i: int| 0 <= i < s.len() && s[i] == c;
            assert(front[i] == c);
        }
    } else if s.len() > 0 {
        assert(s[s.len() - 1] == c);
    }
}

/// An index that holds `c` and is followed by no other is the last one.
pub proof fn lemma_last_index_unique(s: Seq<char>, c: char, i: int)
    requires
        -1 <= i < s.len(),
        i >= 0 ==> s[i] == c,
        forall|j: int| i < j < s.len() ==> s[j] != c,
    ensures
        last_index_of(s, c) == i,
{
    lemma_last_index_of(s, c);
}

/// Shape of the URLs whose identity is plain to read: `prefix`, which is
/// empty or ends with `/` or `:`, then the owner, a `/` and the name.
pub open spec fn plain_parts(prefix: Seq<char>, owner: Seq<char>, name: Seq<char>) -> bool {
    &&& prefix.len() == 0 || prefix.last() == '/' || prefix.last() == ':'
    &&& owner.len() > 0
    &&& !owner.contains('/')
    &&& !owner.contains(':')
    &&& name.len() > 0
    &&& !name.contains('/')
}

/// The owner is read back from `prefix + owner`, whatever host, user or
/// scheme the prefix holds.
proof fn lemma_owner_of_head(prefix: Seq<char>, owner: Seq<char>)
    requires
        prefix.len() == 0 || prefix.last() == '/' || prefix.last() == ':',
        !owner.contains('/'),
        !owner.contains(':'),
    ensures
        after_last(after_last(prefix + owner, '/'), ':') == owner,
{
    let head = prefix + owner;
    lemma_last_index_of(prefix, '/');
    let cut = last_index_of(prefix, '/');
    assert forall|j: int| cut < j < head.len() implies head[j] != '/' by {
        if j >= prefix.len() {
            assert(owner.contains(head[j]));
        }
    }
    lemma_last_index_unique(head, '/', cut);
    let segment = after_last(head, '/');
    let colon = prefix.len() - cut - 2;
    if prefix.len() > 0 && prefix.last() == ':' {
        assert(segment[colon] == prefix.last());
        assert forall|j: int| colon < j < segment.len() implies segment[j] != ':' by {
            assert(owner.contains(segment[j]));
        }
        lemma_last_index_unique(segment, ':', colon);
    } else {
        assert(segment =~= owner);
        lemma_last_index_of(segment, ':');
    }
    assert(after_last(segment, ':') =~= owner);
}

/// A URL made of a prefix, an owner, `/`, a name and `.git` stands for that
/// owner and that name. Without the `.git` it does so too, unless the name
/// itself ends with `.git`, which is then taken for the suffix.
pub proof fn lemma_identity_of_plain_url(prefix: Seq<char>, owner: Seq<char>, name: Seq<char>)
    requires
        plain_parts(prefix, owner, name),
    ensures
        repo_identity(prefix + owner + seq!['/'] + name + git_suffix()) == Some((owner, name)),
        !ends_with(name, git_suffix()) ==> repo_identity(prefix + owner + seq!['/'] + name)
            == Some((owner, name)),
{
    let head = prefix + owner;
    let slash = head.len() as int;
    lemma_owner_of_head(prefix, owner);
    assert(without_git_suffix(name + git_suffix()) == name) by {
        let long = name + git_suffix();
        assert(long.subrange(long.len() - 4, long.len() as int) =~= git_suffix());
        assert(long.subrange(0, long.len() - 4) =~= name);
    }
    assert(!git_suffix().contains('/')) by {
        if git_suffix().contains('/') {
            let i = choose|i: int| 0 <= i < git_suffix().len() && git_suffix()[i] == '/';
            assert(i == 0 || i == 1 || i == 2 || i == 3);
        }
    }

    let short_url = head + seq!['/'] + name;
    assert forall|j: int| slash < j < short_url.len() implies short_url[j] != '/' by {
        assert(name.contains(short_url[j]));
    }
    lemma_last_index_unique(short_url, '/', slash);
    assert(short_url.subrange(0, slash) =~= head);
    assert(short_url.subrange(slash + 1, short_url.len() as int) =~= name);

    let long_url = short_url + git_suffix();
    assert forall|j: int| slash < j < long_url.len() implies long_url[j] != '/' by {
        if j < short_url.len() {
            assert(name.contains(long_url[j]));
        } else {
            assert(git_suffix().contains(long_url[j]));
        }
    }
    lemma_last_index_unique(long_url, '/', slash);
    assert(long_url.subrange(0, slash) =~= head);
    assert(long_url.subrange(slash + 1, long_url.len() as int) =~= name + git_suffix());
}

/// The characters of a string slice, in order.
fn chars_of(text: &str) -> (chars: Vec<char>)
    ensures
        chars@ == text@,
{
    let mut chars: Vec<char> = Vec::new();
    for c in it: text.chars()
        invariant
            chars@ == it.seq().take(it.index()),
    {
        chars.push(c);
    }
    chars
}

/// Start of what follows the last `c` within `chars[start..end]`.
fn tail_start(chars: &Vec<char>, start: usize, end: usize, c: char) -> (at: usize)
    requires
        start <= end <= chars.len(),
    ensures
        at == start + last_index_of(chars@.subrange(start as int, end as int), c) + 1,
        start <= at <= end,
{
    let ghost part = chars@.subrange(start as int, end as int);
    let mut at: usize = end;
    while at > start && chars[at - 1] != c
        invariant
            start <= at <= end <= chars.len(),
            part == chars@.subrange(start as int, end as int),
            forall|j: int| at - start <= j < part.len() ==> part[j] != c,
        decreases at,
    {
        at -= 1;
    }
    proof {
        lemma_last_index_unique(part, c, at - start - 1);
    }
    at
}

/// End of `chars[start..end]` once one trailing `.git` is dropped.
fn trimmed_end(chars: &Vec<char>, start: usize, end: usize) -> (at: usize)
    requires
        start <= end <= chars.len(),
    ensures
        start <= at <= end,
        chars@.subrange(start as int, at as int) == without_git_suffix(
            chars@.subrange(start as int, end as int),
        ),
{
    let ghost s = chars@.subrange(start as int, end as int);
    if end - start >= 4 && chars[end - 4] == '.' && chars[end - 3] == 'g' && chars[end - 2] == 'i'
        && chars[end - 1] == 't' {
        proof {
            assert(s.subrange(s.len() - 4, s.len() as int) =~= git_suffix());
            assert(s.subrange(0, s.len() - 4) =~= chars@.subrange(start as int, end - 4));
        }
        end - 4
    } else {
        proof {
            assert(!ends_with(s, git_suffix())) by {
                if s.len() >= 4 {
                    let tail = s.subrange(s.len() - 4, s.len() as int);
                    assert(tail[0] == chars[end - 4] && tail[1] == chars[end - 3]);
                    assert(tail[2] == chars[end - 2] && tail[3] == chars[end - 1]);
                }
            }
        }
        end
    }
}

impl Repo {
    /// Both parts of the identity are present.
    pub open spec fn well_formed(&self) -> bool {
        self.owner@.len() > 0 && self.name@.len() > 0
    }

    /// The identity behind `remote`: the one that the URL it holds stands
    /// for; none where it holds no text or a text that stands for no
    /// repository.
    pub fn new(remote: &Remote) -> (repo: Option<Repo>)
        ensures
            match repo {
                Some(r) => {
                    &&& reported_url(remote) matches Some(text)
                    &&& repo_identity(text) == Some((r.owner@, r.name@))
                    &&& r.well_formed()
                },
                None => reported_url(remote) matches Some(text) ==> repo_identity(text).is_none(),
            },
    {
        Repo::from_url(remote_url(remote))
    }

    /// The identity that `url` stands for; none where the URL is missing or
    /// stands for no repository.
    pub fn from_url(url: Option<&str>) -> (repo: Option<Repo>)
        ensures
            match repo {
                Some(r) => {
                    &&& url matches Some(text)
                    &&& repo_identity(text@) == Some((r.owner@, r.name@))
                    &&& r.well_formed()
                },
                None => url matches Some(text) ==> repo_identity(text@).is_none(),
            },
    {
        let url = match url {
            Some(url) => url,
            None => {
                return None;
            },
        };
        let chars = chars_of(url);
        let n = chars.len();
        let name_start = tail_start(&chars, 0, n, '/');
        assert(chars@.subrange(0, n as int) =~= url@);
        if name_start == 0 {
            return None;
        }
        let slash = name_start - 1;
        let name_end = trimmed_end(&chars, name_start, n);
        let segment_start = tail_start(&chars, 0, slash, '/');
        let owner_start = tail_start(&chars, segment_start, slash, ':');
        proof {
            let head = url@.subrange(0, slash as int);
            let segment = after_last(head, '/');
            assert(head =~= chars@.subrange(0, slash as int));
            assert(segment =~= chars@.subrange(segment_start as int, slash as int));
            assert(after_last(segment, ':') =~= url@.subrange(owner_start as int, slash as int));
            assert(url@.subrange(slash + 1, url@.len() as int) =~= chars@.subrange(
                name_start as int,
                n as int,
            ));
        }
        if owner_start == slash || name_end == name_start {
            return None;
        }
        let owner = String::from_str(url.substring_char(owner_start, slash));
        let name = String::from_str(url.substring_char(name_start, name_end));
        Some(Repo { owner, name })
    }
}

} // verus!
