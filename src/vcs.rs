use vstd::prelude::*;
use vstd::string::StringExecFns;
use vstd::string::StrSliceExecFns;
use crate::ranking::{Commit, CommitView, rank_authors, active_ranking, oldest_ranking};

verus! {

/// A contributor identity: equal only when both name and email are equal.
#[derive(Clone)]
pub struct User {
    pub name: String,
    pub email: Option<String>,
}

/// An identity as plain text.
pub struct UserView {
    pub name: Seq<char>,
    pub email: Option<Seq<char>>,
}

/// The text of an optional string.
pub open spec fn opt_view(o: Option<String>) -> Option<Seq<char>> {
    match o {
        Some(s) => Some(s@),
        None => None,
    }
}

impl View for User {
    type V = UserView;

    open spec fn view(&self) -> UserView {
        UserView { name: self.name@, email: opt_view(self.email) }
    }
}

/// How an identity is shown: `name (email)`, or the name alone.
pub open spec fn user_text(u: UserView) -> Seq<char> {
    match u.email {
        Some(e) => u.name + " ("@ + e + ")"@,
        None => u.name,
    }
}

/// A copy of an optional string.
pub fn copy_opt(o: &Option<String>) -> (r: Option<String>)
    ensures
        opt_view(r) == opt_view(*o),
{
    match o {
        Some(s) => Some(s.clone()),
        None => None,
    }
}

impl PartialEq for User {
    fn eq(&self, other: &User) -> (r: bool) {
        let same_email = match (&self.email, &other.email) {
            (Some(a), Some(b)) => *a == *b,
            (None, None) => true,
            _ => false,
        };
        self.name == other.name && same_email
    }
}

impl vstd::std_specs::cmp::PartialEqSpecImpl for User {
    open spec fn obeys_eq_spec() -> bool {
        true
    }

    open spec fn eq_spec(&self, other: &User) -> bool {
        self@ == other@
    }
}

impl Eq for User {
}

impl User {
    /// A copy of this identity.
    pub fn duplicate(&self) -> (r: User)
        ensures
            r@ == self@,
    {
        User { name: self.name.clone(), email: copy_opt(&self.email) }
    }

    /// The identity as shown to a person.
    pub fn to_string(&self) -> (r: String)
        ensures
            r@ == user_text(self@),
    {
        let mut s = self.name.clone();
        match &self.email {
            Some(e) => {
                s.append(" (");
                s.append(e.as_str());
                s.append(")");
            },
            None => {},
        }
        s
    }
}

pub open spec fn users_view(v: Seq<User>) -> Seq<UserView> {
    v.map_values(|u: User| u@)
}

pub open spec fn strings_view(v: Seq<String>) -> Seq<Seq<char>> {
    v.map_values(|s: String| s@)
}

/// What one read of a repository found.
pub struct VcsInfo {
    pub vcs_name: String,
    pub user: Option<User>,
    pub active_project_authors: Vec<User>,
    pub oldest_project_authors: Vec<User>,
    pub remote_urls: Vec<String>,
    pub head_refs: Vec<String>,
    pub latest_version: Option<String>,
}

/// A version-control backend that can read a snapshot of a repository.
pub trait Vcs: Sized {
    fn open_at(path: &std::path::PathBuf) -> Option<Self>;

    fn read_info(&self) -> VcsInfo;
}

/// The values present among `b`, `c` and `d`, in that order.
pub open spec fn present(b: Option<Seq<char>>, c: Option<Seq<char>>, d: Option<Seq<char>>) -> Seq<Seq<char>> {
    let s1 = match b { Some(x) => seq![x], None => Seq::empty() };
    let s2 = match c { Some(x) => seq![x], None => Seq::empty() };
    let s3 = match d { Some(x) => seq![x], None => Seq::empty() };
    s1 + s2 + s3
}

/// The prefix of the full name of a tag.
pub open spec fn tag_prefix() -> Seq<char> {
    "refs/tags/"@
}

/// The name of a tag reference without its `refs/tags/` prefix, if it has one.
pub open spec fn version_of_tag(tag: Seq<char>) -> Option<Seq<char>> {
    if tag.len() >= tag_prefix().len() && tag.take(tag_prefix().len() as int) == tag_prefix() {
        Some(tag.skip(tag_prefix().len() as int))
    } else {
        None
    }
}

/// The location of a remote in download form: `<vcs>+<url>`, or
/// `<vcs>+<url>@<rev>` with a revision.
pub open spec fn location_text(vcs: Seq<char>, url: Seq<char>, rev: Option<Seq<char>>) -> Seq<char> {
    match rev {
        Some(r) => vcs + "+"@ + url + "@"@ + r,
        None => vcs + "+"@ + url,
    }
}

/// Builds `<vcs>+<url>`, followed by `@<rev>` when a revision is given.
pub fn location(vcs: &str, url: &str, rev: Option<&str>) -> (r: String)
    ensures
        r@ == location_text(vcs@, url@, match rev { Some(x) => Some(x@), None => None }),
{
    let mut s = String::from_str(vcs);
    s.append("+");
    s.append(url);
    if let Some(x) = rev {
        s.append("@");
        s.append(x);
    }
    s
}

/// Strips the `refs/tags/` prefix of a tag's full name.
pub fn strip_tag_prefix(tag: &str) -> (r: Option<String>)
    ensures
        opt_view(r) == version_of_tag(tag@),
{
    let n = tag.unicode_len();
    let prefix = String::from_str("refs/tags/");
    proof {
        reveal_strlit("refs/tags/");
    }
    if n < 10 {
        return None;
    }
    let head = String::from_str(tag.substring_char(0, 10));
    if head == prefix {
        Some(String::from_str(tag.substring_char(10, n)))
    } else {
        None
    }
}

fn push_present(v: &mut Vec<String>, o: Option<String>)
    ensures
        strings_view(final(v)@) == strings_view(old(v)@) + match opt_view(o) {
            Some(x) => seq![x],
            None => Seq::empty(),
        },
{
    let ghost before = v@;
    if let Some(x) = o {
        v.push(x);
        assert(strings_view(v@) =~= strings_view(before) + seq![x@]);
    } else {
        assert(strings_view(v@) =~= strings_view(before) + Seq::<Seq<char>>::empty());
    }
}

impl VcsInfo {
    /// Builds a snapshot from what was read of a repository: the configured
    /// user, the remotes, the head reference, the nearest tag, the head
    /// commit, and the commits from the head backwards.
    pub fn from_parts(
        vcs_name: &str,
        user_name: Option<String>,
        user_email: Option<String>,
        remote_urls: Vec<String>,
        head_ref: Option<String>,
        head_tag: Option<String>,
        head_commit: Option<String>,
        commits: &Vec<Commit>,
    ) -> (r: VcsInfo)
        ensures
            r.vcs_name@ == vcs_name@,
            match user_name {
                Some(n) => r.user matches Some(u) && u@ == (UserView { name: n@, email: opt_view(user_email) }),
                None => r.user is None,
            },
            active_ranking(commits@.map_values(|c: Commit| c@), users_view(r.active_project_authors@)),
            oldest_ranking(commits@.map_values(|c: Commit| c@), users_view(r.oldest_project_authors@)),
            r.remote_urls@ == remote_urls@,
            strings_view(r.head_refs@) == present(opt_view(head_ref), opt_view(head_tag), opt_view(head_commit)),
            opt_view(r.latest_version) == match opt_view(head_tag) {
                Some(t) => version_of_tag(t),
                None => None,
            },
    {
        let (active, oldest) = rank_authors(commits);
        let latest_version = match &head_tag {
            Some(t) => strip_tag_prefix(t.as_str()),
            None => None,
        };
        let user = match user_name {
            Some(name) => Some(User { name, email: user_email }),
            None => None,
        };
        let mut head_refs: Vec<String> = Vec::new();
        assert(strings_view(head_refs@) =~= Seq::<Seq<char>>::empty());
        push_present(&mut head_refs, head_ref);
        push_present(&mut head_refs, head_tag);
        push_present(&mut head_refs, head_commit);
        VcsInfo {
            vcs_name: String::from_str(vcs_name),
            user,
            active_project_authors: active,
            oldest_project_authors: oldest,
            remote_urls,
            head_refs,
            latest_version,
        }
    }

    /// The download locations of `remote_url`: the bare location, then one
    /// for each head reference.
    pub fn download_locations(&self, remote_url: &str) -> (r: Vec<String>)
        ensures
            r@.len() == self.head_refs@.len() + 1,
            r@[0]@ == location_text(self.vcs_name@, remote_url@, None),
            forall|i: int| 0 <= i < self.head_refs@.len() ==>
                #[trigger] r@[i + 1]@ == location_text(self.vcs_name@, remote_url@, Some(self.head_refs@[i]@)),
    {
        let mut r: Vec<String> = Vec::new();
        r.push(location(self.vcs_name.as_str(), remote_url, None));
        let mut i: usize = 0;
        while i < self.head_refs.len()
            invariant
                i <= self.head_refs@.len(),
                r@.len() == i + 1,
                r@[0]@ == location_text(self.vcs_name@, remote_url@, None),
                forall|j: int| 0 <= j < i ==>
                    #[trigger] r@[j + 1]@ == location_text(self.vcs_name@, remote_url@, Some(self.head_refs@[j]@)),
            decreases self.head_refs@.len() - i,
        {
            r.push(location(self.vcs_name.as_str(), remote_url, Some(self.head_refs[i].as_str())));
            i = i + 1;
        }
        r
    }
}

} // verus!
