use vstd::prelude::*;
use crate::vcs::{User, UserView, users_view};

verus! {

/// When a commit was made: seconds since the epoch and the author's offset
/// from UTC in minutes, ordered by seconds, then by offset.
#[derive(Clone, Copy, PartialEq, Eq, Structural)]
pub struct CommitTime {
    pub seconds: i64,
    pub offset_minutes: i32,
}

/// One commit of the history: its author and its time.
pub struct Commit {
    pub author: User,
    pub time: CommitTime,
}

pub struct CommitView {
    pub author: UserView,
    pub time: CommitTime,
}

impl View for Commit {
    type V = CommitView;

    open spec fn view(&self) -> CommitView {
        CommitView { author: self.author@, time: self.time }
    }
}

/// The authors of `cs` in the order of their first commit in `cs`, each once.
pub open spec fn distinct_authors(cs: Seq<CommitView>) -> Seq<UserView>
    decreases cs.len(),
{
    if cs.len() == 0 {
        Seq::empty()
    } else {
        let rest = distinct_authors(cs.drop_last());
        if rest.contains(cs.last().author) {
            rest
        } else {
            rest.push(cs.last().author)
        }
    }
}

/// How many commits of `cs` have author `u`.
pub open spec fn occurrences(cs: Seq<CommitView>, u: UserView) -> nat
    decreases cs.len(),
{
    if cs.len() == 0 {
        0
    } else {
        occurrences(cs.drop_last(), u) + if cs.last().author == u { 1nat } else { 0nat }
    }
}

/// The time of the first commit of `cs` with author `u`.
pub open spec fn first_seen(cs: Seq<CommitView>, u: UserView) -> CommitTime
    decreases cs.len(),
{
    if cs.len() == 0 {
        CommitTime { seconds: 0, offset_minutes: 0 }
    } else if occurrences(cs.drop_last(), u) > 0 {
        first_seen(cs.drop_last(), u)
    } else {
        cs.last().time
    }
}

/// Item `i` goes before item `j`: a smaller key, or an equal key and an
/// earlier position.
pub open spec fn key_before(keys: Seq<(int, int)>, i: int, j: int) -> bool {
    keys[i].0 < keys[j].0 || (keys[i].0 == keys[j].0 && (keys[i].1 < keys[j].1 || (keys[i].1
        == keys[j].1 && i < j)))
}

/// Key `a` does not come after key `b`.
pub open spec fn key_not_after(a: (int, int), b: (int, int)) -> bool {
    a.0 < b.0 || (a.0 == b.0 && a.1 <= b.1)
}

/// `idx` lists, in order, the `k` items that go first among all of `keys`.
pub open spec fn is_top(keys: Seq<(int, int)>, k: int, idx: Seq<int>) -> bool {
    &&& idx.len() == k
    &&& forall|i: int| 0 <= i < idx.len() ==> 0 <= #[trigger] idx[i] < keys.len()
    &&& forall|i: int, j: int| 0 <= i < j < idx.len() ==> key_before(keys, #[trigger] idx[i], #[trigger] idx[j])
    &&& forall|t: int, i: int|
        0 <= t < keys.len() && !idx.contains(t) && 0 <= i < idx.len() ==> #[trigger] key_before(keys, idx[i], t)
}

/// How many authors a ranking keeps.
pub const RANKING_SIZE: usize = 5;

pub open spec fn min_size(n: int) -> int {
    if n < RANKING_SIZE as int { n } else { RANKING_SIZE as int }
}

/// `r` holds the first items of `items` ordered by `keys`, at most
/// `RANKING_SIZE` of them; equal keys keep the order of `items`.
pub open spec fn is_ranking(items: Seq<UserView>, keys: Seq<(int, int)>, r: Seq<UserView>) -> bool {
    exists|idx: Seq<int>|
        is_top(keys, min_size(items.len() as int), idx) && r == idx.map_values(|x: int| items[x])
}

/// The key of the activity ranking: more commits first.
pub open spec fn active_key(cs: Seq<CommitView>, u: UserView) -> (int, int) {
    (-(occurrences(cs, u) as int), 0)
}

/// The key of the seniority ranking: the earlier recorded time first.
pub open spec fn oldest_key(cs: Seq<CommitView>, u: UserView) -> (int, int) {
    (first_seen(cs, u).seconds as int, first_seen(cs, u).offset_minutes as int)
}

/// `r` is the ranking of the authors of `cs` by number of commits, most first.
pub open spec fn active_ranking(cs: Seq<CommitView>, r: Seq<UserView>) -> bool {
    let a = distinct_authors(cs);
    is_ranking(a, a.map_values(|u: UserView| active_key(cs, u)), r)
}

/// `r` is the ranking of the authors of `cs` by the time recorded when each
/// was first met, earliest first.
pub open spec fn oldest_ranking(cs: Seq<CommitView>, r: Seq<UserView>) -> bool {
    let a = distinct_authors(cs);
    is_ranking(a, a.map_values(|u: UserView| oldest_key(cs, u)), r)
}

proof fn lemma_distinct_authors(cs: Seq<CommitView>)
    ensures
        distinct_authors(cs).no_duplicates(),
        forall|u: UserView| distinct_authors(cs).contains(u) <==> occurrences(cs, u) > 0,
    decreases cs.len(),
{
    if cs.len() > 0 {
        lemma_distinct_authors(cs.drop_last());
        let rest = distinct_authors(cs.drop_last());
        let a = cs.last().author;
        if !rest.contains(a) {
            let all = rest.push(a);
            assert forall|u: UserView| all.contains(u) <==> (rest.contains(u) || u == a) by {
                if all.contains(u) && u != a {
                    let j = choose|j: int| 0 <= j < all.len() && all[j] == u;
                    assert(rest[j] == u);
                }
                if rest.contains(u) {
                    let j = choose|j: int| 0 <= j < rest.len() && rest[j] == u;
                    assert(all[j] == u);
                }
                if u == a {
                    assert(all[rest.len() as int] == a);
                }
            }
        }
    }
}

fn position(authors: &Vec<User>, u: &User) -> (r: Option<usize>)
    ensures
        match r {
            Some(p) => p < authors@.len() && authors@[p as int]@ == u@,
            None => !users_view(authors@).contains(u@),
        },
{
    let mut i: usize = 0;
    while i < authors.len()
        invariant
            i <= authors@.len(),
            forall|j: int| 0 <= j < i ==> authors@[j]@ != u@,
        decreases authors@.len() - i,
    {
        if authors[i] == *u {
            return Some(i);
        }
        i = i + 1;
    }
    proof {
        if users_view(authors@).contains(u@) {
            let j = choose|j: int| 0 <= j < authors@.len() && users_view(authors@)[j] == u@;
            assert(authors@[j]@ == u@);
        }
    }
    None
}

/// Indices of the first `k` items by key, in order.
fn top_order(keys: &Vec<(i128, i128)>, k: usize) -> (idx: Vec<usize>)
    requires
        k <= keys@.len(),
    ensures
        is_top(keys@.map_values(|p: (i128, i128)| (p.0 as int, p.1 as int)), k as int,
            idx@.map_values(|x: usize| x as int)),
{
    let ghost ks = keys@.map_values(|p: (i128, i128)| (p.0 as int, p.1 as int));
    let n = keys.len();
    let mut rest: Vec<usize> = Vec::new();
    let mut t: usize = 0;
    while t < n
        invariant
            t <= n,
            n == keys@.len(),
            rest@.len() == t,
            forall|j: int| 0 <= j < t ==> rest@[j] == j,
        decreases n - t,
    {
        rest.push(t);
        t = t + 1;
    }
    assert forall|x: usize| x < n implies rest@.contains(x) by {
        assert(rest@[x as int] == x);
    }
    let mut chosen: Vec<usize> = Vec::new();
    while chosen.len() < k
        invariant
            k <= n,
            n == keys@.len(),
            ks == keys@.map_values(|p: (i128, i128)| (p.0 as int, p.1 as int)),
            chosen@.len() <= k,
            chosen@.len() + rest@.len() == n,
            rest@.no_duplicates(),
            forall|j: int| 0 <= j < rest@.len() ==> #[trigger] rest@[j] < n,
            forall|j: int| 0 <= j < chosen@.len() ==> #[trigger] chosen@[j] < n,
            forall|x: usize| x < n ==> (chosen@.contains(x) || rest@.contains(x)),
            forall|x: usize| rest@.contains(x) ==> !chosen@.contains(x),
            forall|i: int, j: int| 0 <= i < j < chosen@.len() ==>
                key_before(ks, #[trigger] chosen@[i] as int, #[trigger] chosen@[j] as int),
            forall|i: int, j: int| 0 <= i < chosen@.len() && 0 <= j < rest@.len() ==>
                key_before(ks, #[trigger] chosen@[i] as int, #[trigger] rest@[j] as int),
        decreases k - chosen@.len(),
    {
        let mut p: usize = 0;
        let mut q: usize = 1;
        while q < rest.len()
            invariant
                0 < rest@.len(),
                p < rest@.len(),
                p < q <= rest@.len(),
                n == keys@.len(),
                ks == keys@.map_values(|p: (i128, i128)| (p.0 as int, p.1 as int)),
                rest@.no_duplicates(),
                forall|j: int| 0 <= j < rest@.len() ==> #[trigger] rest@[j] < n,
                forall|j: int| 0 <= j < q && j != p ==> key_before(ks, rest@[p as int] as int, #[trigger] rest@[j] as int),
            decreases rest@.len() - q,
        {
            let a = keys[rest[q]];
            let b = keys[rest[p]];
            if a.0 < b.0 || (a.0 == b.0 && (a.1 < b.1 || (a.1 == b.1 && rest[q] < rest[p]))) {
                p = q;
            }
            q = q + 1;
        }
        let ghost old_rest = rest@;
        let ghost old_chosen = chosen@;
        let best = rest.remove(p);
        chosen.push(best);
        proof {
            assert(chosen@.drop_last() =~= old_chosen);
            assert forall|j: int| 0 <= j < rest@.len() implies (j < p ==> #[trigger] rest@[j] == old_rest[j])
                && (j >= p ==> rest@[j] == old_rest[j + 1]) by {}
            assert forall|x: usize| rest@.contains(x) implies old_rest.contains(x) && x != best by {
                let j = choose|j: int| 0 <= j < rest@.len() && rest@[j] == x;
                if j < p {
                    assert(old_rest[j] == x);
                } else {
                    assert(old_rest[j + 1] == x);
                }
            }
            assert(rest@.no_duplicates()) by {
                assert forall|i: int, j: int| 0 <= i < j < rest@.len() implies rest@[i] != rest@[j] by {
                    let ii = if i < p { i } else { i + 1 };
                    let jj = if j < p { j } else { j + 1 };
                    assert(old_rest[ii] == rest@[i]);
                    assert(old_rest[jj] == rest@[j]);
                }
            }
            assert forall|x: usize| x < n implies (chosen@.contains(x) || rest@.contains(x)) by {
                if old_chosen.contains(x) {
                    let j = choose|j: int| 0 <= j < old_chosen.len() && old_chosen[j] == x;
                    assert(chosen@[j] == x);
                } else {
                    let j = choose|j: int| 0 <= j < old_rest.len() && old_rest[j] == x;
                    if j == p {
                        assert(chosen@[chosen@.len() - 1] == x);
                    } else if j < p {
                        assert(rest@[j] == x);
                    } else {
                        assert(rest@[j - 1] == x);
                    }
                }
            }
            assert forall|x: usize| rest@.contains(x) implies !chosen@.contains(x) by {
                assert(old_rest.contains(x));
                if chosen@.contains(x) {
                    let j = choose|j: int| 0 <= j < chosen@.len() && chosen@[j] == x;
                    if j < chosen@.len() - 1 {
                        assert(old_chosen[j] == x);
                    }
                }
            }
            assert forall|i: int, j: int| 0 <= i < chosen@.len() && 0 <= j < rest@.len() implies
                key_before(ks, #[trigger] chosen@[i] as int, #[trigger] rest@[j] as int) by {
                let jj = if j < p { j } else { j + 1 };
                assert(old_rest[jj] == rest@[j]);
                if i < chosen@.len() - 1 {
                    assert(old_chosen[i] == chosen@[i]);
                }
            }
        }
    }
    proof {
        let m = chosen@.map_values(|x: usize| x as int);
        assert forall|tt: int, i: int|
            0 <= tt < ks.len() && !m.contains(tt) && 0 <= i < m.len() implies #[trigger] key_before(ks, m[i], tt) by {
            let x = tt as usize;
            if chosen@.contains(x) {
                let j = choose|j: int| 0 <= j < chosen@.len() && chosen@[j] == x;
                assert(m[j] == tt);
            }
            let j = choose|j: int| 0 <= j < rest@.len() && rest@[j] == x;
            assert(chosen@[i] as int == m[i]);
            assert(key_before(ks, chosen@[i] as int, rest@[j] as int));
        }
    }
    chosen
}

fn pick(authors: &Vec<User>, idx: &Vec<usize>) -> (r: Vec<User>)
    requires
        forall|i: int| 0 <= i < idx@.len() ==> #[trigger] idx@[i] < authors@.len(),
    ensures
        users_view(r@) == idx@.map_values(|x: usize| x as int).map_values(|x: int| users_view(authors@)[x]),
{
    let mut r: Vec<User> = Vec::new();
    let mut i: usize = 0;
    while i < idx.len()
        invariant
            i <= idx@.len(),
            forall|i: int| 0 <= i < idx@.len() ==> #[trigger] idx@[i] < authors@.len(),
            r@.len() == i,
            forall|j: int| 0 <= j < i ==> #[trigger] r@[j]@ == authors@[idx@[j] as int]@,
        decreases idx@.len() - i,
    {
        r.push(authors[idx[i]].duplicate());
        i = i + 1;
    }
    assert(users_view(r@) =~= idx@.map_values(|x: usize| x as int).map_values(|x: int| users_view(authors@)[x]));
    r
}

/// Ranks the authors of a history given newest first: by number of commits,
/// most first, and by the time met first in the walk, earliest first. Each
/// list keeps at most `RANKING_SIZE` authors; ties keep the order in which
/// authors were first met.
pub fn rank_authors(commits: &Vec<Commit>) -> (r: (Vec<User>, Vec<User>))
    ensures
        active_ranking(commits@.map_values(|c: Commit| c@), users_view(r.0@)),
        oldest_ranking(commits@.map_values(|c: Commit| c@), users_view(r.1@)),
{
    let ghost cs = commits@.map_values(|c: Commit| c@);
    let mut authors: Vec<User> = Vec::new();
    let mut counts: Vec<usize> = Vec::new();
    let mut firsts: Vec<CommitTime> = Vec::new();
    let mut i: usize = 0;
    while i < commits.len()
        invariant
            i <= commits@.len(),
            cs == commits@.map_values(|c: Commit| c@),
            users_view(authors@) == distinct_authors(cs.take(i as int)),
            counts@.len() == authors@.len(),
            firsts@.len() == authors@.len(),
            forall|k: int| 0 <= k < authors@.len() ==> #[trigger] counts@[k] == occurrences(cs.take(i as int), authors@[k]@),
            forall|k: int| 0 <= k < authors@.len() ==> #[trigger] firsts@[k] == first_seen(cs.take(i as int), authors@[k]@),
            forall|k: int| 0 <= k < authors@.len() ==> #[trigger] counts@[k] <= i,
        decreases commits@.len() - i,
    {
        let ghost prev = cs.take(i as int);
        let ghost next = cs.take(i + 1);
        proof {
            assert(next.drop_last() =~= prev);
            assert(next.last() == commits@[i as int]@);
            lemma_distinct_authors(prev);
        }
        let c = &commits[i];
        let ghost before = users_view(authors@);
        match position(&authors, &c.author) {
            Some(p) => {
                counts[p] = counts[p] + 1;
                proof {
                    assert forall|k: int| 0 <= k < authors@.len() && k != p implies authors@[k]@ != c.author@ by {
                        assert(users_view(authors@)[k] == authors@[k]@);
                        assert(users_view(authors@)[p as int] == authors@[p as int]@);
                    }
                    assert(users_view(authors@).contains(c.author@)) by {
                        assert(users_view(authors@)[p as int] == c.author@);
                    }
                    assert forall|k: int| #![trigger counts@[k]] #![trigger firsts@[k]] 0 <= k < authors@.len() implies counts@[k]
                        == occurrences(next, authors@[k]@) && firsts@[k] == first_seen(next, authors@[k]@) by {
                        assert(before[k] == authors@[k]@);
                        assert(before.contains(authors@[k]@));
                        assert(occurrences(prev, authors@[k]@) > 0);
                    }
                }
            },
            None => {
                authors.push(c.author.duplicate());
                counts.push(1);
                firsts.push(c.time);
                proof {
                    assert(users_view(authors@) =~= before.push(c.author@));
                    assert forall|k: int| #![trigger counts@[k]] #![trigger firsts@[k]] 0 <= k < authors@.len() implies counts@[k]
                        == occurrences(next, authors@[k]@) && firsts@[k] == first_seen(next, authors@[k]@) by {
                        if k < authors@.len() - 1 {
                            assert(before[k] == authors@[k]@);
                            assert(before.contains(authors@[k]@));
                            assert(occurrences(prev, authors@[k]@) > 0);
                        } else {
                            assert(authors@[k]@ == c.author@);
                            assert(occurrences(prev, c.author@) == 0);
                            assert(first_seen(next, c.author@) == c.time);
                        }
                    }
                }
            },
        }
        proof {
            assert(users_view(authors@) =~= distinct_authors(next));
        }
        i = i + 1;
    }
    proof {
        assert(cs.take(commits@.len() as int) =~= cs);
    }
    let n = authors.len();
    let k: usize = if n < RANKING_SIZE { n } else { RANKING_SIZE };
    let mut active_keys: Vec<(i128, i128)> = Vec::new();
    let mut oldest_keys: Vec<(i128, i128)> = Vec::new();
    let mut j: usize = 0;
    while j < n
        invariant
            j <= n,
            n == authors@.len(),
            counts@.len() == n,
            firsts@.len() == n,
            active_keys@.len() == j,
            oldest_keys@.len() == j,
            forall|k: int| 0 <= k < n ==> #[trigger] counts@[k] <= commits@.len(),
            forall|x: int| 0 <= x < j ==> #[trigger] active_keys@[x].0 == -(counts@[x] as int) && active_keys@[x].1 == 0,
            forall|x: int| 0 <= x < j ==> #[trigger] oldest_keys@[x].0 == firsts@[x].seconds as int && oldest_keys@[x].1 == firsts@[x].offset_minutes as int,
        decreases n - j,
    {
        active_keys.push((-(counts[j] as i128), 0i128));
        oldest_keys.push((firsts[j].seconds as i128, firsts[j].offset_minutes as i128));
        j = j + 1;
    }
    let a_idx = top_order(&active_keys, k);
    let o_idx = top_order(&oldest_keys, k);
    proof {
        assert forall|i: int| 0 <= i < a_idx@.len() implies #[trigger] a_idx@[i] < authors@.len() by {
            assert(a_idx@.map_values(|x: usize| x as int)[i] == a_idx@[i] as int);
        }
        assert forall|i: int| 0 <= i < o_idx@.len() implies #[trigger] o_idx@[i] < authors@.len() by {
            assert(o_idx@.map_values(|x: usize| x as int)[i] == o_idx@[i] as int);
        }
    }
    let active = pick(&authors, &a_idx);
    let oldest = pick(&authors, &o_idx);
    proof {
        let a = distinct_authors(cs);
        assert(a.map_values(|u: UserView| active_key(cs, u))
            =~= active_keys@.map_values(|p: (i128, i128)| (p.0 as int, p.1 as int)));
        assert(a.map_values(|u: UserView| oldest_key(cs, u))
            =~= oldest_keys@.map_values(|p: (i128, i128)| (p.0 as int, p.1 as int)));
        let ai = a_idx@.map_values(|x: usize| x as int);
        let oi = o_idx@.map_values(|x: usize| x as int);
        assert(users_view(active@) =~= ai.map_values(|x: int| a[x]));
        assert(users_view(oldest@) =~= oi.map_values(|x: int| a[x]));
        assert(a.len() == n);
        assert(is_top(a.map_values(|u: UserView| active_key(cs, u)), min_size(a.len() as int), ai));
        assert(is_top(a.map_values(|u: UserView| oldest_key(cs, u)), min_size(a.len() as int), oi));
    }
    (active, oldest)
}

proof fn lemma_ranking_shape(a: Seq<UserView>, keys: Seq<(int, int)>, r: Seq<UserView>) -> (idx: Seq<int>)
    requires
        is_ranking(a, keys, r),
        a.no_duplicates(),
        keys.len() == a.len(),
    ensures
        is_top(keys, min_size(a.len() as int), idx),
        r == idx.map_values(|x: int| a[x]),
        r.len() <= RANKING_SIZE,
        r.no_duplicates(),
        forall|i: int| 0 <= i < r.len() ==> a.contains(#[trigger] r[i]),
{
    let idx = choose|idx: Seq<int>|
        is_top(keys, min_size(a.len() as int), idx) && r == idx.map_values(|x: int| a[x]);
    assert forall|i: int, j: int| 0 <= i < j < r.len() implies r[i] != r[j] by {
        assert(key_before(keys, idx[i], idx[j]));
    }
    assert forall|i: int| 0 <= i < r.len() implies a.contains(#[trigger] r[i]) by {
        assert(a[idx[i]] == r[i]);
    }
    idx
}

/// Of every history: each ranking keeps at most `RANKING_SIZE` authors, each
/// an author of the history and none twice; the activity ranking goes by
/// number of commits, most first, and the seniority ranking by recorded time,
/// earliest first.
pub proof fn lemma_rankings_ordered(cs: Seq<CommitView>, active: Seq<UserView>, oldest: Seq<UserView>)
    requires
        active_ranking(cs, active),
        oldest_ranking(cs, oldest),
    ensures
        active.len() <= RANKING_SIZE,
        oldest.len() <= RANKING_SIZE,
        active.no_duplicates(),
        oldest.no_duplicates(),
        forall|i: int| 0 <= i < active.len() ==> distinct_authors(cs).contains(#[trigger] active[i]),
        forall|i: int| 0 <= i < oldest.len() ==> distinct_authors(cs).contains(#[trigger] oldest[i]),
        forall|i: int, j: int| 0 <= i < j < active.len() ==>
            occurrences(cs, #[trigger] active[i]) >= occurrences(cs, #[trigger] active[j]),
        forall|i: int, j: int| 0 <= i < j < oldest.len() ==>
            key_not_after(oldest_key(cs, #[trigger] oldest[i]), oldest_key(cs, #[trigger] oldest[j])),
{
    let a = distinct_authors(cs);
    lemma_distinct_authors(cs);
    let ak = a.map_values(|u: UserView| active_key(cs, u));
    let ok = a.map_values(|u: UserView| oldest_key(cs, u));
    let ai = lemma_ranking_shape(a, ak, active);
    let oi = lemma_ranking_shape(a, ok, oldest);
    assert forall|i: int, j: int| 0 <= i < j < active.len() implies
        occurrences(cs, #[trigger] active[i]) >= occurrences(cs, #[trigger] active[j]) by {
        assert(key_before(ak, ai[i], ai[j]));
    }
    assert forall|i: int, j: int| 0 <= i < j < oldest.len() implies
        key_not_after(oldest_key(cs, #[trigger] oldest[i]), oldest_key(cs, #[trigger] oldest[j])) by {
        assert(key_before(ok, oi[i], oi[j]));
    }
}

/// A history without commits gives two empty rankings.
pub proof fn lemma_no_commits_no_authors(active: Seq<UserView>, oldest: Seq<UserView>)
    requires
        active_ranking(Seq::empty(), active),
        oldest_ranking(Seq::empty(), oldest),
    ensures
        active.len() == 0,
        oldest.len() == 0,
{
    let cs = Seq::<CommitView>::empty();
    let a = distinct_authors(cs);
    assert(a.len() == 0);
    lemma_distinct_authors(cs);
    lemma_ranking_shape(a, a.map_values(|u: UserView| active_key(cs, u)), active);
    lemma_ranking_shape(a, a.map_values(|u: UserView| oldest_key(cs, u)), oldest);
}

} // verus!
