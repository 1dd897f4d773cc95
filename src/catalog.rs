//! The catalog of recorded clips: entries from earlier days and from today,
//! each kept in chronological order, and the stream address of each.

use vstd::prelude::*;
use vstd::string::StringExecFns;

verus! {

/// A clip recorded today.
#[derive(Default, Clone, Debug)]
pub struct TodayMovie {
    pub hour: u32,
    pub filepath: String,
    pub formatted_date: String,
}

/// The clips on offer.
#[derive(Default, Clone, Debug)]
pub struct AvailableMovies {
    pub past_day_movies: Vec<PastDayMovies>,
    pub today_movies: Vec<TodayMovie>,
}

/// A clip recorded on an earlier day.
#[derive(Default, Clone, Debug)]
pub struct PastDayMovies {
    pub formatted_date: String,
    pub timestamp: u64,
    pub filename: String,
}

/// An entry with a chronological key.
pub trait Chronological: Sized {
    spec fn chrono_key(&self) -> int;

    fn key(&self) -> (r: u64)
        ensures
            r == self.chrono_key(),
    ;
}

impl Chronological for PastDayMovies {
    open spec fn chrono_key(&self) -> int {
        self.timestamp as int
    }

    fn key(&self) -> (r: u64) {
        self.timestamp
    }
}

impl Chronological for TodayMovie {
    open spec fn chrono_key(&self) -> int {
        self.hour as int
    }

    fn key(&self) -> (r: u64) {
        self.hour as u64
    }
}

/// Keys never decrease along `s`.
pub open spec fn chrono_sorted<T: Chronological>(s: Seq<T>) -> bool {
    forall|i: int, j: int| 0 <= i < j < s.len() ==> s[i].chrono_key() <= s[j].chrono_key()
}

/// The entries of `s` whose key is `k`, in their order in `s`.
pub open spec fn with_key<T: Chronological>(s: Seq<T>, k: int) -> Seq<T> {
    s.filter(|m: T| m.chrono_key() == k)
}

/// `out` is `input` sorted by key, stably: sorted, and for every key the
/// entries that carry it come in the same order as in `input`.
pub open spec fn stably_sorted_from<T: Chronological>(out: Seq<T>, input: Seq<T>) -> bool {
    &&& chrono_sorted(out)
    &&& forall|k: int| #[trigger] with_key(out, k) == with_key(input, k)
}

proof fn lemma_filter_single<T>(x: T, pred: spec_fn(T) -> bool)
    ensures
        seq![x].filter(pred) == (if pred(x) {
            seq![x]
        } else {
            Seq::<T>::empty()
        }),
{
    reveal_with_fuel(Seq::filter, 2);
    assert(seq![x].drop_last() =~= Seq::<T>::empty());
}

proof fn lemma_filter_none<T>(s: Seq<T>, pred: spec_fn(T) -> bool)
    requires
        forall|i: int| 0 <= i < s.len() ==> !pred(s[i]),
    ensures
        s.filter(pred) == Seq::<T>::empty(),
    decreases s.len(),
{
    reveal(Seq::filter);
    if s.len() > 0 {
        lemma_filter_none(s.drop_last(), pred);
    }
}

/// Inserting `x` after every entry whose key is not above its own keeps the
/// sequence sorted and puts `x` last among the entries with its key.
proof fn lemma_insert_keeps_stable<T: Chronological>(out: Seq<T>, input: Seq<T>, p: int, x: T)
    requires
        stably_sorted_from(out, input),
        0 <= p <= out.len(),
        forall|j: int| 0 <= j < p ==> out[j].chrono_key() <= x.chrono_key(),
        forall|j: int| p <= j < out.len() ==> out[j].chrono_key() > x.chrono_key(),
    ensures
        stably_sorted_from(out.insert(p, x), input.push(x)),
{
    let res = out.insert(p, x);
    let a = out.subrange(0, p);
    let b = out.subrange(p, out.len() as int);
    assert(res =~= a + seq![x] + b);
    assert(out =~= a + b);
    assert(input.push(x) =~= input + seq![x]);
    assert forall|k: int| #[trigger] with_key(res, k) == with_key(input.push(x), k) by {
        let pred = |m: T| m.chrono_key() == k;
        Seq::filter_distributes_over_add(a + seq![x], b, pred);
        Seq::filter_distributes_over_add(a, seq![x], pred);
        Seq::filter_distributes_over_add(a, b, pred);
        Seq::filter_distributes_over_add(input, seq![x], pred);
        lemma_filter_single(x, pred);
        assert(with_key(out, k) == with_key(input, k));
        if k == x.chrono_key() {
            lemma_filter_none(b, pred);
            assert(b.filter(pred) + Seq::<T>::empty() =~= b.filter(pred));
            assert(a.filter(pred) + Seq::<T>::empty() =~= a.filter(pred));
        } else {
            assert(a.filter(pred) + Seq::<T>::empty() =~= a.filter(pred));
            assert(input.filter(pred) + Seq::<T>::empty() =~= input.filter(pred));
        }
    }
}

/// Sorts `items` by key, keeping entries with equal keys in their order.
pub fn sort_chronologically<T: Chronological>(items: Vec<T>) -> (r: Vec<T>)
    ensures
        stably_sorted_from(r@, items@),
{
    let ghost orig = items@;
    let mut rest = items;
    let mut out: Vec<T> = Vec::new();
    let ghost mut done: int = 0;
    proof {
        assert forall|k: int| #[trigger] with_key(out@, k) == with_key(orig.take(0), k) by {
            reveal(Seq::filter);
            assert(out@ =~= Seq::<T>::empty());
            assert(orig.take(0) =~= Seq::<T>::empty());
        }
    }
    while rest.len() > 0
        invariant
            0 <= done <= orig.len(),
            rest@ == orig.skip(done),
            stably_sorted_from(out@, orig.take(done)),
        decreases rest.len(),
    {
        let x = rest.remove(0);
        let xk = x.key();
        let mut p: usize = 0;
        while p < out.len() && out[p].key() <= xk
            invariant
                0 <= p <= out.len(),
                chrono_sorted(out@),
                forall|j: int| 0 <= j < p ==> out@[j].chrono_key() <= xk,
            decreases out.len() - p,
        {
            p = p + 1;
        }
        proof {
            assert(orig.take(done + 1) =~= orig.take(done).push(x));
            lemma_insert_keeps_stable(out@, orig.take(done), p as int, x);
        }
        out.insert(p, x);
        proof {
            done = done + 1;
            assert(rest@ =~= orig.skip(done));
        }
    }
    proof {
        assert(orig.take(done) =~= orig);
    }
    out
}

/// Both lists, each sorted by key with equal keys kept in order.
pub fn sort_catalog(movies: AvailableMovies) -> (r: AvailableMovies)
    ensures
        stably_sorted_from(r.past_day_movies@, movies.past_day_movies@),
        stably_sorted_from(r.today_movies@, movies.today_movies@),
{
    let AvailableMovies { past_day_movies, today_movies } = movies;
    AvailableMovies {
        past_day_movies: sort_chronologically(past_day_movies),
        today_movies: sort_chronologically(today_movies),
    }
}

/// The address at which the clip `name` streams from `endpoint`.
pub fn stream_url(endpoint: &str, name: &str) -> (r: String)
    ensures
        r@ == endpoint@ + seq!['/'] + name@,
{
    let mut url = String::from_str(endpoint);
    url.append("/");
    proof {
        reveal_strlit("/");
    }
    url.append(name);
    url
}

impl AvailableMovies {
    /// The stream address of the `i`-th clip of earlier days.
    pub fn past_source(&self, i: usize, endpoint: &str) -> (r: String)
        requires
            i < self.past_day_movies@.len(),
        ensures
            r@ == endpoint@ + seq!['/'] + self.past_day_movies@[i as int].filename@,
    {
        stream_url(endpoint, self.past_day_movies[i].filename.as_str())
    }

    /// The stream address of the `i`-th clip of today.
    pub fn today_source(&self, i: usize, endpoint: &str) -> (r: String)
        requires
            i < self.today_movies@.len(),
        ensures
            r@ == endpoint@ + seq!['/'] + self.today_movies@[i as int].filepath@,
    {
        stream_url(endpoint, self.today_movies[i].filepath.as_str())
    }
}

} // verus!
