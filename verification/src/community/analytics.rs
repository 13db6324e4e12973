//! Engagement and demographic statistics of the community: consent counts
//! and the languages members are interested in.

use vstd::prelude::*;
use crate::community::database::{json_string_array, parse_string_array, array_result_view};
use crate::text::{str_eq, views};

verus! {

/// How often an activity kind occurred and how many members performed it.
#[derive(Debug, Clone)]
pub struct ActivityStats {
    /// Stored name of the activity kind.
    pub activity_type: String,
    /// Number of occurrences.
    pub count: usize,
    /// Number of distinct members who performed it.
    pub unique_members: usize,
}

/// Newsletter and marketing consent among active members.
#[derive(Debug, Clone, Copy, PartialEq, Eq, Structural)]
pub struct ConsentCounts {
    pub newsletter: usize,
    pub marketing: usize,
    pub total: usize,
}

/// Number of rows whose newsletter flag is set.
pub open spec fn newsletter_count(rows: Seq<(bool, bool)>) -> nat
    decreases rows.len(),
{
    if rows.len() == 0 { 0 } else { newsletter_count(rows.drop_last()) + if rows.last().0 { 1nat } else { 0nat } }
}

/// Number of rows whose marketing flag is set.
pub open spec fn marketing_count(rows: Seq<(bool, bool)>) -> nat
    decreases rows.len(),
{
    if rows.len() == 0 { 0 } else { marketing_count(rows.drop_last()) + if rows.last().1 { 1nat } else { 0nat } }
}

proof fn lemma_counts_bounded(rows: Seq<(bool, bool)>)
    ensures
        newsletter_count(rows) <= rows.len(),
        marketing_count(rows) <= rows.len(),
    decreases rows.len(),
{
    if rows.len() > 0 {
        lemma_counts_bounded(rows.drop_last());
    }
}

/// Counts the members who subscribed to the newsletter and who consented
/// to marketing, given each member's `(newsletter, marketing)` flags.
pub fn count_consents(rows: &Vec<(bool, bool)>) -> (c: ConsentCounts)
    ensures
        c.newsletter == newsletter_count(rows@),
        c.marketing == marketing_count(rows@),
        c.total == rows@.len(),
{
    let mut newsletter: usize = 0;
    let mut marketing: usize = 0;
    let mut i: usize = 0;
    while i < rows.len()
        invariant
            i <= rows.len(),
            newsletter == newsletter_count(rows@.subrange(0, i as int)),
            marketing == marketing_count(rows@.subrange(0, i as int)),
        decreases rows.len() - i,
    {
        proof {
            let sub = rows@.subrange(0, i + 1);
            assert(sub.drop_last() =~= rows@.subrange(0, i as int));
            lemma_counts_bounded(rows@.subrange(0, i as int));
        }
        let (n, m) = rows[i];
        if n {
            newsletter = newsletter + 1;
        }
        if m {
            marketing = marketing + 1;
        }
        i = i + 1;
    }
    assert(rows@.subrange(0, rows.len() as int) =~= rows@);
    ConsentCounts { newsletter, marketing, total: rows.len() }
}

/// The language lists of the rows that hold a JSON array of strings, in
/// row order; other rows are skipped.
pub open spec fn parsed_rows(rows: Seq<String>) -> Seq<Seq<Seq<char>>>
    decreases rows.len(),
{
    if rows.len() == 0 {
        seq![]
    } else {
        parsed_rows(rows.drop_last()) + match json_string_array(rows.last()@) {
            Ok(ls) => seq![ls],
            Err(_) => seq![],
        }
    }
}

/// All languages of all lists, in order.
pub open spec fn flat(lists: Seq<Seq<Seq<char>>>) -> Seq<Seq<char>>
    decreases lists.len(),
{
    if lists.len() == 0 { seq![] } else { flat(lists.drop_last()) + lists.last() }
}

/// Number of times `l` occurs in a list of languages.
pub open spec fn count_in(s: Seq<Seq<char>>, l: Seq<char>) -> nat
    decreases s.len(),
{
    if s.len() == 0 { 0 } else { count_in(s.drop_last(), l) + if s.last() == l { 1nat } else { 0nat } }
}

/// Sum of the counts recorded under `l`.
pub open spec fn tally_of(v: Seq<(String, usize)>, l: Seq<char>) -> int
    decreases v.len(),
{
    if v.len() == 0 { 0 } else { tally_of(v.drop_last(), l) + if v.last().0@ == l { v.last().1 as int } else { 0int } }
}

/// No language occurs twice in a tally.
pub open spec fn distinct_languages(v: Seq<(String, usize)>) -> bool {
    forall|i: int, j: int| 0 <= i < j < v.len() ==> (#[trigger] v[i]).0@ != (#[trigger] v[j]).0@
}

/// `t` counts the languages of `langs`: one entry per language that
/// occurs, holding the number of its occurrences.
pub open spec fn is_tally_of(t: Seq<(String, usize)>, langs: Seq<Seq<char>>) -> bool {
    &&& distinct_languages(t)
    &&& forall|q: int| 0 <= q < t.len() ==> (#[trigger] t[q]).1 >= 1
    &&& forall|l: Seq<char>| #[trigger] tally_of(t, l) == count_in(langs, l)
}

/// The views of lists of strings.
pub open spec fn list_views(v: Seq<Vec<String>>) -> Seq<Seq<Seq<char>>> {
    v.map_values(|l: Vec<String>| views(l@))
}

proof fn lemma_count_in_bound(s: Seq<Seq<char>>, l: Seq<char>)
    ensures
        count_in(s, l) <= s.len(),
    decreases s.len(),
{
    if s.len() > 0 {
        lemma_count_in_bound(s.drop_last(), l);
    }
}

proof fn lemma_tally_absent(v: Seq<(String, usize)>, l: Seq<char>)
    requires
        forall|i: int| 0 <= i < v.len() ==> (#[trigger] v[i]).0@ != l,
    ensures
        tally_of(v, l) == 0,
    decreases v.len(),
{
    if v.len() > 0 {
        lemma_tally_absent(v.drop_last(), l);
    }
}

proof fn lemma_tally_update(v: Seq<(String, usize)>, i: int, c: usize, l: Seq<char>)
    requires
        0 <= i < v.len(),
    ensures
        tally_of(v.update(i, (v[i].0, c)), l) == tally_of(v, l) + if v[i].0@ == l { c - v[i].1 } else { 0int },
    decreases v.len(),
{
    let w = v.update(i, (v[i].0, c));
    if i < v.len() - 1 {
        assert(w.drop_last() =~= v.drop_last().update(i, (v[i].0, c)));
        lemma_tally_update(v.drop_last(), i, c, l);
    } else {
        assert(w.drop_last() =~= v.drop_last());
    }
}

/// In a tally without repeated languages, the sum under an entry's
/// language is that entry's count.
pub proof fn lemma_tally_entry(v: Seq<(String, usize)>, i: int)
    requires
        distinct_languages(v),
        0 <= i < v.len(),
    ensures
        tally_of(v, v[i].0@) == v[i].1,
    decreases v.len(),
{
    let d = v.drop_last();
    if i == v.len() - 1 {
        assert forall|k: int| 0 <= k < d.len() implies (#[trigger] d[k]).0@ != v[i].0@ by {
            assert(d[k] == v[k]);
        }
        lemma_tally_absent(d, v[i].0@);
    } else {
        assert(distinct_languages(d)) by {
            assert forall|a: int, b: int| 0 <= a < b < d.len() implies (#[trigger] d[a]).0@ != (#[trigger] d[b]).0@ by {
                assert(d[a] == v[a] && d[b] == v[b]);
            }
        }
        lemma_tally_entry(d, i);
        assert(v.last().0@ != v[i].0@);
    }
}

/// Reads the language lists of the member rows.
pub fn parse_language_rows(rows: &Vec<String>) -> (lists: Vec<Vec<String>>)
    ensures
        list_views(lists@) == parsed_rows(rows@),
{
    let mut lists: Vec<Vec<String>> = Vec::new();
    let mut i: usize = 0;
    while i < rows.len()
        invariant
            i <= rows.len(),
            list_views(lists@) == parsed_rows(rows@.subrange(0, i as int)),
        decreases rows.len() - i,
    {
        let ghost before = lists@;
        proof {
            let sub = rows@.subrange(0, i + 1);
            assert(sub.drop_last() =~= rows@.subrange(0, i as int));
        }
        match parse_string_array(rows[i].as_str()) {
            Ok(ls) => {
                lists.push(ls);
            },
            Err(_) => {},
        }
        proof {
            assert(list_views(lists@) =~= list_views(before) + match json_string_array(rows@[i as int]@) {
                Ok(ls) => seq![ls],
                Err(_) => seq![],
            });
        }
        i = i + 1;
    }
    assert(rows@.subrange(0, rows.len() as int) =~= rows@);
    lists
}

fn find_language(v: &Vec<(String, usize)>, name: &str) -> (r: Option<usize>)
    ensures
        r matches Some(k) ==> k < v@.len() && v@[k as int].0@ == name@,
        r is None ==> forall|q: int| 0 <= q < v@.len() ==> (#[trigger] v@[q]).0@ != name@,
{
    let mut k: usize = 0;
    while k < v.len()
        invariant
            k <= v.len(),
            forall|q: int| 0 <= q < k ==> (#[trigger] v@[q]).0@ != name@,
        decreases v.len() - k,
    {
        if str_eq(v[k].0.as_str(), name) {
            return Some(k);
        }
        k = k + 1;
    }
    None
}

/// Counts how often each language occurs in the lists, one entry per
/// language in order of first occurrence.
pub fn tally_languages(lists: &Vec<Vec<String>>) -> (v: Vec<(String, usize)>)
    requires
        flat(list_views(lists@)).len() <= usize::MAX,
    ensures
        is_tally_of(v@, flat(list_views(lists@))),
{
    let ghost all = list_views(lists@);
    let mut v: Vec<(String, usize)> = Vec::new();
    let mut i: usize = 0;
    while i < lists.len()
        invariant
            i <= lists.len(),
            all == list_views(lists@),
            flat(all).len() <= usize::MAX,
            distinct_languages(v@),
            forall|q: int| 0 <= q < v@.len() ==> (#[trigger] v@[q]).1 >= 1,
            forall|l: Seq<char>| #[trigger] tally_of(v@, l) == count_in(flat(all.subrange(0, i as int)), l),
        decreases lists.len() - i,
    {
        let list = &lists[i];
        let ghost base = flat(all.subrange(0, i as int));
        proof {
            let sub = all.subrange(0, i + 1);
            assert(sub.drop_last() =~= all.subrange(0, i as int));
            assert(sub.last() == views(list@));
            assert(flat(sub) == base + views(list@));
            lemma_flat_prefix_len(all, i as int + 1);
        }
        let mut j: usize = 0;
        while j < list.len()
            invariant
                j <= list.len(),
                distinct_languages(v@),
                forall|q: int| 0 <= q < v@.len() ==> (#[trigger] v@[q]).1 >= 1,
                base.len() + list@.len() <= usize::MAX,
                forall|l: Seq<char>| #[trigger] tally_of(v@, l) == count_in(base + views(list@).subrange(0, j as int), l),
            decreases list.len() - j,
        {
            let name = list[j].as_str();
            let ghost prefix = base + views(list@).subrange(0, j as int);
            proof {
                let next = base + views(list@).subrange(0, j + 1);
                assert(next =~= prefix.push(list@[j as int]@));
                assert(next.drop_last() =~= prefix);
                lemma_count_in_bound(prefix, name@);
            }
            let ghost v0 = v@;
            let found = find_language(&v, name);
            if let Some(k) = found {
                proof {
                    lemma_tally_entry(v0, k as int);
                }
                let c = v[k].1 + 1;
                let key = v[k].0.clone();
                v.set(k, (key, c));
                proof {
                    assert(v@ =~= v0.update(k as int, (v0[k as int].0, c)));
                    assert forall|l: Seq<char>| #[trigger] tally_of(v@, l) == count_in(prefix.push(list@[j as int]@), l) by {
                        lemma_tally_update(v0, k as int, c, l);
                    }
                    assert(distinct_languages(v@)) by {
                        assert forall|a: int, b: int| 0 <= a < b < v@.len() implies (#[trigger] v@[a]).0@ != (#[trigger] v@[b]).0@ by {
                            assert(v@[a].0 == v0[a].0 && v@[b].0 == v0[b].0);
                        }
                    }
                }
            } else {
                let key = crate::text::owned(name);
                v.push((key, 1));
                proof {
                    assert(v@.drop_last() =~= v0);
                    assert(v@.last().0@ == name@);
                    assert(name@ == list@[j as int]@);
                    assert forall|l: Seq<char>| #[trigger] tally_of(v@, l) == count_in(prefix.push(list@[j as int]@), l) by {
                        let p2 = prefix.push(list@[j as int]@);
                        assert(p2.drop_last() =~= prefix);
                        assert(p2.last() == name@);
                        assert(tally_of(v@, l) == tally_of(v0, l) + if name@ == l { 1int } else { 0int });
                        assert(count_in(p2, l) == count_in(prefix, l) + if name@ == l { 1nat } else { 0nat });
                    }
                    assert(distinct_languages(v@)) by {
                        assert forall|a: int, b: int| 0 <= a < b < v@.len() implies (#[trigger] v@[a]).0@ != (#[trigger] v@[b]).0@ by {
                            if b == v@.len() - 1 {
                                assert(v@[a] == v0[a]);
                            } else {
                                assert(v@[a] == v0[a] && v@[b] == v0[b]);
                            }
                        }
                    }
                }
            }
            proof {
                assert(base + views(list@).subrange(0, j + 1) =~= prefix.push(list@[j as int]@));
            }
            j = j + 1;
        }
        proof {
            assert(views(list@).subrange(0, list.len() as int) =~= views(list@));
            let sub = all.subrange(0, i + 1);
            assert(sub.drop_last() =~= all.subrange(0, i as int));
        }
        i = i + 1;
    }
    assert(all.subrange(0, lists.len() as int) =~= all);
    v
}

proof fn lemma_flat_prefix_len(all: Seq<Seq<Seq<char>>>, n: int)
    requires
        0 <= n <= all.len(),
    ensures
        flat(all.subrange(0, n)).len() <= flat(all).len(),
    decreases all.len() - n,
{
    if n < all.len() {
        lemma_flat_prefix_len(all, n + 1);
        let sub = all.subrange(0, n + 1);
        assert(sub.drop_last() =~= all.subrange(0, n));
    } else {
        assert(all.subrange(0, n) =~= all);
    }
}

/// Most languages listed in a ranking of interests.
pub const TOP_LANGUAGES: usize = 10;

/// Counts never increase along the sequence.
pub open spec fn nonincreasing(s: Seq<(String, usize)>) -> bool {
    forall|a: int, b: int| 0 <= a < b < s.len() ==> (#[trigger] s[a]).1 >= (#[trigger] s[b]).1
}

/// `top` followed by `rest` is a rearrangement of `all`, and nothing in
/// `rest` has a higher count than anything in `top`.
pub open spec fn splits_ranking(top: Seq<(String, usize)>, rest: Seq<(String, usize)>, all: Seq<(String, usize)>) -> bool {
    &&& (top + rest).to_multiset() == all.to_multiset()
    &&& forall|a: int, b: int| 0 <= a < rest.len() && 0 <= b < top.len() ==> (#[trigger] rest[a]).1 <= (#[trigger] top[b]).1
}

proof fn lemma_swap_multiset(s: Seq<(String, usize)>, i: int, j: int)
    requires
        0 <= i < s.len(),
        0 <= j < s.len(),
    ensures
        s.update(i, s[j]).update(j, s[i]).to_multiset() == s.to_multiset(),
{
    broadcast use vstd::seq_lib::group_to_multiset_ensures, vstd::multiset::group_multiset_axioms;
    let t = s.update(i, s[j]);
    assert(t[j] == s[j]) by {
        if i == j {
        }
    }
    assert(t.update(j, s[i]).to_multiset() =~= s.to_multiset());
}

/// The entries with the highest counts, at most `TOP_LANGUAGES` of them,
/// highest first; entries with equal counts may come in any order.
pub fn top_languages(v: &Vec<(String, usize)>) -> (out: Vec<(String, usize)>)
    ensures
        out@.len() == if v@.len() < TOP_LANGUAGES { v@.len() } else { TOP_LANGUAGES as nat },
        nonincreasing(out@),
        exists|rest: Seq<(String, usize)>| #[trigger] splits_ranking(out@, rest, v@),
{
    let n = v.len();
    let mut work: Vec<(String, usize)> = Vec::new();
    let mut c: usize = 0;
    while c < n
        invariant
            c <= n,
            n == v@.len(),
            work@ == v@.subrange(0, c as int),
        decreases n - c,
    {
        let key = v[c].0.clone();
        work.push((key, v[c].1));
        c = c + 1;
    }
    assert(v@.subrange(0, n as int) =~= v@);
    let m: usize = if n < TOP_LANGUAGES { n } else { TOP_LANGUAGES };
    let mut i: usize = 0;
    while i < m
        invariant
            m <= n,
            i <= m,
            work@.len() == n,
            work@.to_multiset() == v@.to_multiset(),
            forall|a: int, b: int| 0 <= a < b < i ==> (#[trigger] work@[a]).1 >= (#[trigger] work@[b]).1,
            forall|a: int, b: int| 0 <= a < i <= b < n ==> (#[trigger] work@[b]).1 <= (#[trigger] work@[a]).1,
        decreases m - i,
    {
        let mut best: usize = i;
        let mut k: usize = i + 1;
        while k < n
            invariant
                i < n,
                i <= best < n,
                i < k <= n,
                work@.len() == n,
                forall|q: int| i <= q < k ==> (#[trigger] work@[q]).1 <= work@[best as int].1,
            decreases n - k,
        {
            if work[k].1 > work[best].1 {
                best = k;
            }
            k = k + 1;
        }
        let ghost before = work@;
        let hi = work[best].0.clone();
        let hc = work[best].1;
        let lo = work[i].0.clone();
        let lc = work[i].1;
        work.set(i, (hi, hc));
        work.set(best, (lo, lc));
        proof {
            lemma_swap_multiset(before, i as int, best as int);
            assert(work@ == before.update(i as int, before[best as int]).update(best as int, before[i as int]));
            assert forall|a: int, b: int| 0 <= a < b < i + 1 implies (#[trigger] work@[a]).1 >= (#[trigger] work@[b]).1 by {
                if b == i {
                    assert(before[best as int].1 <= before[a].1);
                }
            }
            assert forall|a: int, b: int| 0 <= a < i + 1 <= b < n implies (#[trigger] work@[b]).1 <= (#[trigger] work@[a]).1 by {
                if b == best {
                    assert(work@[b] == before[i as int]);
                } else {
                    assert(work@[b] == before[b]);
                }
                if a == i {
                    assert(work@[a] == before[best as int]);
                } else {
                    assert(work@[a] == before[a]);
                }
            }
        }
        i = i + 1;
    }
    let ghost full = work@;
    work.truncate(m);
    proof {
        let rest = full.subrange(m as int, n as int);
        assert(work@ + rest =~= full);
        assert(splits_ranking(work@, rest, v@));
    }
    work
}

/// Number of languages over all lists, or `None` past `usize::MAX`.
fn total_languages(lists: &Vec<Vec<String>>) -> (r: Option<usize>)
    ensures
        r matches Some(t) ==> t == flat(list_views(lists@)).len(),
        r is None ==> flat(list_views(lists@)).len() > usize::MAX,
{
    let ghost all = list_views(lists@);
    let mut total: usize = 0;
    let mut i: usize = 0;
    while i < lists.len()
        invariant
            i <= lists.len(),
            all == list_views(lists@),
            total == flat(all.subrange(0, i as int)).len(),
        decreases lists.len() - i,
    {
        proof {
            let sub = all.subrange(0, i + 1);
            assert(sub.drop_last() =~= all.subrange(0, i as int));
            assert(sub.last() == views(lists@[i as int]@));
            lemma_flat_prefix_len(all, i as int + 1);
        }
        match total.checked_add(lists[i].len()) {
            Some(t) => {
                total = t;
            },
            None => {
                return None;
            },
        }
        i = i + 1;
    }
    assert(all.subrange(0, lists.len() as int) =~= all);
    Some(total)
}

/// Interest in programming languages among members: the number of
/// member rows whose language list could be read, and the most listed
/// languages with the number of times each was listed.  `None` only when
/// the lists hold more entries than `usize` can count.
pub fn language_interests(rows: &Vec<String>) -> (r: Option<(usize, Vec<(String, usize)>)>)
    ensures
        r is None <==> flat(parsed_rows(rows@)).len() > usize::MAX,
        r matches Some((members, top)) ==> {
            &&& members == parsed_rows(rows@).len()
            &&& nonincreasing(top@)
            &&& exists|t: Seq<(String, usize)>| #[trigger] is_tally_of(t, flat(parsed_rows(rows@)))
                && top@.len() == (if t.len() < TOP_LANGUAGES { t.len() } else { TOP_LANGUAGES as nat })
                && exists|rest: Seq<(String, usize)>| #[trigger] splits_ranking(top@, rest, t)
        },
{
    let lists = parse_language_rows(rows);
    match total_languages(&lists) {
        None => None,
        Some(_) => {
            let tally = tally_languages(&lists);
            let top = top_languages(&tally);
            proof {
                assert(is_tally_of(tally@, flat(parsed_rows(rows@))));
            }
            Some((lists.len(), top))
        },
    }
}

} // verus!
