//! Videos and the order the manifest lists them in.
//!
//! A playlist's videos carry an explicit integer rank, `asset_order`. The
//! manifest lists them by ascending rank, and videos of equal rank keep
//! the order the server returned them in (a stable sort).

use vstd::prelude::*;

verus! {

use vstd::multiset::Multiset;

broadcast use vstd::seq_lib::group_to_multiset_ensures;

/// One entry of a playlist: a remote asset and its place in the manifest.
#[derive(Debug)]
pub struct Video {
    /// Unique id of the video, as the server names it.
    pub id: String,
    /// Where the asset is downloaded from.
    pub asset_url: String,
    /// Explicit rank; the manifest lists videos by ascending rank.
    pub asset_order: u8,
    /// File name of the asset inside the local asset directory.
    pub asset_name: String,
}

/// Holds when the videos stand in manifest order: ascending `asset_order`.
pub open spec fn sorted_by_order(s: Seq<Video>) -> bool {
    forall|i: int, j: int| 0 <= i < j < s.len() ==> s[i].asset_order <= s[j].asset_order
}

/// Where `v` lands among `s`: after every video of rank at most `v`'s, so
/// that equal ranks keep their fetched order.
pub open spec fn insert_by_order(s: Seq<Video>, v: Video) -> Seq<Video>
    decreases s.len(),
{
    if s.len() == 0 {
        seq![v]
    } else if s.last().asset_order <= v.asset_order {
        s.push(v)
    } else {
        insert_by_order(s.drop_last(), v).push(s.last())
    }
}

/// The videos in manifest order: the stable sort of `s` by `asset_order`.
pub open spec fn sort_by_order(s: Seq<Video>) -> Seq<Video>
    decreases s.len(),
{
    if s.len() == 0 {
        s
    } else {
        insert_by_order(sort_by_order(s.drop_last()), s.last())
    }
}

/// Holds of the videos of rank exactly `k`.
pub open spec fn has_order(k: u8) -> spec_fn(Video) -> bool {
    |v: Video| v.asset_order == k
}

/// The videos of rank exactly `k`, in their current order.
pub open spec fn with_order(s: Seq<Video>, k: u8) -> Seq<Video> {
    s.filter(has_order(k))
}

proof fn lemma_insert_by_order_multiset(s: Seq<Video>, v: Video)
    ensures
        insert_by_order(s, v).to_multiset() == s.to_multiset().insert(v),
        insert_by_order(s, v).len() == s.len() + 1,
    decreases s.len(),
{
    if s.len() == 0 {
        assert(seq![v] == Seq::<Video>::empty().push(v));
        assert(s.to_multiset() == Multiset::<Video>::empty());
    } else if s.last().asset_order <= v.asset_order {
        assert(s.push(v).to_multiset() == s.to_multiset().insert(v));
    } else {
        lemma_insert_by_order_multiset(s.drop_last(), v);
        assert(s == s.drop_last().push(s.last()));
        assert(s.to_multiset() == s.drop_last().to_multiset().insert(s.last()));
        assert(insert_by_order(s, v).to_multiset() == s.drop_last().to_multiset().insert(
            v,
        ).insert(s.last()));
        assert(s.drop_last().to_multiset().insert(v).insert(s.last())
            =~= s.drop_last().to_multiset().insert(s.last()).insert(v));
    }
}

proof fn lemma_insert_by_order_sorted(s: Seq<Video>, v: Video)
    requires
        sorted_by_order(s),
    ensures
        sorted_by_order(insert_by_order(s, v)),
    decreases s.len(),
{
    if s.len() == 0 {
    } else if s.last().asset_order <= v.asset_order {
        let r = s.push(v);
        assert forall|i: int, j: int| 0 <= i < j < r.len() implies r[i].asset_order
            <= r[j].asset_order by {
            if j == r.len() - 1 {
                assert(s[i].asset_order <= s.last().asset_order);
            }
        }
    } else {
        let t = insert_by_order(s.drop_last(), v);
        lemma_insert_by_order_sorted(s.drop_last(), v);
        lemma_insert_by_order_multiset(s.drop_last(), v);
        let r = t.push(s.last());
        assert forall|i: int, j: int| 0 <= i < j < r.len() implies r[i].asset_order
            <= r[j].asset_order by {
            if j == r.len() - 1 {
                // every element of t is either v or one of s.drop_last()
                assert(t.contains(t[i]));
                assert(t.to_multiset().count(t[i]) > 0);
                if t[i] != v {
                    assert(s.drop_last().to_multiset().count(t[i]) > 0);
                    assert(s.drop_last().contains(t[i]));
                    let k = choose|k: int|
                        0 <= k < s.drop_last().len() && s.drop_last()[k] == t[i];
                    assert(s[k].asset_order <= s.last().asset_order);
                }
            }
        }
    }
}

proof fn lemma_insert_by_order_filter(s: Seq<Video>, v: Video, k: u8)
    ensures
        v.asset_order == k ==> with_order(insert_by_order(s, v), k) == with_order(s, k).push(v),
        v.asset_order != k ==> with_order(insert_by_order(s, v), k) == with_order(s, k),
    decreases s.len(),
{
    reveal(Seq::filter);
    let pred = has_order(k);
    if s.len() == 0 {
        assert(seq![v].drop_last() =~= s);
        assert(seq![v].last() == v);
    } else if s.last().asset_order <= v.asset_order {
        assert(s.push(v).drop_last() =~= s);
        assert(s.push(v).last() == v);
    } else {
        lemma_insert_by_order_filter(s.drop_last(), v, k);
        let t = insert_by_order(s.drop_last(), v);
        assert(t.push(s.last()).drop_last() =~= t);
        assert(t.push(s.last()).last() == s.last());
        assert(s.drop_last().push(s.last()) =~= s);
        assert(s.filter(pred) == if pred(s.last()) {
            s.drop_last().filter(pred).push(s.last())
        } else {
            s.drop_last().filter(pred)
        });
        if v.asset_order == k {
            // s.last() outranks v, so it is not of rank k
            assert(!pred(s.last()));
        }
    }
}

/// The sort returns the same videos: a permutation of its input.
pub proof fn lemma_sort_by_order_permutes(s: Seq<Video>)
    ensures
        sort_by_order(s).to_multiset() == s.to_multiset(),
        sort_by_order(s).len() == s.len(),
    decreases s.len(),
{
    if s.len() == 0 {
    } else {
        lemma_sort_by_order_permutes(s.drop_last());
        lemma_insert_by_order_multiset(sort_by_order(s.drop_last()), s.last());
        assert(s == s.drop_last().push(s.last()));
        assert(s.to_multiset() == s.drop_last().to_multiset().insert(s.last()));
    }
}

/// The sort leaves the videos in manifest order.
pub proof fn lemma_sort_by_order_sorts(s: Seq<Video>)
    ensures
        sorted_by_order(sort_by_order(s)),
    decreases s.len(),
{
    if s.len() == 0 {
    } else {
        lemma_sort_by_order_sorts(s.drop_last());
        lemma_insert_by_order_sorted(sort_by_order(s.drop_last()), s.last());
    }
}

/// Ties preserve the fetched order: for every rank, the videos of that
/// rank come out of the sort in exactly the order they went in.
pub proof fn lemma_sort_by_order_stable(s: Seq<Video>, k: u8)
    ensures
        with_order(sort_by_order(s), k) == with_order(s, k),
    decreases s.len(),
{
    reveal(Seq::filter);
    let pred = has_order(k);
    if s.len() == 0 {
    } else {
        lemma_sort_by_order_stable(s.drop_last(), k);
        lemma_insert_by_order_filter(sort_by_order(s.drop_last()), s.last(), k);
        assert(s.drop_last().push(s.last()) =~= s);
        assert(s.filter(pred) == if pred(s.last()) {
            s.drop_last().filter(pred).push(s.last())
        } else {
            s.drop_last().filter(pred)
        });
    }
}

/// Sorting is idempotent: a list already in manifest order is unchanged.
pub proof fn lemma_sort_by_order_idempotent(s: Seq<Video>)
    requires
        sorted_by_order(s),
    ensures
        sort_by_order(s) == s,
    decreases s.len(),
{
    if s.len() == 0 {
    } else {
        assert(sorted_by_order(s.drop_last()));
        lemma_sort_by_order_idempotent(s.drop_last());
        let t = s.drop_last();
        if t.len() == 0 {
            assert(insert_by_order(t, s.last()) =~= s);
        } else {
            assert(t.last().asset_order <= s.last().asset_order);
            assert(t.push(s.last()) =~= s);
        }
    }
}

/// Sorting is idempotent, composed: sorting what is already the sort's
/// own output changes nothing.
pub proof fn lemma_sort_by_order_twice(s: Seq<Video>)
    ensures
        sort_by_order(sort_by_order(s)) == sort_by_order(s),
{
    lemma_sort_by_order_sorts(s);
    lemma_sort_by_order_idempotent(sort_by_order(s));
}

/// Where `v` lands among an ordered `s`, by position: before index `pos`
/// every rank is at most `v`'s, from `pos` on every rank is above it.
proof fn lemma_insert_by_order_at(s: Seq<Video>, v: Video, pos: int)
    requires
        0 <= pos <= s.len(),
        forall|i: int| 0 <= i < pos ==> s[i].asset_order <= v.asset_order,
        forall|i: int| pos <= i < s.len() ==> s[i].asset_order > v.asset_order,
    ensures
        insert_by_order(s, v) == s.insert(pos, v),
    decreases s.len(),
{
    if pos == s.len() {
        if s.len() == 0 {
            assert(seq![v] =~= s.insert(pos, v));
        } else {
            assert(s.push(v) =~= s.insert(pos, v));
        }
    } else {
        assert(s.last().asset_order > v.asset_order);
        lemma_insert_by_order_at(s.drop_last(), v, pos);
        assert(s.drop_last().insert(pos, v).push(s.last()) =~= s.insert(pos, v));
    }
}

/// The one host assets may be downloaded from.
pub open spec fn whitelist_host() -> Seq<char> {
    "s3.amazonaws.com"@
}

/// Holds when `needle` occurs contiguously somewhere in `hay`.
pub open spec fn contains_seq(hay: Seq<char>, needle: Seq<char>) -> bool {
    exists|i: int|
        0 <= i && i + needle.len() <= hay.len() && #[trigger] hay.subrange(i, i + needle.len())
            == needle
}

/// Whether `needle` occurs contiguously somewhere in `hay`.
fn str_contains_str(hay: &str, needle: &str) -> (r: bool)
    ensures
        r == contains_seq(hay@, needle@),
{
    let n = hay.unicode_len();
    let m = needle.unicode_len();
    if m > n {
        proof {
            assert forall|i: int| !(0 <= i && i + needle@.len() <= hay@.len() && #[trigger] hay@
                .subrange(i, i + needle@.len()) == needle@) by {}
        }
        return false;
    }
    let mut i: usize = 0;
    while i <= n - m
        invariant
            m <= n,
            n == hay@.len(),
            m == needle@.len(),
            i <= n - m + 1,
            forall|k: int|
                0 <= k < i ==> #[trigger] hay@.subrange(k, k + needle@.len()) != needle@,
        decreases n - m - i + 1,
    {
        let mut j: usize = 0;
        let mut matches = true;
        while j < m
            invariant
                m <= n,
                n == hay@.len(),
                m == needle@.len(),
                i + m <= n,
                j <= m,
                matches || j == m,
                matches == (forall|l: int| 0 <= l < j ==> hay@[i + l] == needle@[l]),
            decreases m - j,
        {
            if hay.get_char(i + j) != needle.get_char(j) {
                matches = false;
                proof {
                    assert(hay@[i + j as int] != needle@[j as int]);
                }
                j = m;
            } else {
                proof {
                    assert(forall|l: int| 0 <= l < j ==> hay@[i + l] == needle@[l]);
                    assert(hay@[i + j as int] == needle@[j as int]);
                }
                j = j + 1;
            }
        }
        if matches {
            proof {
                assert(hay@.subrange(i as int, i + needle@.len()) =~= needle@);
            }
            return true;
        }
        proof {
            assert(hay@.subrange(i as int, i + needle@.len()) != needle@) by {
                let k = choose|k: int|
                    0 <= k < m && hay@[i + k] != needle@[k];
                assert(hay@.subrange(i as int, i + needle@.len())[k] == hay@[i + k]);
            }
        }
        i = i + 1;
    }
    proof {
        assert forall|k: int| !(0 <= k && k + needle@.len() <= hay@.len() && #[trigger] hay@
            .subrange(k, k + needle@.len()) == needle@) by {
            if 0 <= k && k + needle@.len() <= hay@.len() {
                assert(k < i);
            }
        }
    }
    false
}

/// The index of the last occurrence of `c` in `s`, or `-1` where `c`
/// does not occur.
pub open spec fn spec_last_occurrence(s: Seq<char>, c: char) -> int
    decreases s.len(),
{
    if s.len() == 0 {
        -1
    } else if s.last() == c {
        s.len() - 1
    } else {
        spec_last_occurrence(s.drop_last(), c)
    }
}

/// Finds the last occurrence of `c` in `s`.
fn last_occurrence(s: &str, c: char) -> (r: Option<usize>)
    ensures
        match r {
            Some(i) => i == spec_last_occurrence(s@, c) && i < s@.len(),
            None => spec_last_occurrence(s@, c) == -1,
        },
{
    let n = s.unicode_len();
    let mut i: usize = n;
    proof {
        assert(s@.take(n as int) =~= s@);
    }
    while i > 0
        invariant
            i <= n,
            n == s@.len(),
            spec_last_occurrence(s@.take(i as int), c) == spec_last_occurrence(s@, c),
        decreases i,
    {
        let ch = s.get_char(i - 1);
        proof {
            assert(s@.take(i as int).last() == s@[i - 1]);
            assert(s@.take(i as int).drop_last() =~= s@.take(i as int - 1));
        }
        if ch == c {
            return Some(i - 1);
        }
        i = i - 1;
    }
    proof {
        assert(s@.take(0) =~= Seq::<char>::empty());
    }
    None
}

/// The extension a download is stored under: the part of the URL's final
/// path component after its last dot, or `bin` where the component has
/// no usable dot (none at all, or only one leading the name).
pub open spec fn spec_asset_extension(url: Seq<char>) -> Seq<char> {
    let name = url.skip(spec_last_occurrence(url, '/') + 1);
    let dot = spec_last_occurrence(name, '.');
    if dot <= 0 {
        "bin"@
    } else {
        name.skip(dot + 1)
    }
}

impl Video {
    /// Whether this video's source is from the approved host: the host
    /// name occurs in its URL. Entries from elsewhere are dropped before
    /// download.
    pub fn in_whitelist(&self) -> (r: bool)
        ensures
            r == contains_seq(self.asset_url@, whitelist_host()),
    {
        str_contains_str(self.asset_url.as_str(), "s3.amazonaws.com")
    }

    /// The file name this video's asset is stored under locally: the
    /// video's id, a dot, and the extension its URL carries.
    pub fn local_asset_name(&self) -> (r: String)
        ensures
            r@ == self.id@ + "."@ + spec_asset_extension(self.asset_url@),
    {
        let url = self.asset_url.as_str();
        let n = url.unicode_len();
        let start: usize = match last_occurrence(url, '/') {
            Some(i) => i + 1,
            None => 0,
        };
        let name = url.substring_char(start, n);
        proof {
            assert(name@ =~= url@.skip(spec_last_occurrence(url@, '/') + 1));
        }
        let m = name.unicode_len();
        let ext_known = match last_occurrence(name, '.') {
            Some(d) => {
                if d > 0 {
                    Some(name.substring_char(d + 1, m))
                } else {
                    None
                }
            },
            None => None,
        };
        let mut r = String::from_str(self.id.as_str());
        r.append(".");
        match ext_known {
            Some(ext) => {
                proof {
                    assert(ext@ =~= name@.skip(spec_last_occurrence(name@, '.') + 1));
                }
                r.append(ext);
            },
            None => {
                r.append("bin");
            },
        }
        r
    }
}

/// Sorts the videos into manifest order: ascending `asset_order`, videos
/// of equal rank staying in their fetched order.
pub fn sort_videos(videos: &mut Vec<Video>)
    ensures
        final(videos)@ == sort_by_order(old(videos)@),
{
    let ghost orig = videos@;
    let mut out: Vec<Video> = Vec::new();
    let ghost mut taken: int = 0;
    proof {
        assert(orig.take(0) =~= Seq::<Video>::empty());
    }
    while videos.len() > 0
        invariant
            0 <= taken,
            taken + videos@.len() == orig.len(),
            videos@ == orig.skip(taken),
            out@ == sort_by_order(orig.take(taken)),
            sorted_by_order(out@),
        decreases videos@.len(),
    {
        let v = videos.remove(0);
        proof {
            assert(orig.skip(taken).remove(0) =~= orig.skip(taken + 1));
            assert(v == orig[taken]);
        }
        let mut pos: usize = out.len();
        while pos > 0 && out[pos - 1].asset_order > v.asset_order
            invariant
                pos <= out@.len(),
                forall|i: int| pos <= i < out@.len() ==> out@[i].asset_order > v.asset_order,
            decreases pos,
        {
            pos = pos - 1;
        }
        proof {
            assert forall|i: int| 0 <= i < pos implies out@[i].asset_order
                <= v.asset_order by {
                assert(out@[i].asset_order <= out@[pos - 1].asset_order);
            }
            lemma_insert_by_order_at(out@, v, pos as int);
            lemma_insert_by_order_sorted(out@, v);
            assert(orig.take(taken + 1).drop_last() =~= orig.take(taken));
            assert(orig.take(taken + 1).last() == orig[taken]);
        }
        out.insert(pos, v);
        proof {
            taken = taken + 1;
        }
    }
    proof {
        assert(orig.take(orig.len() as int) =~= orig);
    }
    *videos = out;
}

} // verus!
