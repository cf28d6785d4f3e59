//! The sorted set of report keys, for chronological navigation.
use vstd::prelude::*;
use vstd::string::{StrSliceExecFns, StringExecFns};

verus! {

/// The first `i` characters of two texts agree.
pub open spec fn agree_upto(a: Seq<char>, b: Seq<char>, i: int) -> bool {
    forall|j: int| 0 <= j < i ==> a[j] == b[j]
}

/// `i` is where `a` and `b` first differ, and `a` is the smaller there.
pub open spec fn smaller_at(a: Seq<char>, b: Seq<char>, i: int) -> bool {
    &&& 0 <= i <= a.len()
    &&& i < b.len()
    &&& agree_upto(a, b, i)
    &&& (i == a.len() || a[i] < b[i])
}

/// Lexicographic order of texts: `a` comes strictly before `b`.
pub open spec fn text_lt(a: Seq<char>, b: Seq<char>) -> bool {
    exists|i: int| smaller_at(a, b, i)
}

/// Where two texts agree up to `i` and end or differ there, their order is
/// decided at `i`.
pub proof fn lemma_lt_at(a: Seq<char>, b: Seq<char>, i: int)
    requires
        0 <= i <= a.len(),
        i <= b.len(),
        agree_upto(a, b, i),
        i == a.len() || i == b.len() || a[i] != b[i],
    ensures
        text_lt(a, b) <==> (i < b.len() && (i == a.len() || a[i] < b[i])),
{
    if text_lt(a, b) {
        let k = choose|k: int| smaller_at(a, b, k);
        if k < i {
            assert(a[k] == b[k]);
        } else if k > i {
            assert(a[i] == b[i]);
        }
    }
    if i < b.len() && (i == a.len() || a[i] < b[i]) {
        assert(smaller_at(a, b, i));
    }
}

pub proof fn lemma_lt_transitive(a: Seq<char>, b: Seq<char>, c: Seq<char>)
    requires
        text_lt(a, b),
        text_lt(b, c),
    ensures
        text_lt(a, c),
{
    let i = choose|i: int| smaller_at(a, b, i);
    let j = choose|j: int| smaller_at(b, c, j);
    if i < j {
        assert(b[i] == c[i]);
        assert(smaller_at(a, c, i));
    } else if j < i {
        assert(a[j] == b[j]);
        assert(smaller_at(a, c, j));
    } else {
        assert(smaller_at(a, c, i));
    }
}

/// Compares two texts: negative, zero or positive as `a` comes before, equals
/// or comes after `b`.
pub fn compare_text(a: &str, b: &str) -> (r: i8)
    ensures
        r < 0 <==> text_lt(a@, b@),
        r == 0 <==> a@ == b@,
        r > 0 <==> text_lt(b@, a@),
{
    let n = a.unicode_len();
    let m = b.unicode_len();
    let mut i: usize = 0;
    while i < n && i < m
        invariant
            n == a@.len(),
            m == b@.len(),
            i <= n,
            i <= m,
            agree_upto(a@, b@, i as int),
        decreases n - i,
    {
        let x = a.get_char(i);
        let y = b.get_char(i);
        if x != y {
            proof {
                lemma_lt_at(a@, b@, i as int);
                lemma_lt_at(b@, a@, i as int);
            }
            if x < y {
                return -1;
            } else {
                return 1;
            }
        }
        i += 1;
    }
    proof {
        lemma_lt_at(a@, b@, i as int);
        lemma_lt_at(b@, a@, i as int);
        if n == m {
            assert(a@ =~= b@);
        }
    }
    if n == m {
        0
    } else if n < m {
        -1
    } else {
        1
    }
}

/// Strictly increasing texts.
pub open spec fn strictly_sorted(s: Seq<Seq<char>>) -> bool {
    forall|i: int, j: int| 0 <= i < j < s.len() ==> text_lt(#[trigger] s[i], #[trigger] s[j])
}

pub open spec fn string_views(v: Seq<String>) -> Seq<Seq<char>> {
    Seq::new(v.len(), |i: int| v[i]@)
}

pub open spec fn str_views<'a>(v: Seq<&'a str>) -> Seq<Seq<char>> {
    Seq::new(v.len(), |i: int| v[i]@)
}

/// Where a text stands in a sequence: the index holding it, or the first index
/// past every smaller text.
pub fn search(keys: &Vec<String>, key: &str) -> (r: (bool, usize))
    requires
        strictly_sorted(string_views(keys@)),
    ensures
        r.1 <= keys@.len(),
        r.0 ==> r.1 < keys@.len() && keys@[r.1 as int]@ == key@,
        !r.0 ==> (forall|i: int| 0 <= i < r.1 ==> text_lt(keys@[i]@, key@)),
        !r.0 ==> (forall|i: int| r.1 <= i < keys@.len() ==> text_lt(key@, keys@[i]@)),
{
    let ghost v = string_views(keys@);
    let mut lo: usize = 0;
    let mut hi: usize = keys.len();
    while lo < hi
        invariant
            v == string_views(keys@),
            strictly_sorted(v),
            lo <= hi <= keys@.len(),
            forall|i: int| 0 <= i < lo ==> text_lt(keys@[i]@, key@),
            forall|i: int| hi <= i < keys@.len() ==> text_lt(key@, keys@[i]@),
        decreases hi - lo,
    {
        let mid = lo + (hi - lo) / 2;
        let c = compare_text(keys[mid].as_str(), key);
        if c == 0 {
            return (true, mid);
        } else if c < 0 {
            proof {
                assert forall|i: int| 0 <= i <= mid implies text_lt(keys@[i]@, key@) by {
                    if i < mid {
                        assert(text_lt(v[i], v[mid as int]));
                        lemma_lt_transitive(keys@[i]@, keys@[mid as int]@, key@);
                    }
                }
            }
            lo = mid + 1;
        } else {
            proof {
                assert forall|i: int| mid <= i < keys@.len() implies text_lt(key@, keys@[i]@) by {
                    if i > mid {
                        assert(text_lt(v[mid as int], v[i]));
                        lemma_lt_transitive(key@, keys@[mid as int]@, keys@[i]@);
                    }
                }
            }
            hi = mid;
        }
    }
    (false, lo)
}

/// The index at which a text stands, if it does.
pub open spec fn position_in(s: Seq<Seq<char>>, key: Seq<char>) -> Option<int> {
    if exists|i: int| 0 <= i < s.len() && s[i] == key {
        Some(choose|i: int| 0 <= i < s.len() && s[i] == key)
    } else {
        None
    }
}

pub open spec fn opt_text(o: Option<String>) -> Option<Seq<char>> {
    match o {
        Some(s) => Some(s@),
        None => None,
    }
}

/// Text returned by `most_recent` for an index without keys.
pub open spec fn empty_index_text() -> Seq<char> {
    "error empty index"@
}

/// Report keys, unique and sorted, and when the set was built (seconds since
/// the Unix epoch).
#[derive(Clone, Debug)]
pub struct Index {
    pub keys: Vec<String>,
    pub updated: i64,
}

/// Relies on chrono's `Utc::now`: the current time in whole seconds since the
/// Unix epoch. Nothing is known of its value.
#[verifier::external_body]
fn now_seconds() -> (r: i64) {
    chrono::Utc::now().timestamp()
}

impl Index {
    pub open spec fn view(&self) -> Seq<Seq<char>> {
        string_views(self.keys@)
    }

    pub open spec fn wf(&self) -> bool {
        strictly_sorted(self.view())
    }

    /// Builds the index of the given keys, stamped with the current time.
    pub fn from(keys: &[&str]) -> (r: Index)
        ensures
            r.wf(),
            forall|x: Seq<char>| #[trigger] r.view().contains(x) <==> str_views(keys@).contains(x),
    {
        Index::build_at(keys, now_seconds())
    }

    /// Builds the index of the given keys, stamped with `updated`.
    pub fn build_at(keys: &[&str], updated: i64) -> (r: Index)
        ensures
            r.wf(),
            r.updated == updated,
            forall|x: Seq<char>| #[trigger] r.view().contains(x) <==> str_views(keys@).contains(x),
    {
        let ghost input = str_views(keys@);
        let mut v: Vec<String> = Vec::new();
        let mut i: usize = 0;
        while i < keys.len()
            invariant
                i <= keys@.len(),
                input == str_views(keys@),
                strictly_sorted(string_views(v@)),
                forall|x: Seq<char>|
                    #[trigger] string_views(v@).contains(x) <==> input.take(i as int).contains(x),
            decreases keys@.len() - i,
        {
            let k = keys[i];
            let (found, pos) = search(&v, k);
            let ghost old_v = string_views(v@);
            if !found {
                v.insert(pos, String::from_str(k));
                proof {
                    let nv = string_views(v@);
                    assert(nv =~= old_v.insert(pos as int, k@));
                    old_v.insert_ensures(pos as int, k@);
                    assert forall|a: int, b: int| 0 <= a < b < nv.len() implies text_lt(
                        #[trigger] nv[a],
                        #[trigger] nv[b],
                    ) by {
                        if b < pos {
                        } else if a < pos && b == pos {
                        } else if a < pos && b > pos {
                            assert(nv[b] == old_v[b - 1]);
                        } else if a == pos {
                            assert(nv[b] == old_v[b - 1]);
                        } else {
                            assert(nv[a] == old_v[a - 1]);
                            assert(nv[b] == old_v[b - 1]);
                        }
                    }
                    assert forall|x: Seq<char>| #[trigger] nv.contains(x) <==> (old_v.contains(x)
                        || x == k@) by {
                        if nv.contains(x) {
                            let j = choose|j: int| 0 <= j < nv.len() && nv[j] == x;
                            if j < pos {
                                assert(old_v[j] == x);
                            } else if j > pos {
                                assert(old_v[j - 1] == x);
                            }
                        }
                        if old_v.contains(x) {
                            let j = choose|j: int| 0 <= j < old_v.len() && old_v[j] == x;
                            if j < pos {
                                assert(nv[j] == x);
                            } else {
                                assert(nv[j + 1] == x);
                            }
                        }
                        if x == k@ {
                            assert(nv[pos as int] == x);
                        }
                    }
                }
            } else {
                proof {
                    assert(old_v[pos as int] == k@);
                }
            }
            proof {
                assert(input.take(i + 1) =~= input.take(i as int).push(k@));
                assert forall|x: Seq<char>| #[trigger] input.take(i + 1).contains(x) <==> (
                input.take(i as int).contains(x) || x == k@) by {
                    vstd::seq_lib::lemma_seq_contains_after_push(input.take(i as int), k@, x);
                }
            }
            i += 1;
        }
        proof {
            assert(input.take(keys@.len() as int) =~= input);
        }
        Index { keys: v, updated }
    }

    /// The last key, or a fixed error text for an index without keys.
    pub fn most_recent(&self) -> (r: String)
        ensures
            r@ == if self.view().len() == 0 {
                empty_index_text()
            } else {
                self.view().last()
            },
    {
        let n = self.keys.len();
        if n == 0 {
            String::from_str("error empty index")
        } else {
            self.keys[n - 1].clone()
        }
    }

    /// The key after `key`; `None` for the last key or one not in the index.
    pub fn next(&self, key: String) -> (r: Option<String>)
        requires
            self.wf(),
        ensures
            opt_text(r) == match position_in(self.view(), key@) {
                Some(i) => if i + 1 < self.view().len() {
                    Some(self.view()[i + 1])
                } else {
                    None
                },
                None => None,
            },
    {
        match self.idx(key) {
            Some(i) => if self.keys.len() - i > 1 {
                Some(self.keys[i + 1].clone())
            } else {
                None
            },
            None => None,
        }
    }

    /// The key before `key`; `None` for the first key or one not in the index.
    pub fn prev(&self, key: String) -> (r: Option<String>)
        requires
            self.wf(),
        ensures
            opt_text(r) == match position_in(self.view(), key@) {
                Some(i) => if i > 0 {
                    Some(self.view()[i - 1])
                } else {
                    None
                },
                None => None,
            },
    {
        match self.idx(key) {
            Some(i) => if i > 0 {
                Some(self.keys[i - 1].clone())
            } else {
                None
            },
            None => None,
        }
    }

    /// The last valid position.
    pub fn max_idx(&self) -> (r: usize)
        requires
            self.view().len() > 0,
        ensures
            r == self.view().len() - 1,
    {
        self.keys.len() - 1
    }

    /// The key at a position, if the position is valid.
    pub fn get(&self, idx: usize) -> (r: Option<String>)
        ensures
            opt_text(r) == if idx < self.view().len() {
                Some(self.view()[idx as int])
            } else {
                None
            },
    {
        if idx < self.keys.len() {
            Some(self.keys[idx].clone())
        } else {
            None
        }
    }

    /// The position of a key, if it is in the index.
    pub fn idx(&self, key: String) -> (r: Option<usize>)
        requires
            self.wf(),
        ensures
            r matches Some(i) ==> i < self.view().len() && position_in(self.view(), key@) == Some(
                i as int,
            ),
            r is None ==> position_in(self.view(), key@) is None,
    {
        let (found, pos) = search(&self.keys, key.as_str());
        proof {
            let v = self.view();
            if found {
                assert(v[pos as int] == key@);
                let c = choose|i: int| 0 <= i < v.len() && v[i] == key@;
                if c < pos {
                    assert(text_lt(v[c], v[pos as int]));
                } else if c > pos {
                    assert(text_lt(v[pos as int], v[c]));
                }
            } else {
                assert forall|i: int| 0 <= i < v.len() implies v[i] != key@ by {
                    if i < pos {
                        assert(text_lt(v[i], key@));
                    } else {
                        assert(text_lt(key@, v[i]));
                    }
                }
            }
        }
        if found {
            Some(pos)
        } else {
            None
        }
    }
}

} // verus!
