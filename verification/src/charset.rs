//! Character Set Resolver: turns a caller-supplied character selection into a
//! canonical, deduplicated, ascending list of Unicode code points.

use vstd::prelude::*;

verus! {

/// One entry of a character selection: an explicit string of characters, or a
/// named predefined set.
#[derive(Debug, PartialEq, Eq)]
pub enum CharacterSet {
    /// Each character of the string contributes its Unicode scalar value.
    Literal(String),
    /// The decimal digits '0'..='9'.
    Numbers,
    /// The lowercase letters 'a'..='z'.
    LowerCase,
    /// The uppercase letters 'A'..='Z'.
    UpperCase,
    /// The fixed punctuation characters `. , ' " ? ! : ; ( ) -`.
    Punctuation,
}

/// The code points of the fixed punctuation set `. , ' " ? ! : ; ( ) -`.
pub open spec fn is_punctuation_point(p: u32) -> bool {
    ||| p == 46
    ||| p == 44
    ||| p == 39
    ||| p == 34
    ||| p == 63
    ||| p == 33
    ||| p == 58
    ||| p == 59
    ||| p == 40
    ||| p == 41
    ||| p == 45
}

/// The set of code points one selection entry stands for.
pub open spec fn char_set_points(cs: CharacterSet) -> Set<u32> {
    match cs {
        CharacterSet::Literal(s) => Set::new(
            |p: u32| exists|i: int| 0 <= i < s@.len() && s@[i] as u32 == p,
        ),
        CharacterSet::Numbers => Set::new(|p: u32| 48 <= p <= 57),
        CharacterSet::LowerCase => Set::new(|p: u32| 97 <= p <= 122),
        CharacterSet::UpperCase => Set::new(|p: u32| 65 <= p <= 90),
        CharacterSet::Punctuation => Set::new(|p: u32| is_punctuation_point(p)),
    }
}

/// The union of the code points of all entries of a selection.
pub open spec fn selection_points(specs: Seq<CharacterSet>) -> Set<u32>
    decreases specs.len(),
{
    if specs.len() == 0 {
        Set::<u32>::empty()
    } else {
        selection_points(specs.drop_last()).union(char_set_points(specs.last()))
    }
}

/// A sequence of code points in strictly increasing order (hence without
/// duplicates).
pub open spec fn strictly_ascending(s: Seq<u32>) -> bool {
    forall|i: int, j: int| 0 <= i < j < s.len() ==> s[i] < s[j]
}

/// Concatenating two selections resolves to the union of what each resolves
/// to on its own.
pub proof fn lemma_selection_points_concat(a: Seq<CharacterSet>, b: Seq<CharacterSet>)
    ensures
        selection_points(a + b) == selection_points(a).union(selection_points(b)),
    decreases b.len(),
{
    if b.len() == 0 {
        assert(a + b =~= a);
        assert(selection_points(a).union(selection_points(b)) =~= selection_points(a));
    } else {
        lemma_selection_points_concat(a, b.drop_last());
        assert((a + b).drop_last() =~= a + b.drop_last());
        assert((a + b).last() == b.last());
        assert(selection_points(a + b) =~= selection_points(a).union(selection_points(b)));
    }
}

/// Union law: the order of the entries of a selection does not affect the
/// resolved set of code points.
pub proof fn lemma_selection_union_law(a: Seq<CharacterSet>, b: Seq<CharacterSet>)
    ensures
        selection_points(a + b) == selection_points(b + a),
{
    lemma_selection_points_concat(a, b);
    lemma_selection_points_concat(b, a);
    assert(selection_points(a).union(selection_points(b)) =~= selection_points(b).union(
        selection_points(a),
    ));
}

/// A strictly ascending sequence holds no value twice.
pub proof fn lemma_ascending_no_repeats(s: Seq<u32>)
    requires
        strictly_ascending(s),
    ensures
        forall|i: int, j: int|
            0 <= i < s.len() && 0 <= j < s.len() && i != j ==> s[i] != s[j],
{
    assert forall|i: int, j: int|
        0 <= i < s.len() && 0 <= j < s.len() && i != j implies s[i] != s[j] by {
        if i < j {
            assert(s[i] < s[j]);
        } else {
            assert(s[j] < s[i]);
        }
    }
}

/// Two strictly ascending sequences over the same set of code points are the
/// same sequence: the canonical form of a resolved selection is unique, so a
/// fixed request always resolves to the same code-point list.
pub proof fn lemma_ascending_unique(a: Seq<u32>, b: Seq<u32>)
    requires
        strictly_ascending(a),
        strictly_ascending(b),
        a.to_set() == b.to_set(),
    ensures
        a == b,
    decreases a.len(),
{
    if a.len() == 0 {
        if b.len() > 0 {
            assert(b.to_set().contains(b[0]));
            assert(a.to_set().contains(b[0]));
            assert(false);
        }
        assert(a =~= b);
    } else {
        assert(a.to_set().contains(a[0]));
        assert(b.to_set().contains(a[0]));
        let ka = choose|k: int| 0 <= k < b.len() && b[k] == a[0];
        assert(b.to_set().contains(b[0]));
        assert(a.to_set().contains(b[0]));
        let kb = choose|k: int| 0 <= k < a.len() && a[k] == b[0];
        assert(b[0] <= b[ka]);
        assert(a[0] <= a[kb]);
        assert(a[0] == b[0]);
        let at = a.drop_first();
        let bt = b.drop_first();
        assert(strictly_ascending(at)) by {
            assert forall|i: int, j: int| 0 <= i < j < at.len() implies at[i] < at[j] by {
                assert(at[i] == a[i + 1] && at[j] == a[j + 1]);
            }
        }
        assert(strictly_ascending(bt)) by {
            assert forall|i: int, j: int| 0 <= i < j < bt.len() implies bt[i] < bt[j] by {
                assert(bt[i] == b[i + 1] && bt[j] == b[j + 1]);
            }
        }
        assert(at.to_set() =~= bt.to_set()) by {
            assert forall|q: u32| at.to_set().contains(q) implies bt.to_set().contains(q) by {
                let k = choose|k: int| 0 <= k < at.len() && at[k] == q;
                assert(a[k + 1] == q);
                assert(a.to_set().contains(q));
                assert(b.to_set().contains(q));
                let m = choose|m: int| 0 <= m < b.len() && b[m] == q;
                assert(q > a[0]);
                assert(m != 0);
                assert(bt[m - 1] == q);
            }
            assert forall|q: u32| bt.to_set().contains(q) implies at.to_set().contains(q) by {
                let k = choose|k: int| 0 <= k < bt.len() && bt[k] == q;
                assert(b[k + 1] == q);
                assert(b.to_set().contains(q));
                assert(a.to_set().contains(q));
                let m = choose|m: int| 0 <= m < a.len() && a[m] == q;
                assert(q > b[0]);
                assert(m != 0);
                assert(at[m - 1] == q);
            }
        }
        lemma_ascending_unique(at, bt);
        assert(a =~= b) by {
            assert(at.len() == bt.len());
            assert forall|i: int| 0 <= i < a.len() implies a[i] == b[i] by {
                if i > 0 {
                    assert(at[i - 1] == bt[i - 1]);
                }
            }
        }
    }
}

/// Inserts `p` into a strictly ascending vector, keeping it strictly
/// ascending; a point already present is not duplicated.
fn insert_point(v: &mut Vec<u32>, p: u32)
    requires
        strictly_ascending(old(v)@),
    ensures
        strictly_ascending(final(v)@),
        final(v)@.to_set() == old(v)@.to_set().insert(p),
{
    let mut i: usize = 0;
    while i < v.len() && v[i] < p
        invariant
            strictly_ascending(v@),
            v@ == old(v)@,
            i <= v@.len(),
            forall|k: int| 0 <= k < i ==> v@[k] < p,
        decreases v@.len() - i,
    {
        i += 1;
    }
    if i < v.len() && v[i] == p {
        proof {
            assert(old(v)@.to_set().contains(p)) by {
                assert(old(v)@[i as int] == p);
            }
            assert(v@.to_set() =~= old(v)@.to_set().insert(p));
        }
        return ;
    }
    v.insert(i, p);
    proof {
        let s = old(v)@;
        assert forall|a: int, b: int| 0 <= a < b < v@.len() implies v@[a] < v@[b] by {
            if b < i {
                assert(v@[a] == s[a] && v@[b] == s[b]);
            } else if a < i && b == i {
                assert(v@[a] == s[a] && v@[b] == p);
            } else if a < i && b > i {
                assert(v@[a] == s[a] && v@[b] == s[b - 1]);
                assert(s[b - 1] >= p);
            } else if a == i {
                assert(v@[a] == p && v@[b] == s[b - 1]);
                assert(i <= b - 1 < s.len());
                if i < s.len() {
                    assert(s[i as int] != p && s[i as int] >= p);
                    if b - 1 > i {
                        assert(s[i as int] < s[b - 1]);
                    }
                }
            } else {
                assert(v@[a] == s[a - 1] && v@[b] == s[b - 1]);
            }
        }
        assert forall|q: u32| v@.to_set().contains(q) <==> s.to_set().insert(p).contains(q) by {
            if v@.to_set().contains(q) {
                let k = choose|k: int| 0 <= k < v@.len() && v@[k] == q;
                if k < i {
                    assert(s[k] == q);
                } else if k == i {
                } else {
                    assert(s[k - 1] == q);
                }
            }
            if s.to_set().contains(q) {
                let k = choose|k: int| 0 <= k < s.len() && s[k] == q;
                if k < i {
                    assert(v@[k] == q);
                } else {
                    assert(v@[k + 1] == q);
                }
            }
            if q == p {
                assert(v@[i as int] == q);
            }
        }
        assert(v@.to_set() =~= s.to_set().insert(p));
    }
}

/// Inserts every code point of the inclusive range `lo..=hi`.
fn insert_range(v: &mut Vec<u32>, lo: u32, hi: u32)
    requires
        strictly_ascending(old(v)@),
        lo <= hi,
        hi < 0x110000,
    ensures
        strictly_ascending(final(v)@),
        final(v)@.to_set() == old(v)@.to_set().union(Set::new(|q: u32| lo <= q <= hi)),
{
    let mut p: u32 = lo;
    while p <= hi
        invariant
            strictly_ascending(v@),
            hi < 0x110000,
            lo <= p <= hi + 1,
            v@.to_set() == old(v)@.to_set().union(Set::new(|q: u32| lo <= q < p)),
        decreases hi + 1 - p,
    {
        insert_point(v, p);
        proof {
            assert(v@.to_set() =~= old(v)@.to_set().union(Set::new(|q: u32| lo <= q < p + 1)));
        }
        p += 1;
    }
    proof {
        assert(v@.to_set() =~= old(v)@.to_set().union(Set::new(|q: u32| lo <= q <= hi)));
    }
}

/// Inserts the code point of every character of `s`.
fn insert_literal(v: &mut Vec<u32>, s: &str)
    requires
        strictly_ascending(old(v)@),
    ensures
        strictly_ascending(final(v)@),
        final(v)@.to_set() == old(v)@.to_set().union(
            Set::new(|p: u32| exists|i: int| 0 <= i < s@.len() && s@[i] as u32 == p),
        ),
{
    let n = s.unicode_len();
    let mut i: usize = 0;
    while i < n
        invariant
            n == s@.len(),
            i <= n,
            strictly_ascending(v@),
            v@.to_set() == old(v)@.to_set().union(
                Set::new(|p: u32| exists|j: int| 0 <= j < i && s@[j] as u32 == p),
            ),
        decreases n - i,
    {
        let c = s.get_char(i);
        insert_point(v, c as u32);
        proof {
            let before = old(v)@.to_set().union(
                Set::new(|p: u32| exists|j: int| 0 <= j < i && s@[j] as u32 == p),
            );
            let after = old(v)@.to_set().union(
                Set::new(|p: u32| exists|j: int| 0 <= j < i + 1 && s@[j] as u32 == p),
            );
            assert forall|p: u32| after.contains(p) implies before.insert(c as u32).contains(
                p,
            ) by {
                if !old(v)@.to_set().contains(p) {
                    let j = choose|j: int| 0 <= j < i + 1 && s@[j] as u32 == p;
                    if j == i {
                        assert(p == c as u32);
                    } else {
                        assert(exists|j: int| 0 <= j < i && s@[j] as u32 == p);
                    }
                }
            }
            assert forall|p: u32| before.insert(c as u32).contains(p) implies after.contains(
                p,
            ) by {
                if p == c as u32 {
                    assert(s@[i as int] as u32 == p);
                } else if !old(v)@.to_set().contains(p) {
                    let j = choose|j: int| 0 <= j < i && s@[j] as u32 == p;
                    assert(0 <= j < i + 1 && s@[j] as u32 == p);
                }
            }
            assert(v@.to_set() =~= after);
        }
        i += 1;
    }
    proof {
        assert(v@.to_set() =~= old(v)@.to_set().union(
            Set::new(|p: u32| exists|j: int| 0 <= j < s@.len() && s@[j] as u32 == p),
        ));
    }
}

/// Resolves a character selection to the canonical code-point list: the union
/// of all entries, strictly ascending and deduplicated.
pub fn specs_to_unicode_code_points(specs: &[CharacterSet]) -> (r: Vec<u32>)
    ensures
        strictly_ascending(r@),
        r@.to_set() == selection_points(specs@),
{
    let mut v: Vec<u32> = Vec::new();
    let n = specs.len();
    let mut k: usize = 0;
    proof {
        assert(v@.to_set() =~= selection_points(specs@.take(0)));
    }
    while k < n
        invariant
            n == specs@.len(),
            k <= n,
            strictly_ascending(v@),
            v@.to_set() == selection_points(specs@.take(k as int)),
        decreases n - k,
    {
        let ghost prev = v@.to_set();
        match &specs[k] {
            CharacterSet::Literal(s) => {
                insert_literal(&mut v, s.as_str());
            },
            CharacterSet::Numbers => {
                insert_range(&mut v, 48, 57);
            },
            CharacterSet::LowerCase => {
                insert_range(&mut v, 97, 122);
            },
            CharacterSet::UpperCase => {
                insert_range(&mut v, 65, 90);
            },
            CharacterSet::Punctuation => {
                insert_point(&mut v, 46);
                insert_point(&mut v, 44);
                insert_point(&mut v, 39);
                insert_point(&mut v, 34);
                insert_point(&mut v, 63);
                insert_point(&mut v, 33);
                insert_point(&mut v, 58);
                insert_point(&mut v, 59);
                insert_point(&mut v, 40);
                insert_point(&mut v, 41);
                insert_point(&mut v, 45);
                proof {
                    assert(v@.to_set() =~= prev.union(char_set_points(specs@[k as int])));
                }
            },
        }
        proof {
            assert(v@.to_set() =~= prev.union(char_set_points(specs@[k as int])));
            assert(specs@.take(k + 1).drop_last() =~= specs@.take(k as int));
            assert(specs@.take(k + 1).last() == specs@[k as int]);
            assert(v@.to_set() =~= selection_points(specs@.take(k + 1)));
        }
        k += 1;
    }
    proof {
        assert(specs@.take(n as int) =~= specs@);
    }
    v
}

} // verus!
