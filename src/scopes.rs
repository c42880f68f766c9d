//! Scope strings and scope sets.
//!
//! A scope string is space-delimited; the set of scopes it names is the set of
//! its pieces. A scope set is held as a vector without repeated entries.
use vstd::prelude::*;

verus! {

/// The views of a sequence of strings.
pub open spec fn views(v: Seq<String>) -> Seq<Seq<char>> {
    v.map_values(|s: String| s@)
}

/// The set of scopes held in a vector.
pub open spec fn scope_set(v: Seq<String>) -> Set<Seq<char>> {
    views(v).to_set()
}

/// The pieces of `s` between single spaces, as `str::split(' ')` yields them:
/// the empty string has one empty piece and two adjacent spaces enclose an
/// empty piece.
pub open spec fn split_spaces(s: Seq<char>) -> Seq<Seq<char>>
    decreases s.len(),
{
    if s.len() == 0 {
        seq![Seq::<char>::empty()]
    } else {
        let prev = split_spaces(s.drop_last());
        if s.last() == ' ' {
            prev.push(Seq::<char>::empty())
        } else {
            prev.update(prev.len() - 1, prev.last().push(s.last()))
        }
    }
}

/// The scope set named by a space-delimited scope string.
pub open spec fn scopes_of(s: Seq<char>) -> Set<Seq<char>> {
    split_spaces(s).to_set()
}

/// The scopes of `v` joined with single spaces.
pub open spec fn join_spaces(v: Seq<Seq<char>>) -> Seq<char>
    decreases v.len(),
{
    if v.len() == 0 {
        Seq::<char>::empty()
    } else if v.len() == 1 {
        v[0]
    } else {
        join_spaces(v.drop_last()) + " "@ + v.last()
    }
}

proof fn lemma_split_spaces_nonempty(s: Seq<char>)
    ensures
        split_spaces(s).len() >= 1,
    decreases s.len(),
{
    if s.len() > 0 {
        lemma_split_spaces_nonempty(s.drop_last());
    }
}

/// Whether `v` holds a scope equal to `s`.
pub fn contains_scope(v: &Vec<String>, s: &String) -> (r: bool)
    ensures
        r == views(v@).contains(s@),
{
    let mut i: usize = 0;
    while i < v.len()
        invariant
            i <= v.len(),
            forall|j: int| 0 <= j < i ==> v@[j]@ != s@,
        decreases v.len() - i,
    {
        if v[i] == *s {
            assert(views(v@)[i as int] == s@);
            return true;
        }
        i += 1;
    }
    assert forall|k: int| 0 <= k < views(v@).len() implies views(v@)[k] != s@ by {
        assert(views(v@)[k] == v@[k]@);
    }
    false
}

/// The distinct pieces of a space-delimited scope string.
pub fn parse_scopes(s: &str) -> (r: Vec<String>)
    ensures
        scope_set(r@) == scopes_of(s@),
        views(r@).no_duplicates(),
{
    let n = s.unicode_len();
    let mut pieces: Vec<String> = Vec::new();
    let mut start: usize = 0;
    let mut i: usize = 0;
    assert(s@.take(0) =~= Seq::<char>::empty());
    assert(s@.subrange(0, 0) =~= Seq::<char>::empty());
    assert(views(pieces@) =~= Seq::<Seq<char>>::empty());
    while i < n
        invariant
            n == s@.len(),
            start <= i <= n,
            split_spaces(s@.take(i as int)) == views(pieces@).push(s@.subrange(start as int, i as int)),
        decreases n - i,
    {
        let c = s.get_char(i);
        let ghost t = s@.take(i as int + 1);
        assert(t.drop_last() == s@.take(i as int));
        assert(t.last() == c);
        if c == ' ' {
            let piece = String::from_str(s.substring_char(start, i));
            let ghost before = pieces@;
            pieces.push(piece);
            assert(views(pieces@) =~= views(before).push(piece@));
            start = i + 1;
            assert(s@.subrange(start as int, start as int) =~= Seq::<char>::empty());
        } else {
            assert(s@.subrange(start as int, i as int).push(c) =~= s@.subrange(start as int, i as int + 1));
        }
        i += 1;
    }
    assert(s@.take(n as int) =~= s@);
    let last = String::from_str(s.substring_char(start, n));
    let ghost before = pieces@;
    pieces.push(last);
    assert(views(pieces@) =~= views(before).push(last@));
    dedup_scopes(&pieces)
}

/// The distinct scopes of `v`, each once.
pub fn dedup_scopes(v: &Vec<String>) -> (r: Vec<String>)
    ensures
        scope_set(r@) == scope_set(v@),
        views(r@).no_duplicates(),
{
    let mut r: Vec<String> = Vec::new();
    let mut i: usize = 0;
    while i < v.len()
        invariant
            i <= v.len(),
            views(r@).no_duplicates(),
            forall|x: Seq<char>| views(r@).contains(x) <==> views(v@.take(i as int)).contains(x),
        decreases v.len() - i,
    {
        let ghost before = r@;
        let present = contains_scope(&r, &v[i]);
        assert(views(v@.take(i as int + 1)) =~= views(v@.take(i as int)).push(v@[i as int]@));
        let ghost prefix = views(v@.take(i as int));
        if !present {
            r.push(v[i].clone());
            assert(views(r@) =~= views(before).push(v@[i as int]@));
        }
        assert forall|x: Seq<char>| views(r@).contains(x) <==> prefix.push(v@[i as int]@).contains(x) by {
            if x == v@[i as int]@ {
                assert(prefix.push(v@[i as int]@)[prefix.len() as int] == x);
                if !present {
                    assert(views(r@)[views(before).len() as int] == x);
                }
            } else {
                if views(r@).contains(x) {
                    let k = choose|k: int| 0 <= k < views(r@).len() && views(r@)[k] == x;
                    assert(views(before)[k] == x);
                    assert(views(before).contains(x));
                    assert(prefix.contains(x));
                    let j = choose|j: int| 0 <= j < prefix.len() && prefix[j] == x;
                    assert(prefix.push(v@[i as int]@)[j] == x);
                }
                if prefix.push(v@[i as int]@).contains(x) {
                    let k = choose|k: int| 0 <= k < prefix.len() + 1 && prefix.push(v@[i as int]@)[k] == x;
                    assert(prefix[k] == x);
                    assert(prefix.contains(x));
                    assert(views(before).contains(x));
                    let j = choose|j: int| 0 <= j < views(before).len() && views(before)[j] == x;
                    assert(views(r@)[j] == x);
                }
            }
        }
        i += 1;
    }
    assert(v@.take(v.len() as int) =~= v@);
    assert(scope_set(r@) =~= scope_set(v@));
    r
}

/// Whether every scope of `requested` is one of `allowed`.
pub fn is_subset(requested: &Vec<String>, allowed: &Vec<String>) -> (r: bool)
    ensures
        r == scope_set(requested@).subset_of(scope_set(allowed@)),
{
    let mut i: usize = 0;
    while i < requested.len()
        invariant
            i <= requested.len(),
            forall|j: int| 0 <= j < i ==> views(allowed@).contains(#[trigger] requested@[j]@),
        decreases requested.len() - i,
    {
        if !contains_scope(allowed, &requested[i]) {
            assert(views(requested@)[i as int] == requested@[i as int]@);
            assert(scope_set(requested@).contains(requested@[i as int]@));
            return false;
        }
        i += 1;
    }
    assert forall|x: Seq<char>| scope_set(requested@).contains(x) implies scope_set(allowed@).contains(x) by {
        let k = choose|k: int| 0 <= k < views(requested@).len() && views(requested@)[k] == x;
        assert(requested@[k]@ == x);
    }
    true
}

/// The scopes requested by an optional scope string; none when it is absent.
pub fn requested_scopes(scope: &Option<String>) -> (r: Vec<String>)
    ensures
        views(r@).no_duplicates(),
        scope_set(r@) == match scope {
            Some(s) => scopes_of(s@),
            None => Set::<Seq<char>>::empty(),
        },
{
    match scope {
        Some(s) => parse_scopes(s.as_str()),
        None => {
            let r: Vec<String> = Vec::new();
            assert(scope_set(r@) =~= Set::<Seq<char>>::empty());
            r
        },
    }
}

/// The scopes of `v` joined with single spaces.
pub fn join_scopes(v: &Vec<String>) -> (r: String)
    ensures
        r@ == join_spaces(views(v@)),
{
    if v.len() == 0 {
        return String::new();
    }
    let mut r = v[0].clone();
    let mut i: usize = 1;
    assert(views(v@.take(1)) =~= seq![v@[0]@]);
    while i < v.len()
        invariant
            1 <= i <= v.len(),
            r@ == join_spaces(views(v@.take(i as int))),
        decreases v.len() - i,
    {
        let ghost prev = views(v@.take(i as int));
        assert(views(v@.take(i as int + 1)).drop_last() =~= prev);
        r = r.concat(" ");
        r = r.concat(v[i].as_str());
        i += 1;
    }
    assert(v@.take(v.len() as int) =~= v@);
    r
}

/// Whether `a` comes no later than `b` in the lexicographic order of their
/// characters by code point, which is the order of `String`'s `Ord` (UTF-8
/// keeps the code-point order of bytes).
pub open spec fn text_le(a: Seq<char>, b: Seq<char>) -> bool
    decreases a.len(),
{
    if a.len() == 0 {
        true
    } else if b.len() == 0 {
        false
    } else if a[0] != b[0] {
        (a[0] as u32) < (b[0] as u32)
    } else {
        text_le(a.drop_first(), b.drop_first())
    }
}

/// Whether the texts are in ascending order.
pub open spec fn is_sorted(v: Seq<Seq<char>>) -> bool {
    forall|i: int, j: int| 0 <= i < j < v.len() ==> text_le(#[trigger] v[i], #[trigger] v[j])
}

/// Sorts a vector of scopes.
///
/// Relies on `slice::sort_unstable`, which reorders the elements into
/// ascending order and keeps each of them.
#[verifier::external_body]
fn sort_strings(v: &mut Vec<String>)
    ensures
        final(v)@.to_multiset() == old(v)@.to_multiset(),
        is_sorted(views(final(v)@)),
{
    v.sort_unstable();
}

/// Sorts a vector of scopes into ascending order, keeping each of them.
pub fn sort_scopes(v: &mut Vec<String>)
    ensures
        final(v)@.to_multiset() == old(v)@.to_multiset(),
        is_sorted(views(final(v)@)),
        final(v)@.len() == old(v)@.len(),
        scope_set(final(v)@) == scope_set(old(v)@),
{
    let ghost before = v@;
    sort_strings(v);
    proof {
        before.to_multiset_ensures();
        v@.to_multiset_ensures();
        assert forall|x: Seq<char>| scope_set(v@).contains(x) <==> scope_set(before).contains(x) by {
            if scope_set(v@).contains(x) {
                let k = choose|k: int| 0 <= k < views(v@).len() && views(v@)[k] == x;
                assert(v@.contains(v@[k]));
                assert(v@.to_multiset().count(v@[k]) > 0);
                assert(before.to_multiset().count(v@[k]) > 0);
                assert(before.contains(v@[k]));
                let j = choose|j: int| 0 <= j < before.len() && before[j] == v@[k];
                assert(views(before)[j] == x);
            }
            if scope_set(before).contains(x) {
                let k = choose|k: int| 0 <= k < views(before).len() && views(before)[k] == x;
                assert(before.contains(before[k]));
                assert(before.to_multiset().count(before[k]) > 0);
                assert(v@.to_multiset().count(before[k]) > 0);
                assert(v@.contains(before[k]));
                let j = choose|j: int| 0 <= j < v@.len() && v@[j] == before[k];
                assert(views(v@)[j] == x);
            }
        }
        assert(scope_set(v@) =~= scope_set(before));
    }
}

} // verus!
