//! Finding and removing records by their identifier.
use vstd::prelude::*;

use crate::models::{Project, Session, Task};
use crate::text::str_eq;

verus! {

/// A record that carries a textual identifier.
pub trait Identified {
    spec fn id_view(&self) -> Seq<char>;

    fn id_str(&self) -> (r: &str)
        ensures
            r@ == self.id_view(),
    ;
}

impl Identified for Project {
    open spec fn id_view(&self) -> Seq<char> {
        self.id@
    }

    fn id_str(&self) -> (r: &str) {
        self.id.as_str()
    }
}

impl Identified for Session {
    open spec fn id_view(&self) -> Seq<char> {
        self.id@
    }

    fn id_str(&self) -> (r: &str) {
        self.id.as_str()
    }
}

impl Identified for Task {
    open spec fn id_view(&self) -> Seq<char> {
        self.id@
    }

    fn id_str(&self) -> (r: &str) {
        self.id.as_str()
    }
}

/// The first index `j >= i` whose record has the identifier `id`, or -1.
pub open spec fn index_from<T: Identified>(s: Seq<T>, id: Seq<char>, i: int) -> int
    decreases s.len() - i,
{
    if i < 0 || i >= s.len() {
        -1
    } else if s[i].id_view() == id {
        i
    } else {
        index_from(s, id, i + 1)
    }
}

/// The index of the first record with the identifier `id`, or -1 when none
/// has it.
pub open spec fn index_of<T: Identified>(s: Seq<T>, id: Seq<char>) -> int {
    index_from(s, id, 0)
}

/// Keeps the records whose identifier is not `id`.
pub open spec fn id_differs<T: Identified>(id: Seq<char>) -> spec_fn(T) -> bool {
    |x: T| x.id_view() != id
}

/// `index_from` is -1 or an index at or after `i` holding `id`, with no
/// earlier such index from `i` on.
pub proof fn lemma_index_from<T: Identified>(s: Seq<T>, id: Seq<char>, i: int)
    requires
        0 <= i,
    ensures
        index_from(s, id, i) == -1 || (i <= index_from(s, id, i) < s.len() && s[index_from(
            s,
            id,
            i,
        )].id_view() == id),
        index_from(s, id, i) == -1 ==> forall|j: int|
            i <= j < s.len() ==> (#[trigger] s[j]).id_view() != id,
        index_from(s, id, i) != -1 ==> forall|j: int|
            i <= j < index_from(s, id, i) ==> (#[trigger] s[j]).id_view() != id,
    decreases s.len() - i,
{
    if i < s.len() && s[i].id_view() != id {
        lemma_index_from(s, id, i + 1);
    }
}

/// The first index of a record is the one found by `index_of`.
pub proof fn lemma_index_of<T: Identified>(s: Seq<T>, id: Seq<char>)
    ensures
        index_of(s, id) == -1 || (0 <= index_of(s, id) < s.len() && s[index_of(
            s,
            id,
        )].id_view() == id),
        index_of(s, id) == -1 <==> forall|j: int| 0 <= j < s.len() ==> (#[trigger] s[j]).id_view() != id,
        index_of(s, id) != -1 ==> forall|j: int|
            0 <= j < index_of(s, id) ==> (#[trigger] s[j]).id_view() != id,
{
    lemma_index_from(s, id, 0);
}

/// The first index `j >= i` whose element satisfies `f`, or -1.
pub open spec fn first_where_from<T>(s: Seq<T>, f: spec_fn(T) -> bool, i: int) -> int
    decreases s.len() - i,
{
    if i < 0 || i >= s.len() {
        -1
    } else if f(s[i]) {
        i
    } else {
        first_where_from(s, f, i + 1)
    }
}

/// The index of the first element that satisfies `f`, or -1 when none does.
pub open spec fn first_where<T>(s: Seq<T>, f: spec_fn(T) -> bool) -> int {
    first_where_from(s, f, 0)
}

proof fn lemma_first_where_from<T>(s: Seq<T>, f: spec_fn(T) -> bool, i: int)
    requires
        0 <= i,
    ensures
        first_where_from(s, f, i) == -1 || (i <= first_where_from(s, f, i) < s.len() && f(
            s[first_where_from(s, f, i)],
        )),
        first_where_from(s, f, i) == -1 ==> forall|j: int| i <= j < s.len() ==> !f(#[trigger] s[j]),
        first_where_from(s, f, i) != -1 ==> forall|j: int|
            i <= j < first_where_from(s, f, i) ==> !f(#[trigger] s[j]),
    decreases s.len() - i,
{
    if i < s.len() && !f(s[i]) {
        lemma_first_where_from(s, f, i + 1);
    }
}

/// `first_where` is -1 exactly when no element satisfies `f`, and otherwise
/// the smallest index of one that does.
pub proof fn lemma_first_where<T>(s: Seq<T>, f: spec_fn(T) -> bool)
    ensures
        first_where(s, f) == -1 || (0 <= first_where(s, f) < s.len() && f(s[first_where(s, f)])),
        first_where(s, f) == -1 <==> forall|j: int| 0 <= j < s.len() ==> !f(#[trigger] s[j]),
        first_where(s, f) != -1 ==> forall|j: int| 0 <= j < first_where(s, f) ==> !f(#[trigger] s[j]),
{
    lemma_first_where_from(s, f, 0);
}

/// The position of the first record with identifier `id`.
pub fn find_index<T: Identified>(v: &Vec<T>, id: &str) -> (r: Option<usize>)
    ensures
        r matches Some(i) ==> i as int == index_of(v@, id@) && i < v@.len(),
        r is None <==> index_of(v@, id@) == -1,
{
    let n = v.len();
    let mut i: usize = 0;
    proof {
        lemma_index_of(v@, id@);
    }
    while i < n
        invariant
            i <= n,
            n == v@.len(),
            index_of(v@, id@) == index_from(v@, id@, i as int),
        decreases n - i,
    {
        if str_eq(v[i].id_str(), id) {
            return Some(i);
        }
        i = i + 1;
    }
    None
}

/// Whether some record has the identifier `id`.
pub fn contains_id<T: Identified>(v: &Vec<T>, id: &str) -> (r: bool)
    ensures
        r == (index_of(v@, id@) != -1),
        r == exists|j: int| 0 <= j < v@.len() && (#[trigger] v@[j]).id_view() == id@,
{
    proof {
        lemma_index_of(v@, id@);
    }
    let found = find_index(v, id);
    found.is_some()
}

/// Removes every record with the identifier `id`, keeping the others in order.
pub fn remove_with_id<T: Identified>(v: &mut Vec<T>, id: &str)
    ensures
        final(v)@ == old(v)@.filter(id_differs::<T>(id@)),
{
    let mut rest: Vec<T> = Vec::new();
    std::mem::swap(&mut rest, v);
    let ghost orig = rest@;
    let n = rest.len();
    let mut k: usize = 0;
    proof {
        reveal(Seq::filter);
        assert(orig.take(0) =~= Seq::<T>::empty());
        assert(orig.skip(0) =~= orig);
    }
    while k < n
        invariant
            k <= n,
            n == orig.len(),
            v@ == orig.take(k as int).filter(id_differs::<T>(id@)),
            rest@ == orig.skip(k as int),
        decreases n - k,
    {
        let x = rest.remove(0);
        let keep = !str_eq(x.id_str(), id);
        proof {
            assert(x == orig[k as int]);
            assert(orig.take(k + 1).drop_last() =~= orig.take(k as int));
            assert(orig.take(k + 1).last() == orig[k as int]);
            reveal_with_fuel(Seq::filter, 1);
            assert(rest@ =~= orig.skip(k + 1));
        }
        if keep {
            v.push(x);
        }
        k = k + 1;
    }
    proof {
        assert(orig.take(n as int) =~= orig);
    }
}

} // verus!
