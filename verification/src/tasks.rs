use core::cmp::Ordering;
use vstd::prelude::*;
use vstd::multiset::Multiset;
use vstd::seq_lib::lemma_multiset_commutative;

use crate::order::{lemma_lex_eq, lemma_lex_flip, lemma_lex_trans, lex_cmp, spec_lex_cmp, spec_then};
use crate::schedule::{TaskDue, TaskDuration};

verus! {

broadcast use vstd::seq_lib::group_to_multiset_ensures;

/// A task as the task source hands it over: a stable identity, a
/// priority ordinal where higher is more urgent, an insertion order that
/// is unique within a fetch, marked-up title and description text, an
/// optional due specification, the completion flag and an optional
/// duration.
#[derive(Clone, Debug)]
pub struct Task {
    pub id: String,
    pub priority: u8,
    pub order: i32,
    pub content: String,
    pub description: String,
    pub due: Option<TaskDue>,
    pub is_completed: bool,
    pub duration: Option<TaskDuration>,
}

impl PartialEq for Task {
    /// Task identity is the stable id alone.
    fn eq(&self, other: &Task) -> (r: bool) {
        crate::text::str_eq(self.id.as_str(), other.id.as_str())
    }
}

impl vstd::std_specs::cmp::PartialEqSpecImpl for Task {
    open spec fn obeys_eq_spec() -> bool {
        true
    }

    open spec fn eq_spec(&self, other: &Task) -> bool {
        self.id@ == other.id@
    }
}

/// Comparison of two integers.
pub open spec fn spec_int_cmp(a: int, b: int) -> Ordering {
    if a < b {
        Ordering::Less
    } else if a > b {
        Ordering::Greater
    } else {
        Ordering::Equal
    }
}

/// The primary ordering key of two due specifications: a
/// datetime-qualified due sorts before a date-only one, two datetimes
/// compare by their fixed-width text, and the date text breaks the tie.
pub open spec fn spec_due_cmp(a: TaskDue, b: TaskDue) -> Ordering {
    spec_then(
        match (a.datetime, b.datetime) {
            (Some(x), Some(y)) => spec_lex_cmp(x@, y@),
            (Some(_), None) => Ordering::Less,
            (None, Some(_)) => Ordering::Greater,
            (None, None) => Ordering::Equal,
        },
        spec_lex_cmp(a.date@, b.date@),
    )
}

/// The total order of tasks: a due-qualified task sorts before one with
/// no due at all; within that, the due keys compare; ties fall to the
/// priority in reverse (higher priority first) and then to the insertion
/// order.
pub open spec fn spec_task_cmp(a: Task, b: Task) -> Ordering {
    spec_then(
        spec_then(
            match (a.due, b.due) {
                (Some(x), Some(y)) => spec_due_cmp(x, y),
                (Some(_), None) => Ordering::Less,
                (None, Some(_)) => Ordering::Greater,
                (None, None) => Ordering::Equal,
            },
            spec_int_cmp(b.priority as int, a.priority as int),
        ),
        spec_int_cmp(a.order as int, b.order as int),
    )
}

/// Whether a task sorts at or before another.
pub open spec fn spec_task_le(a: Task, b: Task) -> bool {
    spec_task_cmp(a, b) != Ordering::Greater
}

/// The fields the due ordering key reads, compared as values.
pub open spec fn spec_due_key_eq(a: TaskDue, b: TaskDue) -> bool {
    &&& a.date@ == b.date@
    &&& match (a.datetime, b.datetime) {
        (Some(x), Some(y)) => x@ == y@,
        (None, None) => true,
        _ => false,
    }
}

/// The fields the task ordering key reads, compared as values.
pub open spec fn spec_task_key_eq(a: Task, b: Task) -> bool {
    &&& a.priority == b.priority
    &&& a.order == b.order
    &&& match (a.due, b.due) {
        (Some(x), Some(y)) => spec_due_key_eq(x, y),
        (None, None) => true,
        _ => false,
    }
}

/// Two due specifications compare equal exactly when their key fields
/// hold the same values.
pub proof fn lemma_due_cmp_eq(a: TaskDue, b: TaskDue)
    ensures
        spec_due_cmp(a, b) == Ordering::Equal <==> spec_due_key_eq(a, b),
{
    match (a.datetime, b.datetime) {
        (Some(x), Some(y)) => lemma_lex_eq(x@, y@),
        _ => {},
    }
    lemma_lex_eq(a.date@, b.date@);
}

/// Swapping the sides of a due comparison reverses the outcome.
pub proof fn lemma_due_cmp_flip(a: TaskDue, b: TaskDue)
    ensures
        (spec_due_cmp(a, b) == Ordering::Less) <==> (spec_due_cmp(b, a) == Ordering::Greater),
        (spec_due_cmp(a, b) == Ordering::Equal) <==> (spec_due_cmp(b, a) == Ordering::Equal),
{
    match (a.datetime, b.datetime) {
        (Some(x), Some(y)) => lemma_lex_flip(x@, y@),
        _ => {},
    }
    lemma_lex_flip(a.date@, b.date@);
}

/// The due ordering is transitive.
pub proof fn lemma_due_cmp_trans(a: TaskDue, b: TaskDue, c: TaskDue)
    requires
        spec_due_cmp(a, b) != Ordering::Greater,
        spec_due_cmp(b, c) != Ordering::Greater,
    ensures
        spec_due_cmp(a, c) != Ordering::Greater,
        spec_due_cmp(a, b) == Ordering::Less || spec_due_cmp(b, c) == Ordering::Less
            ==> spec_due_cmp(a, c) == Ordering::Less,
{
    match (a.datetime, b.datetime, c.datetime) {
        (Some(x), Some(y), Some(z)) => {
            if spec_lex_cmp(x@, y@) == Ordering::Greater {
                assert(spec_due_cmp(a, b) == Ordering::Greater);
            }
            if spec_lex_cmp(y@, z@) == Ordering::Greater {
                assert(spec_due_cmp(b, c) == Ordering::Greater);
            }
            lemma_lex_trans(x@, y@, z@);
            lemma_lex_eq(x@, y@);
            lemma_lex_eq(y@, z@);
            lemma_lex_eq(x@, z@);
            if spec_lex_cmp(x@, y@) == Ordering::Equal && spec_lex_cmp(y@, z@)
                == Ordering::Equal {
                lemma_lex_trans(a.date@, b.date@, c.date@);
            }
        },
        (None, None, None) => {
            lemma_lex_trans(a.date@, b.date@, c.date@);
        },
        (Some(_), None, None) => {},
        (Some(_), Some(y), None) => {
            if spec_lex_cmp(a.datetime->Some_0@, y@) == Ordering::Greater {
                assert(spec_due_cmp(a, b) == Ordering::Greater);
            }
        },
        (Some(_), None, Some(_)) => {
            assert(spec_due_cmp(b, c) == Ordering::Greater);
        },
        (None, Some(_), _) => {
            assert(spec_due_cmp(a, b) == Ordering::Greater);
        },
        (None, None, Some(_)) => {
            assert(spec_due_cmp(b, c) == Ordering::Greater);
        },
    }
}

/// Two tasks compare equal exactly when their key fields hold the same
/// values; in particular they then carry the same insertion order, so
/// within one fetch, where orders are unique, no two distinct tasks tie.
pub proof fn lemma_task_cmp_eq(a: Task, b: Task)
    ensures
        spec_task_cmp(a, b) == Ordering::Equal <==> spec_task_key_eq(a, b),
        spec_task_cmp(a, b) == Ordering::Equal ==> a.order == b.order,
{
    match (a.due, b.due) {
        (Some(x), Some(y)) => lemma_due_cmp_eq(x, y),
        _ => {},
    }
}

/// Swapping the sides of a task comparison reverses the outcome: the order
/// is antisymmetric and total.
pub proof fn lemma_task_cmp_flip(a: Task, b: Task)
    ensures
        (spec_task_cmp(a, b) == Ordering::Less) <==> (spec_task_cmp(b, a) == Ordering::Greater),
        (spec_task_cmp(a, b) == Ordering::Equal) <==> (spec_task_cmp(b, a) == Ordering::Equal),
        spec_task_le(a, b) || spec_task_le(b, a),
{
    match (a.due, b.due) {
        (Some(x), Some(y)) => lemma_due_cmp_flip(x, y),
        _ => {},
    }
}

/// The task order is transitive: with antisymmetry and totality it is a
/// strict total order up to key equality, and keys tie only on the same
/// insertion order.
pub proof fn lemma_task_cmp_trans(a: Task, b: Task, c: Task)
    requires
        spec_task_le(a, b),
        spec_task_le(b, c),
    ensures
        spec_task_le(a, c),
        spec_task_cmp(a, b) == Ordering::Less || spec_task_cmp(b, c) == Ordering::Less
            ==> spec_task_cmp(a, c) == Ordering::Less,
{
    lemma_task_cmp_eq(a, b);
    lemma_task_cmp_eq(b, c);
    lemma_task_cmp_eq(a, c);
    match (a.due, b.due, c.due) {
        (Some(x), Some(y), Some(z)) => {
            lemma_due_cmp_trans(x, y, z);
            lemma_due_cmp_eq(x, y);
            lemma_due_cmp_eq(y, z);
            lemma_due_cmp_eq(x, z);
        },
        _ => {},
    }
}

/// Compares two due specifications for ordering.
pub fn due_cmp(a: &TaskDue, b: &TaskDue) -> (r: Ordering)
    ensures
        r == spec_due_cmp(*a, *b),
{
    let first = match (&a.datetime, &b.datetime) {
        (Some(x), Some(y)) => lex_cmp(x.as_str(), y.as_str()),
        (Some(_), None) => Ordering::Less,
        (None, Some(_)) => Ordering::Greater,
        (None, None) => Ordering::Equal,
    };
    match first {
        Ordering::Equal => lex_cmp(a.date.as_str(), b.date.as_str()),
        _ => first,
    }
}

/// Compares two tasks for ordering.
pub fn task_cmp(a: &Task, b: &Task) -> (r: Ordering)
    ensures
        r == spec_task_cmp(*a, *b),
{
    let first = match (&a.due, &b.due) {
        (Some(x), Some(y)) => due_cmp(x, y),
        (Some(_), None) => Ordering::Less,
        (None, Some(_)) => Ordering::Greater,
        (None, None) => Ordering::Equal,
    };
    let second = match first {
        Ordering::Equal => {
            if b.priority < a.priority {
                Ordering::Less
            } else if b.priority > a.priority {
                Ordering::Greater
            } else {
                Ordering::Equal
            }
        },
        _ => first,
    };
    match second {
        Ordering::Equal => {
            if a.order < b.order {
                Ordering::Less
            } else if a.order > b.order {
                Ordering::Greater
            } else {
                Ordering::Equal
            }
        },
        _ => second,
    }
}

/// Whether a task sorts at or before another.
pub fn task_le(a: &Task, b: &Task) -> (r: bool)
    ensures
        r == spec_task_le(*a, *b),
{
    match task_cmp(a, b) {
        Ordering::Greater => false,
        _ => true,
    }
}

/// A sequence of tasks in ascending task order.
pub open spec fn spec_sorted(s: Seq<Task>) -> bool {
    forall|i: int, j: int| 0 <= i < j < s.len() ==> spec_task_le(#[trigger] s[i], #[trigger] s[j])
}

/// Inserting an element anywhere adds exactly it to the multiset.
proof fn lemma_insert_multiset(s: Seq<Task>, i: int, t: Task)
    requires
        0 <= i <= s.len(),
    ensures
        s.insert(i, t).to_multiset() == s.to_multiset().insert(t),
{
    broadcast use vstd::seq_lib::group_to_multiset_ensures;

    assert(s.insert(i, t) =~= s.take(i) + (seq![t] + s.skip(i)));
    lemma_multiset_commutative(s.take(i), seq![t] + s.skip(i));
    lemma_multiset_commutative(seq![t], s.skip(i));
    assert(seq![t] =~= Seq::<Task>::empty().push(t));
    assert(Seq::<Task>::empty().to_multiset() =~= Multiset::<Task>::empty()) by {
        assert(Seq::<Task>::empty().to_multiset().len() == 0);
    }
    assert(seq![t].to_multiset() =~= Multiset::<Task>::empty().insert(t));
    assert(s =~= s.take(i) + s.skip(i));
    lemma_multiset_commutative(s.take(i), s.skip(i));
    assert(s.insert(i, t).to_multiset() =~= s.to_multiset().insert(t)) by {
        broadcast use vstd::multiset::group_multiset_axioms;

    }
}

/// Finds where a task belongs in the sorted prefix of length `bound`:
/// the first position whose element sorts strictly after the task, or
/// `bound` when none does.
fn find_insert_pos(tasks: &Vec<Task>, bound: usize, t: &Task) -> (j: usize)
    requires
        bound <= tasks@.len(),
    ensures
        j <= bound,
        forall|k: int| 0 <= k < j ==> spec_task_le(#[trigger] tasks@[k], *t),
        j < bound ==> spec_task_cmp(tasks@[j as int], *t) == Ordering::Greater,
{
    let mut j: usize = 0;
    while j < bound
        invariant
            j <= bound,
            bound <= tasks@.len(),
            forall|k: int| 0 <= k < j ==> spec_task_le(#[trigger] tasks@[k], *t),
        decreases bound - j,
    {
        let stop = match task_cmp(&tasks[j], t) {
            Ordering::Greater => true,
            _ => false,
        };
        if stop {
            return j;
        }
        j = j + 1;
    }
    j
}

/// Sorts tasks in place into ascending task order, keeping exactly the
/// same tasks. Equal keys cannot occur between distinct tasks of one
/// fetch, where insertion orders are unique, so the sorted sequence is
/// the one ascending arrangement of its tasks.
pub fn sort_tasks(tasks: &mut Vec<Task>)
    ensures
        final(tasks)@.to_multiset() == old(tasks)@.to_multiset(),
        final(tasks)@.len() == old(tasks)@.len(),
        spec_sorted(final(tasks)@),
{
    let ghost orig = tasks@;
    let mut i: usize = 1;
    while i < tasks.len()
        invariant
            1 <= i,
            i <= tasks@.len() || tasks@.len() == 0,
            tasks@.to_multiset() == orig.to_multiset(),
            tasks@.len() == orig.len(),
            tasks@.len() == 0 || spec_sorted(tasks@.take(i as int)),
        decreases tasks@.len() - i,
    {
        let ghost before = tasks@;
        let t = tasks.remove(i);
        let j = find_insert_pos(tasks, i, &t);
        proof {
            lemma_insert_multiset(tasks@, j as int, t);
            assert(before.remove(i as int).to_multiset() == before.to_multiset().remove(
                before[i as int],
            ));
        }
        let ghost removed = tasks@;
        tasks.insert(j, t);
        proof {
            // the multiset is restored
            assert(tasks@.to_multiset() =~= before.to_multiset()) by {
                broadcast use vstd::multiset::group_multiset_axioms;

                assert(before.to_multiset().contains(before[i as int]));
            }
            let jj = j as int;
            let ii = i as int;
            // the old prefix keeps its order and values under the removal
            assert(forall|k: int| 0 <= k < ii ==> removed[k] == before[k]);
            assert(forall|k1: int, k2: int|
                0 <= k1 < k2 < ii ==> spec_task_le(#[trigger] removed[k1], #[trigger] removed[k2]))
                by {
                assert(forall|k: int| 0 <= k < ii ==> before.take(ii)[k] == before[k]);
            }
            // the grown prefix is sorted
            assert forall|p: int, q: int| 0 <= p < q < ii + 1 implies spec_task_le(
                #[trigger] tasks@[p],
                #[trigger] tasks@[q],
            ) by {
                assert(tasks@ == removed.insert(jj, t));
                assert(forall|k: int| 0 <= k < jj ==> tasks@[k] == removed[k]);
                assert(tasks@[jj] == t);
                assert(forall|k: int| jj < k <= ii ==> tasks@[k] == removed[k - 1]);
                if q < jj {
                } else if p < jj && q == jj {
                    assert(spec_task_le(removed[p], t));
                } else if p < jj && q > jj {
                    if q - 1 == jj {
                        assert(tasks@[q] == removed[jj]);
                    }
                } else if p == jj && q > jj {
                    assert(jj < ii);
                    assert(spec_task_cmp(removed[jj], t) == Ordering::Greater);
                    lemma_task_cmp_flip(removed[jj], t);
                    if q - 1 > jj {
                        assert(spec_task_le(removed[jj], removed[q - 1]));
                        lemma_task_cmp_trans(t, removed[jj], removed[q - 1]);
                    }
                } else {
                    assert(p > jj && q > jj);
                }
            }
        }
        i = i + 1;
    }
    proof {
        if tasks@.len() == 0 {
            assert(spec_sorted(tasks@));
        } else {
            assert(tasks@.take(tasks@.len() as int) =~= tasks@);
        }
    }
}

/// Pairwise distinct insertion orders, as one fetch guarantees them.
pub open spec fn spec_orders_unique(s: Seq<Task>) -> bool {
    forall|i: int, j: int| 0 <= i < j < s.len() ==> (#[trigger] s[i]).order != (#[trigger] s[j]).order
}

/// Sorting is deterministic and stable down to the insertion-order
/// tie-break: within one fetch, where insertion orders are unique, the
/// ascending arrangement of a set of tasks is the only one, so sorting
/// the same input again yields the identical output.
pub proof fn lemma_sorted_unique(s1: Seq<Task>, s2: Seq<Task>)
    requires
        spec_sorted(s1),
        spec_sorted(s2),
        s1.to_multiset() == s2.to_multiset(),
        spec_orders_unique(s1),
    ensures
        s1 == s2,
    decreases s1.len(),
{
    if s1.len() == 0 {
        assert(s1.to_multiset().len() == 0);
        assert(s2.len() == 0);
        assert(s1 =~= s2);
    } else {
        assert(s1.to_multiset().len() == s1.len());
        assert(s2.to_multiset().len() == s2.len());
        assert(s2.len() == s1.len());
        // each head sits in the other sequence
        assert(s2.contains(s2[0]));
        assert(s1.to_multiset().count(s2[0]) > 0);
        assert(s1.contains(s2[0]));
        let k = choose|k: int| 0 <= k < s1.len() && s1[k] == s2[0];
        assert(s1.contains(s1[0]));
        assert(s2.to_multiset().count(s1[0]) > 0);
        assert(s2.contains(s1[0]));
        let m = choose|m: int| 0 <= m < s2.len() && s2[m] == s1[0];
        // the heads bound each other, so they compare equal
        lemma_task_cmp_eq(s1[0], s1[0]);
        lemma_task_cmp_eq(s2[0], s2[0]);
        assert(spec_task_le(s1[0], s2[0])) by {
            if k > 0 {
                assert(spec_task_le(s1[0], s1[k]));
            }
        }
        assert(spec_task_le(s2[0], s1[0])) by {
            if m > 0 {
                assert(spec_task_le(s2[0], s2[m]));
            }
        }
        lemma_task_cmp_flip(s1[0], s2[0]);
        assert(spec_task_cmp(s1[0], s2[0]) == core::cmp::Ordering::Equal);
        lemma_task_cmp_eq(s1[0], s2[0]);
        // equal comparison means equal insertion order, and orders are
        // unique, so the heads are the same task
        if k != 0 {
            assert(s1[0].order != s1[k].order);
            assert(false);
        }
        assert(s1[0] == s2[0]);
        // the tails are sorted arrangements of the same remaining tasks
        let t1 = s1.drop_first();
        let t2 = s2.drop_first();
        assert(s1.remove(0).to_multiset() == s1.to_multiset().remove(s1[0]));
        assert(s2.remove(0).to_multiset() == s2.to_multiset().remove(s2[0]));
        assert(s1.remove(0) =~= t1);
        assert(s2.remove(0) =~= t2);
        assert(t1.to_multiset() == t2.to_multiset());
        assert(spec_sorted(t1)) by {
            assert(forall|i: int, j: int|
                0 <= i < j < t1.len() ==> spec_task_le(#[trigger] t1[i], #[trigger] t1[j])) by {
                assert(forall|i: int| 0 <= i < t1.len() ==> t1[i] == s1[i + 1]);
            }
        }
        assert(spec_sorted(t2)) by {
            assert(forall|i: int, j: int|
                0 <= i < j < t2.len() ==> spec_task_le(#[trigger] t2[i], #[trigger] t2[j])) by {
                assert(forall|i: int| 0 <= i < t2.len() ==> t2[i] == s2[i + 1]);
            }
        }
        assert(spec_orders_unique(t1)) by {
            assert(forall|i: int| 0 <= i < t1.len() ==> t1[i] == s1[i + 1]);
        }
        lemma_sorted_unique(t1, t2);
        assert forall|i: int| 0 <= i < s1.len() implies s1[i] == s2[i] by {
            if i > 0 {
                assert(s1[i] == t1[i - 1]);
                assert(s2[i] == t2[i - 1]);
            }
        }
        assert(s1 =~= s2);
    }
}

/// Builds the render-ready view model of a fetch: sorts the tasks into
/// the display order and projects each into its snapshot at the given
/// instant. The result lines up, snapshot by snapshot, with some
/// ascending arrangement of exactly the fetched tasks, each snapshot the
/// projection of its task.
pub fn build_snapshots(tasks: Vec<Task>, now: &crate::schedule::DateTimeParts) -> (r: Vec<
    crate::controls::TaskSnapshot,
>)
    requires
        now.valid(),
    ensures
        r@.len() == tasks@.len(),
        exists|s: Seq<Task>|
            {
                &&& #[trigger] s.to_multiset() == tasks@.to_multiset()
                &&& spec_sorted(s)
                &&& s.len() == r@.len()
                &&& forall|i: int|
                    0 <= i < s.len() ==> crate::controls::task_list::spec_snapshot_post(
                        s[i],
                        *now,
                        #[trigger] r@[i],
                    )
            },
{
    let mut sorted = tasks;
    sort_tasks(&mut sorted);
    let ghost arrangement = sorted@;
    let mut r: Vec<crate::controls::TaskSnapshot> = Vec::new();
    let mut remaining = sorted;
    while remaining.len() > 0
        invariant
            now.valid(),
            r@.len() + remaining@.len() == arrangement.len(),
            remaining@ == arrangement.skip(r@.len() as int),
            forall|i: int|
                0 <= i < r@.len() ==> crate::controls::task_list::spec_snapshot_post(
                    arrangement[i],
                    *now,
                    #[trigger] r@[i],
                ),
        decreases remaining@.len(),
    {
        let t = remaining.remove(0);
        proof {
            assert(t == arrangement[r@.len() as int]);
            assert(remaining@ =~= arrangement.skip(r@.len() as int + 1));
        }
        let snap = t.into_snapshot(now);
        r.push(snap);
    }
    proof {
        assert(arrangement.skip(0) =~= arrangement);
    }
    r
}

} // verus!
