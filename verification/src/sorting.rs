//! Post-fetch sorting of task and project listings.
//!
//! Every sort mode is reduced to a two-part text key; listings are then
//! ordered by the lexicographic pair order. An absent value sorts before
//! every present one, as the wire types compare. Entries with equal keys
//! may appear in any order relative to one another.

use vstd::prelude::*;

verus! {

use vstd::relations::sorted_by;
use vstd::relations::strongly_connected;
use vstd::relations::transitive;
use vstd::seq_lib::lemma_multiset_commutative;
use crate::cachekey::PairView;
use crate::cachekey::lemma_pair_le_total_ordering_pub;
use crate::cachekey::pair_leq;
use crate::cachekey::spec_pair_le;
use crate::models::project::Project;
use crate::models::project::ProjectSort;
use crate::models::task::Task;
use crate::models::task::TaskSort;
use crate::models::user::spec_user_label;
use crate::text::spec_lower;

/// The sort key of an optional value: absent sorts before every present
/// value, and present values keep their own order.
pub open spec fn spec_opt_key(o: Option<String>) -> Seq<char> {
    match o {
        Some(s) => seq!['+'] + s@,
        None => Seq::empty(),
    }
}

fn opt_key(o: &Option<String>) -> (r: Vec<char>)
    ensures
        r@ == spec_opt_key(*o),
{
    match o {
        Some(s) => {
            let mut v: Vec<char> = Vec::new();
            v.push('+');
            let mut c = crate::text::str_to_chars(s.as_str());
            v.append(&mut c);
            proof {
                assert(v@ =~= spec_opt_key(*o));
            }
            v
        },
        None => Vec::new(),
    }
}

/// The two-part sort key of a task under a sort mode.
pub open spec fn spec_task_key(sort: TaskSort, t: Task) -> PairView {
    match sort {
        TaskSort::Name => (spec_lower(t.name@), Seq::empty()),
        TaskSort::DueOn => (spec_opt_key(t.due_on), spec_opt_key(t.due_at)),
        TaskSort::CreatedAt => (spec_opt_key(t.created_at), Seq::empty()),
        TaskSort::ModifiedAt => (spec_opt_key(t.modified_at), Seq::empty()),
        TaskSort::Assignee => (
            match t.assignee {
                Some(u) => seq!['+'] + spec_user_label(u),
                None => Seq::empty(),
            },
            Seq::empty(),
        ),
    }
}

fn task_key(sort: TaskSort, t: &Task) -> (r: (Vec<char>, Vec<char>))
    ensures
        (r.0@, r.1@) == spec_task_key(sort, *t),
{
    match sort {
        TaskSort::Name => {
            let chars = crate::text::str_to_chars(t.name.as_str());
            (crate::text::lower_chars(&chars), Vec::new())
        },
        TaskSort::DueOn => (opt_key(&t.due_on), opt_key(&t.due_at)),
        TaskSort::CreatedAt => (opt_key(&t.created_at), Vec::new()),
        TaskSort::ModifiedAt => (opt_key(&t.modified_at), Vec::new()),
        TaskSort::Assignee => {
            match &t.assignee {
                Some(u) => {
                    let mut v: Vec<char> = Vec::new();
                    v.push('+');
                    let label = u.label();
                    let mut c = crate::text::str_to_chars(label.as_str());
                    v.append(&mut c);
                    proof {
                        assert(v@ =~= seq!['+'] + spec_user_label(t.assignee->0));
                    }
                    (v, Vec::new())
                },
                None => (Vec::new(), Vec::new()),
            }
        },
    }
}

/// The task order a sort mode induces.
pub open spec fn task_leq(sort: TaskSort) -> spec_fn(Task, Task) -> bool {
    |a: Task, b: Task| spec_pair_le(spec_task_key(sort, a), spec_task_key(sort, b))
}

fn task_le(sort: TaskSort, a: &Task, b: &Task) -> (r: bool)
    ensures
        r == task_leq(sort)(*a, *b),
{
    let ka = task_key(sort, a);
    let kb = task_key(sort, b);
    let la = crate::text::chars_to_string(&ka.0);
    let lb = crate::text::chars_to_string(&kb.0);
    if crate::text::str_eq(la.as_str(), lb.as_str()) {
        crate::cachekey::lex_le(
            crate::text::chars_to_string(&ka.1).as_str(),
            crate::text::chars_to_string(&kb.1).as_str(),
        )
    } else {
        crate::cachekey::lex_le(la.as_str(), lb.as_str())
    }
}

proof fn lemma_task_leq_connected_transitive(sort: TaskSort)
    ensures
        strongly_connected(task_leq(sort)),
        transitive(task_leq(sort)),
{
    lemma_pair_le_total_ordering_pub();
    let leq = task_leq(sort);
    let pleq = pair_leq();
    assert forall|x: Task, y: Task| #[trigger] leq(x, y) || #[trigger] leq(y, x) by {
        assert(pleq(spec_task_key(sort, x), spec_task_key(sort, y)) || pleq(
            spec_task_key(sort, y),
            spec_task_key(sort, x),
        ));
    }
    assert forall|x: Task, y: Task, z: Task|
        #[trigger] leq(x, y) && #[trigger] leq(y, z) implies leq(x, z) by {
        assert(pleq(spec_task_key(sort, x), spec_task_key(sort, y)));
        assert(pleq(spec_task_key(sort, y), spec_task_key(sort, z)));
        assert(pleq(spec_task_key(sort, x), spec_task_key(sort, z)));
    }
}

/// Insertion keeps a sorted sequence sorted, for any connected and
/// transitive order.
proof fn lemma_insert_sorted_rel<T>(t: Seq<T>, x: T, idx: int, leq: spec_fn(T, T) -> bool)
    requires
        strongly_connected(leq),
        transitive(leq),
        sorted_by(t, leq),
        0 <= idx <= t.len(),
        forall|j: int| 0 <= j < idx ==> !leq(x, t[j]),
        idx < t.len() ==> leq(x, t[idx]),
    ensures
        sorted_by(t.take(idx) + seq![x] + t.skip(idx), leq),
{
    let s = t.take(idx) + seq![x] + t.skip(idx);
    assert forall|a: int, b: int| 0 <= a < b < s.len() implies #[trigger] leq(s[a], s[b]) by {
        if a < idx {
            assert(s[a] == t[a]);
            if b < idx {
                assert(s[b] == t[b]);
                assert(leq(t[a], t[b]));
            } else if b == idx {
                assert(s[b] == x);
                assert(!leq(x, t[a]));
                assert(leq(t[a], x) || leq(x, t[a]));
            } else {
                assert(s[b] == t[b - 1]);
                assert(a < b - 1);
                assert(leq(t[a], t[b - 1]));
            }
        } else if a == idx {
            assert(s[a] == x);
            assert(b > idx);
            assert(s[b] == t[b - 1]);
            assert(idx <= b - 1 < t.len());
            assert(leq(x, t[idx]));
            if b - 1 > idx {
                assert(leq(t[idx], t[b - 1]));
                assert(leq(x, t[b - 1]));
            }
        } else {
            assert(s[a] == t[a - 1]);
            assert(s[b] == t[b - 1]);
            assert(idx <= a - 1 < b - 1 < t.len());
            assert(leq(t[a - 1], t[b - 1]));
        }
    }
}

/// Insertion adds exactly one occurrence to the multiset.
proof fn lemma_insert_multiset_gen<T>(t: Seq<T>, x: T, idx: int)
    requires
        0 <= idx <= t.len(),
    ensures
        (t.take(idx) + seq![x] + t.skip(idx)).to_multiset() =~= t.to_multiset().insert(x),
{
    let left = t.take(idx);
    let right = t.skip(idx);
    lemma_multiset_commutative(left + seq![x], right);
    lemma_multiset_commutative(left, seq![x]);
    lemma_multiset_commutative(left, right);
    assert(left + right =~= t);
    assert(seq![x] =~= Seq::<T>::empty().push(x));
    vstd::seq_lib::to_multiset_build(Seq::<T>::empty(), x);
    assert(Seq::<T>::empty().to_multiset() =~= vstd::multiset::Multiset::<T>::empty()) by {
        Seq::<T>::empty().to_multiset_ensures();
        assert forall|a: T| Seq::<T>::empty().to_multiset().count(a) == 0 by {
            assert(!Seq::<T>::empty().contains(a));
            Seq::<T>::empty().to_multiset_ensures();
        }
    }
}

/// Sort tasks by the chosen key; the result holds the same tasks, ordered
/// by the sort mode's key.
pub fn sort_tasks(tasks: Vec<Task>, sort: TaskSort) -> (r: Vec<Task>)
    ensures
        sorted_by(r@, task_leq(sort)),
        r@.to_multiset() == tasks@.to_multiset(),
{
    proof {
        lemma_task_leq_connected_transitive(sort);
    }
    let ghost orig = tasks@;
    let mut rest = tasks;
    let mut out: Vec<Task> = Vec::new();
    proof {
        assert(out@ =~= orig.take(0));
    }
    let total = rest.len();
    assert(orig.len() <= usize::MAX);
    let mut i: usize = 0;
    while rest.len() > 0
        invariant
            strongly_connected(task_leq(sort)),
            transitive(task_leq(sort)),
            orig.len() <= usize::MAX,
            0 <= i <= orig.len(),
            rest@ == orig.skip(i as int),
            sorted_by(out@, task_leq(sort)),
            out@.to_multiset() == orig.take(i as int).to_multiset(),
        decreases rest@.len(),
    {
        proof {
            assert(orig.skip(i as int)[0] == orig[i as int]);
        }
        let x = rest.remove(0);
        proof {
            assert(rest@ =~= orig.skip(i as int + 1));
        }
        let ghost before = out@;
        let mut idx: usize = 0;
        while idx < out.len() && !task_le(sort, &x, &out[idx])
            invariant
                0 <= idx <= out@.len(),
                out@ == before,
                forall|j: int| 0 <= j < idx ==> !task_leq(sort)(x, before[j]),
            decreases out@.len() - idx,
        {
            idx = idx + 1;
        }
        out.insert(idx, x);
        proof {
            assert(out@ =~= before.take(idx as int) + seq![x] + before.skip(idx as int));
            lemma_insert_sorted_rel(before, x, idx as int, task_leq(sort));
            lemma_insert_multiset_gen(before, x, idx as int);
            assert(orig.take(i + 1) =~= orig.take(i as int).push(x));
            vstd::seq_lib::to_multiset_build(orig.take(i as int), x);
            assert(out@.to_multiset() =~= orig.take(i + 1).to_multiset());
        }
        i = i + 1;
    }
    proof {
        assert(orig.take(i as int) =~= orig);
    }
    out
}

/// The two-part sort key of a project under a sort mode.
pub open spec fn spec_project_key(sort: ProjectSort, p: Project) -> PairView {
    match sort {
        ProjectSort::Name => (spec_lower(p.name@), Seq::empty()),
        ProjectSort::CreatedAt => (spec_opt_key(p.created_at), Seq::empty()),
        ProjectSort::ModifiedAt => (spec_opt_key(p.modified_at), Seq::empty()),
    }
}

fn project_key(sort: ProjectSort, p: &Project) -> (r: (Vec<char>, Vec<char>))
    ensures
        (r.0@, r.1@) == spec_project_key(sort, *p),
{
    match sort {
        ProjectSort::Name => {
            let chars = crate::text::str_to_chars(p.name.as_str());
            (crate::text::lower_chars(&chars), Vec::new())
        },
        ProjectSort::CreatedAt => (opt_key(&p.created_at), Vec::new()),
        ProjectSort::ModifiedAt => (opt_key(&p.modified_at), Vec::new()),
    }
}

/// The project order a sort mode induces.
pub open spec fn project_leq(sort: ProjectSort) -> spec_fn(Project, Project) -> bool {
    |a: Project, b: Project| spec_pair_le(spec_project_key(sort, a), spec_project_key(sort, b))
}

fn project_le(sort: ProjectSort, a: &Project, b: &Project) -> (r: bool)
    ensures
        r == project_leq(sort)(*a, *b),
{
    let ka = project_key(sort, a);
    let kb = project_key(sort, b);
    let la = crate::text::chars_to_string(&ka.0);
    let lb = crate::text::chars_to_string(&kb.0);
    if crate::text::str_eq(la.as_str(), lb.as_str()) {
        crate::cachekey::lex_le(
            crate::text::chars_to_string(&ka.1).as_str(),
            crate::text::chars_to_string(&kb.1).as_str(),
        )
    } else {
        crate::cachekey::lex_le(la.as_str(), lb.as_str())
    }
}

proof fn lemma_project_leq_connected_transitive(sort: ProjectSort)
    ensures
        strongly_connected(project_leq(sort)),
        transitive(project_leq(sort)),
{
    lemma_pair_le_total_ordering_pub();
    let leq = project_leq(sort);
    let pleq = pair_leq();
    assert forall|x: Project, y: Project| #[trigger] leq(x, y) || #[trigger] leq(y, x) by {
        assert(pleq(spec_project_key(sort, x), spec_project_key(sort, y)) || pleq(
            spec_project_key(sort, y),
            spec_project_key(sort, x),
        ));
    }
    assert forall|x: Project, y: Project, z: Project|
        #[trigger] leq(x, y) && #[trigger] leq(y, z) implies leq(x, z) by {
        assert(pleq(spec_project_key(sort, x), spec_project_key(sort, y)));
        assert(pleq(spec_project_key(sort, y), spec_project_key(sort, z)));
        assert(pleq(spec_project_key(sort, x), spec_project_key(sort, z)));
    }
}

/// Sort projects by the chosen key; the result holds the same projects,
/// ordered by the sort mode's key.
pub fn sort_projects(projects: Vec<Project>, sort: ProjectSort) -> (r: Vec<Project>)
    ensures
        sorted_by(r@, project_leq(sort)),
        r@.to_multiset() == projects@.to_multiset(),
{
    proof {
        lemma_project_leq_connected_transitive(sort);
    }
    let ghost orig = projects@;
    let mut rest = projects;
    let mut out: Vec<Project> = Vec::new();
    proof {
        assert(out@ =~= orig.take(0));
    }
    let total = rest.len();
    assert(orig.len() <= usize::MAX);
    let mut i: usize = 0;
    while rest.len() > 0
        invariant
            strongly_connected(project_leq(sort)),
            transitive(project_leq(sort)),
            orig.len() <= usize::MAX,
            0 <= i <= orig.len(),
            rest@ == orig.skip(i as int),
            sorted_by(out@, project_leq(sort)),
            out@.to_multiset() == orig.take(i as int).to_multiset(),
        decreases rest@.len(),
    {
        proof {
            assert(orig.skip(i as int)[0] == orig[i as int]);
        }
        let x = rest.remove(0);
        proof {
            assert(rest@ =~= orig.skip(i as int + 1));
        }
        let ghost before = out@;
        let mut idx: usize = 0;
        while idx < out.len() && !project_le(sort, &x, &out[idx])
            invariant
                0 <= idx <= out@.len(),
                out@ == before,
                forall|j: int| 0 <= j < idx ==> !project_leq(sort)(x, before[j]),
            decreases out@.len() - idx,
        {
            idx = idx + 1;
        }
        out.insert(idx, x);
        proof {
            assert(out@ =~= before.take(idx as int) + seq![x] + before.skip(idx as int));
            lemma_insert_sorted_rel(before, x, idx as int, project_leq(sort));
            lemma_insert_multiset_gen(before, x, idx as int);
            assert(orig.take(i + 1) =~= orig.take(i as int).push(x));
            vstd::seq_lib::to_multiset_build(orig.take(i as int), x);
            assert(out@.to_multiset() =~= orig.take(i + 1).to_multiset());
        }
        i = i + 1;
    }
    proof {
        assert(orig.take(i as int) =~= orig);
    }
    out
}

} // verus!
