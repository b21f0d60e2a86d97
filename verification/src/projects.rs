//! Project-level rules: the derived status, the default-project naming
//! convention, and the collection of a project's subtree.

use vstd::prelude::*;
use vstd::string::*;
use crate::dto::LinkInputDto;
use crate::text::{ends_with_spec, str_ends_with, vec_contains_str};

verus! {

/// The status a project presents, derived from its lifecycle fields and
/// task counts: deletion wins over archival, archival over activity.
pub open spec fn compute_status_spec(
    deleted_at: Option<i64>,
    archived_at: Option<i64>,
    todo_task_count: i64,
    done_task_count: i64,
) -> Seq<char> {
    if deleted_at is Some {
        "deleted"@
    } else if archived_at is Some {
        "archived"@
    } else if todo_task_count > 0 {
        "inProgress"@
    } else if done_task_count > 0 {
        "done"@
    } else {
        "inProgress"@
    }
}

/// The status a project presents, derived from its lifecycle fields and
/// task counts.
pub fn compute_status(
    deleted_at: Option<i64>,
    archived_at: Option<i64>,
    todo_task_count: i64,
    done_task_count: i64,
) -> (r: String)
    ensures
        r@ == compute_status_spec(deleted_at, archived_at, todo_task_count, done_task_count),
{
    if deleted_at.is_some() {
        return "deleted".to_owned();
    }
    if archived_at.is_some() {
        return "archived".to_owned();
    }
    if todo_task_count > 0 {
        return "inProgress".to_owned();
    }
    if done_task_count > 0 {
        return "done".to_owned();
    }
    "inProgress".to_owned()
}

/// Whether this id follows the default-project naming convention.
pub fn is_default_project_id(project_id: &str) -> (r: bool)
    ensures
        r == ends_with_spec(project_id@, "_default"@),
{
    str_ends_with(project_id, "_default")
}

/// What project creation needs.
#[derive(Clone, Debug)]
pub struct ProjectCreateInput {
    pub space_id: String,
    pub title: String,
    pub parent_id: Option<String>,
    pub note: Option<String>,
    pub priority: Option<String>,
    pub rank: Option<i64>,
    pub tags: Option<Vec<String>>,
    pub links: Option<Vec<LinkInputDto>>,
}

/// A project id together with the patch to apply to it.
#[derive(Clone, Debug)]
pub struct ProjectUpdateInput {
    pub project_id: String,
    pub patch: ProjectUpdatePatch,
}

/// A partial update of one project; a doubled option clears the field.
#[derive(Clone, Debug)]
pub struct ProjectUpdatePatch {
    pub title: Option<String>,
    pub note: Option<Option<String>>,
    pub priority: Option<String>,
    pub parent_id: Option<Option<String>>,
    pub tags: Option<Vec<String>>,
    pub links: Option<Vec<LinkInputDto>>,
}

/// A project's place in the tree: its id and its parent's id, if any.
#[derive(Clone, Debug)]
pub struct ProjectNode {
    pub id: String,
    pub parent_id: Option<String>,
}

/// How many entries are still unhandled.
spec fn count_unpicked(s: Seq<bool>) -> int
    decreases s.len(),
{
    if s.len() == 0 {
        0
    } else {
        count_unpicked(s.drop_last()) + if s.last() {
            0int
        } else {
            1int
        }
    }
}

proof fn lemma_count_unpicked_bounds(s: Seq<bool>)
    ensures
        0 <= count_unpicked(s) <= s.len(),
    decreases s.len(),
{
    if s.len() > 0 {
        lemma_count_unpicked_bounds(s.drop_last());
    }
}

proof fn lemma_count_unpicked_update(s: Seq<bool>, i: int)
    requires
        0 <= i < s.len(),
        !s[i],
    ensures
        count_unpicked(s.update(i, true)) == count_unpicked(s) - 1,
    decreases s.len(),
{
    let u = s.update(i, true);
    if i == s.len() - 1 {
        assert(u.drop_last() =~= s.drop_last());
    } else {
        lemma_count_unpicked_update(s.drop_last(), i);
        assert(u.drop_last() =~= s.drop_last().update(i, true));
        assert(u.last() == s.last());
    }
}

proof fn lemma_count_unpicked_at_least_one(s: Seq<bool>, i: int)
    requires
        0 <= i < s.len(),
        !s[i],
    ensures
        count_unpicked(s) >= 1,
    decreases s.len(),
{
    lemma_count_unpicked_bounds(s.drop_last());
    if i < s.len() - 1 {
        lemma_count_unpicked_at_least_one(s.drop_last(), i);
    }
}

/// The id views of a string vector.
pub open spec fn id_views(v: Seq<String>) -> Seq<Seq<char>> {
    v.map_values(|s: String| s@)
}

/// Whether this project's parent is among the collected ids.
pub open spec fn parent_reached_spec(node: ProjectNode, out: Seq<Seq<char>>) -> bool {
    node.parent_id matches Some(p) && out.contains(p@)
}

/// Whether `x` is the id of a project whose parent is among the collected
/// ids.
pub open spec fn descendant_witness(nodes: Seq<ProjectNode>, out: Seq<Seq<char>>, x: Seq<char>) -> bool {
    exists|i: int|
        0 <= i < nodes.len() && (#[trigger] nodes[i]).id@ == x && parent_reached_spec(
            nodes[i],
            out,
        )
}

/// Whether the collected subtree is exactly right: it starts at the root,
/// repeats nothing, every other member is a project whose parent is also
/// collected, and every project whose parent is collected is collected.
pub open spec fn subtree_collected(
    root: Seq<char>,
    nodes: Seq<ProjectNode>,
    out: Seq<Seq<char>>,
) -> bool {
    &&& out.len() >= 1
    &&& out[0] == root
    &&& forall|p: int, q: int| 0 <= p < q < out.len() ==> out[p] != out[q]
    &&& forall|j: int| 1 <= j < out.len() ==> descendant_witness(nodes, out, #[trigger] out[j])
    &&& forall|i: int|
        0 <= i < nodes.len() && parent_reached_spec(#[trigger] nodes[i], out) ==> out.contains(
            nodes[i].id@,
        )
}

/// The project repository's tree logic.
pub struct ProjectRepo;

impl ProjectRepo {
    /// Collect the root project id together with the ids of all its
    /// descendants among `all_projects`, each id once.
    pub fn collect_descendant_ids(root_project_id: &str, all_projects: &Vec<ProjectNode>) -> (r:
        Vec<String>)
        ensures
            subtree_collected(root_project_id@, all_projects@, id_views(r@)),
    {
        let n = all_projects.len();
        let mut out: Vec<String> = Vec::new();
        out.push(root_project_id.to_owned());
        proof {
            assert(id_views(out@) =~= Seq::<Seq<char>>::empty().push(root_project_id@));
        }
        let mut picked: Vec<bool> = vec![false; n];
        let mut remaining: usize = n;
        proof {
            lemma_count_unpicked_all_false(picked@);
        }
        let mut changed = true;
        while changed
            invariant
                n == all_projects@.len(),
                picked@.len() == n,
                remaining == count_unpicked(picked@),
                id_views(out@).len() >= 1,
                id_views(out@)[0] == root_project_id@,
                forall|p: int, q: int|
                    0 <= p < q < out@.len() ==> id_views(out@)[p] != id_views(out@)[q],
                forall|j: int|
                    1 <= j < out@.len() ==> descendant_witness(
                        all_projects@,
                        id_views(out@),
                        #[trigger] id_views(out@)[j],
                    ),
                forall|i: int|
                    0 <= i < n && #[trigger] picked@[i] ==> id_views(out@).contains(
                        all_projects@[i].id@,
                    ),
                !changed ==> forall|i: int|
                    0 <= i < n && !(#[trigger] picked@[i]) ==> !parent_reached_spec(
                        all_projects@[i],
                        id_views(out@),
                    ),
            decreases remaining + if changed {
                1int
            } else {
                0int
            },
        {
            let ghost rem0 = remaining;
            changed = false;
            let mut i: usize = 0;
            while i < n
                invariant
                    n == all_projects@.len(),
                    i <= n,
                    picked@.len() == n,
                    remaining == count_unpicked(picked@),
                    remaining <= rem0,
                    changed ==> remaining < rem0,
                    id_views(out@).len() >= 1,
                    id_views(out@)[0] == root_project_id@,
                    forall|p: int, q: int|
                        0 <= p < q < out@.len() ==> id_views(out@)[p] != id_views(out@)[q],
                    forall|j: int|
                        1 <= j < out@.len() ==> descendant_witness(
                            all_projects@,
                            id_views(out@),
                            #[trigger] id_views(out@)[j],
                        ),
                    forall|k: int|
                        0 <= k < n && #[trigger] picked@[k] ==> id_views(out@).contains(
                            all_projects@[k].id@,
                        ),
                    !changed ==> forall|k: int|
                        0 <= k < i && !(#[trigger] picked@[k]) ==> !parent_reached_spec(
                            all_projects@[k],
                            id_views(out@),
                        ),
                decreases n - i,
            {
                if !picked[i] {
                    let node = &all_projects[i];
                    let parent_reached = match &node.parent_id {
                        Some(p) => vec_contains_str(&out, p.as_str()),
                        None => false,
                    };
                    if parent_reached {
                        let ghost old_views = id_views(out@);
                        if !vec_contains_str(&out, node.id.as_str()) {
                            out.push(node.id.clone());
                            proof {
                                let new_views = id_views(out@);
                                assert(new_views =~= old_views.push(
                                    all_projects@[i as int].id@,
                                ));
                                assert forall|x: Seq<char>| old_views.contains(
                                    x,
                                ) implies new_views.contains(x) by {
                                    let w = choose|w: int|
                                        0 <= w < old_views.len() && old_views[w] == x;
                                    assert(new_views[w] == x);
                                }
                                assert(new_views.contains(all_projects@[i as int].id@)) by {
                                    assert(new_views[new_views.len() - 1]
                                        == all_projects@[i as int].id@);
                                }
                                // earlier members keep their witnesses
                                assert forall|j: int| 1 <= j < out@.len() implies descendant_witness(
                                    all_projects@,
                                    id_views(out@),
                                    id_views(out@)[j],
                                ) by {
                                    if j < out@.len() - 1 {
                                        assert(descendant_witness(
                                            all_projects@,
                                            old_views,
                                            old_views[j],
                                        ));
                                        let w = choose|w: int|
                                            0 <= w < n && (#[trigger] all_projects@[w]).id@
                                                == old_views[j] && parent_reached_spec(
                                                all_projects@[w],
                                                old_views,
                                            );
                                        assert((all_projects@[w]).id@ == id_views(out@)[j]);
                                        assert(parent_reached_spec(
                                            all_projects@[w],
                                            id_views(out@),
                                        ));
                                    } else {
                                        let w = i as int;
                                        assert((all_projects@[w]).id@ == id_views(out@)[j]);
                                        assert(parent_reached_spec(
                                            all_projects@[w],
                                            id_views(out@),
                                        ));
                                    }
                                }
                            }
                        } else {
                            proof {
                                assert(id_views(out@).contains(all_projects@[i as int].id@));
                            }
                        }
                        proof {
                            lemma_count_unpicked_at_least_one(picked@, i as int);
                            lemma_count_unpicked_update(picked@, i as int);
                        }
                        picked.set(i, true);
                        remaining = remaining - 1;
                        changed = true;
                    }
                }
                i = i + 1;
            }
        }
        proof {
            assert forall|i: int|
                0 <= i < n && parent_reached_spec(
                    #[trigger] all_projects@[i],
                    id_views(out@),
                ) implies id_views(out@).contains(all_projects@[i].id@) by {
                if picked@[i] {
                } else {
                }
            }
        }
        out
    }
}

proof fn lemma_count_unpicked_all_false(s: Seq<bool>)
    requires
        forall|i: int| 0 <= i < s.len() ==> !s[i],
    ensures
        count_unpicked(s) == s.len(),
    decreases s.len(),
{
    if s.len() > 0 {
        lemma_count_unpicked_all_false(s.drop_last());
    }
}

} // verus!
