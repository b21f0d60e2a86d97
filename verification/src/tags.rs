//! Tag naming rules shared by the task and project tag junctions.

use vstd::prelude::*;
use vstd::string::*;
use crate::text::{str_eq, trim_spec, trim_str};

verus! {

/// Which junction a tag operation addresses.
#[derive(Clone, Copy, Debug, PartialEq, Eq, Structural)]
pub enum TagEntity {
    Task,
    Project,
}

impl TagEntity {
    /// The junction table this entity's tags live in.
    pub fn table(&self) -> (r: &'static str)
        ensures
            *self is Task ==> r@ == "task_tags"@,
            *self is Project ==> r@ == "project_tags"@,
    {
        match self {
            TagEntity::Task => "task_tags",
            TagEntity::Project => "project_tags",
        }
    }

    /// The junction column naming the owning row.
    pub fn owner_column(&self) -> (r: &'static str)
        ensures
            *self is Task ==> r@ == "task_id"@,
            *self is Project ==> r@ == "project_id"@,
    {
        match self {
            TagEntity::Task => "task_id",
            TagEntity::Project => "project_id",
        }
    }
}

/// Tag names trimmed, with empties dropped and only the first occurrence of
/// each name kept, in input order.
pub open spec fn normalize_tags_spec(tags: Seq<Seq<char>>) -> Seq<Seq<char>>
    decreases tags.len(),
{
    if tags.len() == 0 {
        Seq::empty()
    } else {
        let done = normalize_tags_spec(tags.drop_last());
        let t = trim_spec(tags.last());
        if t.len() == 0 || done.contains(t) {
            done
        } else {
            done.push(t)
        }
    }
}

/// Whether `out` holds a string whose view is `t`.
fn contains_str(out: &Vec<String>, t: &str) -> (r: bool)
    ensures
        r == out@.map_values(|s: String| s@).contains(t@),
{
    let ghost views = out@.map_values(|s: String| s@);
    let mut i: usize = 0;
    while i < out.len()
        invariant
            views == out@.map_values(|s: String| s@),
            i <= out@.len(),
            forall|j: int| 0 <= j < i ==> views[j] != t@,
        decreases out@.len() - i,
    {
        if str_eq(out[i].as_str(), t) {
            proof {
                assert(views[i as int] == t@);
            }
            return true;
        }
        i = i + 1;
    }
    proof {
        if views.contains(t@) {
            let j = choose|j: int| 0 <= j < views.len() && views[j] == t@;
            assert(false);
        }
    }
    false
}

/// Trim the names, drop those that trim to nothing, and keep only the first
/// occurrence of each remaining name.
pub fn normalize_tag_names(tags: &Vec<String>) -> (r: Vec<String>)
    ensures
        r@.map_values(|s: String| s@) == normalize_tags_spec(
            tags@.map_values(|s: String| s@),
        ),
{
    let ghost views = tags@.map_values(|s: String| s@);
    let mut out: Vec<String> = Vec::new();
    let mut i: usize = 0;
    while i < tags.len()
        invariant
            views == tags@.map_values(|s: String| s@),
            i <= tags@.len(),
            out@.map_values(|s: String| s@) == normalize_tags_spec(views.subrange(0, i as int)),
        decreases tags@.len() - i,
    {
        let t = trim_str(tags[i].as_str());
        proof {
            let pref = views.subrange(0, i + 1);
            assert(pref.drop_last() =~= views.subrange(0, i as int));
            assert(pref.last() == views[i as int]);
        }
        let keep = if t.as_str().unicode_len() == 0 {
            false
        } else {
            !contains_str(&out, t.as_str())
        };
        if keep {
            let ghost before = out@.map_values(|s: String| s@);
            out.push(t);
            proof {
                assert(out@.map_values(|s: String| s@) =~= before.push(
                    trim_spec(views[i as int]),
                ));
            }
        }
        i = i + 1;
    }
    proof {
        assert(views.subrange(0, views.len() as int) =~= views);
    }
    out
}

} // verus!
