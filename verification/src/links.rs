//! Link input validation and normalization, shared by the task and project
//! link junctions.

use vstd::prelude::*;
use vstd::string::*;
use crate::dto::{clone_opt_string, opt_str_view, LinkInputDto};
use crate::error::AppError;
use crate::text::{str_eq, trim_spec, trim_str};

verus! {

/// Which junction a link operation addresses.
#[derive(Clone, Copy, Debug, PartialEq, Eq, Structural)]
pub enum LinkEntity {
    Task,
    Project,
}

impl LinkEntity {
    /// The junction table this entity's links live in.
    pub fn junction_table(&self) -> (r: &'static str)
        ensures
            *self is Task ==> r@ == "task_links"@,
            *self is Project ==> r@ == "project_links"@,
    {
        match self {
            LinkEntity::Task => "task_links",
            LinkEntity::Project => "project_links",
        }
    }

    /// The junction column naming the owning row.
    pub fn owner_column(&self) -> (r: &'static str)
        ensures
            *self is Task ==> r@ == "task_id"@,
            *self is Project ==> r@ == "project_id"@,
    {
        match self {
            LinkEntity::Task => "task_id",
            LinkEntity::Project => "project_id",
        }
    }
}

/// A link input with its fields trimmed, its title defaulted to the URL and
/// its rank defaulted.
#[derive(Clone, Debug)]
pub struct NormalizedLinkInput {
    pub id: Option<String>,
    pub title: String,
    pub url: String,
    pub kind: String,
    pub rank: i64,
}

/// The accepted link kinds, after trimming.
pub open spec fn link_kind_ok(k: Seq<char>) -> bool {
    ||| k == "doc"@
    ||| k == "repoLocal"@
    ||| k == "repoRemote"@
    ||| k == "web"@
    ||| k == "design"@
    ||| k == "other"@
}

/// Whether one link input passes validation: a non-empty URL and a known
/// kind.
pub open spec fn link_input_ok(l: LinkInputDto) -> bool {
    trim_spec(l.url@).len() > 0 && link_kind_ok(trim_spec(l.kind@))
}

/// How a valid input maps to its normalized form.
pub open spec fn link_normalized(o: NormalizedLinkInput, l: LinkInputDto) -> bool {
    &&& opt_str_view(o.id) == opt_str_view(l.id)
    &&& o.url@ == trim_spec(l.url@)
    &&& o.kind@ == trim_spec(l.kind@)
    &&& o.title@ == if trim_spec(l.title@).len() == 0 {
        trim_spec(l.url@)
    } else {
        trim_spec(l.title@)
    }
    &&& o.rank == match l.rank {
        Some(v) => v,
        None => 1024i64,
    }
}

/// Validate and normalize every link input, in order; the first input with
/// an empty URL or an unknown kind rejects the whole batch.
pub fn normalize_link_inputs(links: &Vec<LinkInputDto>) -> (r: Result<
    Vec<NormalizedLinkInput>,
    AppError,
>)
    ensures
        match r {
            Ok(v) => {
                &&& v@.len() == links@.len()
                &&& forall|i: int|
                    0 <= i < links@.len() ==> link_input_ok(#[trigger] links@[i])
                        && link_normalized(v@[i], links@[i])
            },
            Err(e) => {
                &&& e is Validation
                &&& exists|i: int| 0 <= i < links@.len() && !link_input_ok(#[trigger] links@[i])
            },
        },
{
    let mut out: Vec<NormalizedLinkInput> = Vec::new();
    let mut i: usize = 0;
    while i < links.len()
        invariant
            i <= links@.len(),
            out@.len() == i,
            forall|j: int|
                0 <= j < i ==> link_input_ok(#[trigger] links@[j]) && link_normalized(
                    out@[j],
                    links@[j],
                ),
        decreases links@.len() - i,
    {
        let l = &links[i];
        let url = trim_str(l.url.as_str());
        if url.as_str().unicode_len() == 0 {
            proof {
                assert(!link_input_ok(links@[i as int]));
            }
            return Err(AppError::Validation("links.url must not be empty".to_owned()));
        }
        let kind = trim_str(l.kind.as_str());
        let kind_known = str_eq(kind.as_str(), "doc") || str_eq(kind.as_str(), "repoLocal")
            || str_eq(kind.as_str(), "repoRemote") || str_eq(kind.as_str(), "web") || str_eq(
            kind.as_str(),
            "design",
        ) || str_eq(kind.as_str(), "other");
        if !kind_known {
            proof {
                assert(!link_input_ok(links@[i as int]));
            }
            return Err(AppError::Validation("links.kind is not recognized".to_owned()));
        }
        let title = trim_str(l.title.as_str());
        let resolved_title = if title.as_str().unicode_len() == 0 {
            url.clone()
        } else {
            title
        };
        let rank = match l.rank {
            Some(v) => v,
            None => 1024,
        };
        out.push(
            NormalizedLinkInput {
                id: clone_opt_string(&l.id),
                title: resolved_title,
                url,
                kind,
                rank,
            },
        );
        i = i + 1;
    }
    Ok(out)
}

} // verus!
