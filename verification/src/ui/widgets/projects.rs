//! Text of the Projects pane.
use vstd::prelude::*;

use crate::boinc::models::Project;
use crate::text::{cat, join, string_of};

verus! {

/// The state tags of a project: `suspended` and `no-new-work` when they
/// apply, else `ready`.
pub open spec fn state_tags(suspended: bool, no_new_work: bool) -> Seq<Seq<char>> {
    let tags = (if suspended {
        seq!["suspended"@]
    } else {
        Seq::empty()
    }) + (if no_new_work {
        seq!["no-new-work"@]
    } else {
        Seq::empty()
    });
    if tags.len() == 0 {
        seq!["ready"@]
    } else {
        tags
    }
}

/// The tags, each in brackets, separated by spaces.
pub open spec fn bracketed(tags: Seq<Seq<char>>) -> Seq<char> {
    "["@ + join(tags, "] ["@) + "]"@
}

/// Renders the bracketed state tags of a project, e.g. `[suspended]
/// [no-new-work]` or `[ready]`.
pub fn project_state_tags(project: &Project) -> (r: String)
    ensures
        r@ == bracketed(state_tags(project.suspended_via_gui, project.dont_request_more_work)),
{
    let inner = if project.suspended_via_gui && project.dont_request_more_work {
        string_of("suspended] [no-new-work")
    } else if project.suspended_via_gui {
        string_of("suspended")
    } else if project.dont_request_more_work {
        string_of("no-new-work")
    } else {
        string_of("ready")
    };
    proof {
        let tags = state_tags(project.suspended_via_gui, project.dont_request_more_work);
        if project.suspended_via_gui && project.dont_request_more_work {
            assert(tags =~= seq!["suspended"@, "no-new-work"@]);
            assert(tags.drop_last() =~= seq!["suspended"@]);
            reveal_strlit("suspended] [no-new-work");
            reveal_strlit("suspended");
            reveal_strlit("no-new-work");
            reveal_strlit("] [");
            assert(join(tags.drop_last(), "] ["@) == "suspended"@);
            assert(join(tags, "] ["@) == "suspended"@ + "] ["@ + "no-new-work"@);
            assert("suspended"@ + "] ["@ + "no-new-work"@ =~= "suspended] [no-new-work"@);
        } else if project.suspended_via_gui {
            assert(tags =~= seq!["suspended"@]);
        } else if project.dont_request_more_work {
            assert(tags =~= seq!["no-new-work"@]);
        } else {
            assert(tags =~= seq!["ready"@]);
        }
    }
    let r = cat(string_of("["), inner.as_str());
    cat(r, "]")
}

/// One line of the Projects pane: `name [tags] (url)`.
pub open spec fn project_line(p: Project) -> Seq<char> {
    p.name@ + " "@ + bracketed(state_tags(p.suspended_via_gui, p.dont_request_more_work)) + " ("@
        + p.url@ + ")"@
}

/// Renders one line of the Projects pane.
pub fn project_item(project: &Project) -> (r: String)
    ensures
        r@ == project_line(*project),
{
    let r = cat(project.name.clone(), " ");
    let r = cat(r, project_state_tags(project).as_str());
    let r = cat(r, " (");
    let r = cat(r, project.url.as_str());
    cat(r, ")")
}

} // verus!
