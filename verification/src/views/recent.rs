//! What the page of recent links shows.

use vstd::prelude::*;

use crate::backend::RecentLink;

verus! {

/// Shown when no link exists yet.
pub const NO_LINKS_NOTICE: &'static str = "No links yet — make one!";

/// Shown when the list could not be loaded.
pub const LOAD_FAILED_NOTICE: &'static str = "Failed to load recent links.";

/// Shown while the list is loading.
pub const LOADING_NOTICE: &'static str = "Loading…";

/// What the page shows.
pub enum RecentView {
    /// The links, in the order given.
    Links(Vec<RecentLink>),
    /// A line of text in place of the list.
    Notice(&'static str),
}

/// Decides what the page shows from the state of the request for recent
/// links: `None` while loading, then the links or a failure.
pub fn recent_view(state: Option<Result<Vec<RecentLink>, ()>>) -> (v: RecentView)
    ensures
        match state {
            Some(Ok(links)) => if links.len() > 0 {
                v matches RecentView::Links(shown) && shown@ == links@
            } else {
                v matches RecentView::Notice(t) && t@ == NO_LINKS_NOTICE@
            },
            Some(Err(())) => v matches RecentView::Notice(t) && t@ == LOAD_FAILED_NOTICE@,
            None => v matches RecentView::Notice(t) && t@ == LOADING_NOTICE@,
        },
{
    match state {
        Some(Ok(links)) => {
            if links.len() > 0 {
                RecentView::Links(links)
            } else {
                RecentView::Notice(NO_LINKS_NOTICE)
            }
        },
        Some(Err(())) => RecentView::Notice(LOAD_FAILED_NOTICE),
        None => RecentView::Notice(LOADING_NOTICE),
    }
}

} // verus!
