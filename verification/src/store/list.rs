//! Listing the patterns of an owner, without their steps, newest first.

use crate::models::{summary_views, text_of, TB303PatternSummary, TB303PatternSummaryView};
use crate::store::errors::ListPatternsError;
use crate::store::protocol::{
    summary_row_views, Fault, Reply, ReplyView, Request, RequestView, SummaryRowView,
};
use vstd::prelude::*;
use vstd::string::*;

verus! {

/// The listed pattern that a row reads back as. A row says whether the
/// pattern is public; one that does not cannot be listed.
pub open spec fn summary_of(row: SummaryRowView) -> TB303PatternSummaryView
    recommends
        row.is_public is Some,
{
    TB303PatternSummaryView {
        pattern_id: row.pattern_id,
        name: row.name,
        author: row.author,
        title: row.title,
        is_public: row.is_public->0,
        created_at: row.created_at,
        updated_at: row.updated_at,
    }
}

/// Whether every row says if its pattern is public.
pub open spec fn all_say_visibility(rows: Seq<SummaryRowView>) -> bool {
    forall|i: int| 0 <= i < rows.len() ==> (#[trigger] rows[i]).is_public is Some
}

/// The listing that a reply gives: the rows as listed patterns, in the order
/// of the rows. A reply of another kind, or a row that does not say whether
/// its pattern is public, is a fault.
pub open spec fn listed(reply: ReplyView) -> Result<
    Seq<TB303PatternSummaryView>,
    ListPatternsError,
> {
    match reply {
        ReplyView::Summaries(rows) => if all_say_visibility(rows) {
            Ok(Seq::new(rows.len(), |i: int| summary_of(rows[i])))
        } else {
            Err(ListPatternsError::UnexpectedError(Fault::List))
        },
        _ => Err(ListPatternsError::UnexpectedError(Fault::List)),
    }
}

fn copy_text(field: &Option<String>) -> (copy: Option<String>)
    ensures
        text_of(copy) == text_of(*field),
{
    match field {
        Some(text) => Some(String::from_str(text.as_str())),
        None => None,
    }
}

/// The request that reads what a listing for `user_id` shows.
pub fn list_tb303_patterns(user_id: u128) -> (request: Request)
    ensures
        request@ == (RequestView::SelectSummaries { user_id }),
{
    Request::SelectSummaries { user_id }
}

/// Turns the reply to a listing request into the listed patterns.
pub fn fetch_pattern_list(reply: &Reply) -> (list: Result<
    Vec<TB303PatternSummary>,
    ListPatternsError,
>)
    ensures
        match list {
            Ok(patterns) => listed(reply@) == Ok::<_, ListPatternsError>(summary_views(patterns@)),
            Err(error) => listed(reply@) == Err::<Seq<TB303PatternSummaryView>, _>(error),
        },
{
    match reply {
        Reply::Summaries(rows) => {
            let ghost views = summary_row_views(rows@);
            let mut patterns_response: Vec<TB303PatternSummary> = Vec::new();
            let mut i: usize = 0;
            while i < rows.len()
                invariant
                    i <= rows.len(),
                    reply@ == ReplyView::Summaries(views),
                    views == summary_row_views(rows@),
                    patterns_response.len() == i,
                    forall|j: int| 0 <= j < i ==> (#[trigger] views[j]).is_public is Some,
                    forall|j: int|
                        0 <= j < i ==> (#[trigger] patterns_response[j])@ == summary_of(views[j]),
                decreases rows.len() - i,
            {
                let pattern = &rows[i];
                assert(views[i as int] == pattern@);
                match pattern.is_public {
                    Some(is_public) => {
                        patterns_response.push(
                            TB303PatternSummary {
                                pattern_id: pattern.pattern_id,
                                name: String::from_str(pattern.name.as_str()),
                                author: copy_text(&pattern.author),
                                title: copy_text(&pattern.title),
                                is_public,
                                created_at: pattern.created_at,
                                updated_at: pattern.updated_at,
                            },
                        );
                    },
                    None => {
                        assert(views[i as int].is_public is None);
                        return Err(ListPatternsError::UnexpectedError(Fault::List));
                    },
                }
                i = i + 1;
            }
            assert(summary_views(patterns_response@) =~= Seq::new(
                views.len(),
                |i: int| summary_of(views[i]),
            ));
            Ok(patterns_response)
        },
        _ => Err(ListPatternsError::UnexpectedError(Fault::List)),
    }
}

} // verus!
