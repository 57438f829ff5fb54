use crate::card::{after_completion, CardModel};
use crate::invoke::{background_result, decoded_model, json_of_results, run_outcome};
use crate::model::{error_text, CitationModel, ErrorModel, OutcomeModel, WebSearchToolInput};
use crate::render::{count_text, decimal, failed_text, rows_of, view_of, CardViewModel};
use vstd::prelude::*;

verus! {

/// When the input does not decode, the invocation fails with the decoder's
/// message whatever the provider registry holds, and starts no search.
pub proof fn lemma_bad_input_starts_nothing(message: Seq<char>, provider_active: bool)
    ensures
        run_outcome(Err(message), provider_active) == Err::<Seq<char>, ErrorModel>(
            ErrorModel::InvalidInput(message),
        ),
{
}

/// With no active provider, a well-formed input gives the availability error
/// and starts no search.
pub proof fn lemma_no_provider_unavailable(query: Seq<char>)
    ensures
        run_outcome(Ok(query), false) == Err::<Seq<char>, ErrorModel>(ErrorModel::Unavailable),
        error_text(ErrorModel::Unavailable) == "Web search is not available."@,
{
}

/// A response with citations `cs` reaches both observers alike: the
/// background path succeeds with the JSON of exactly `cs`, whatever their
/// number, and the card succeeds with `cs`, shows their count and one row per
/// citation, in order.
pub proof fn lemma_citations_reach_both(cs: Seq<CitationModel>)
    ensures
        background_result(OutcomeModel::Found(cs)) == Ok::<Seq<char>, ErrorModel>(
            json_of_results(cs),
        ),
        after_completion(CardModel::Pending, OutcomeModel::Found(cs)) == CardModel::Succeeded(cs),
        view_of(CardModel::Succeeded(cs)) matches CardViewModel::Searched(_, count, rows) && count
            == count_text(cs.len()) && rows.len() == cs.len() && (forall|i: int|
            0 <= i < cs.len() ==> #[trigger] rows[i] == (cs[i].0, cs[i].1)),
{
}

/// A provider failure reaches both observers with the same text: the
/// background path fails with the provider's message, and the card fails
/// and shows that message on demand.
pub proof fn lemma_failure_reaches_both(m: Seq<char>)
    ensures
        background_result(OutcomeModel::Failed(m)) matches Err(e) && error_text(e) == m,
        after_completion(CardModel::Pending, OutcomeModel::Failed(m)) == CardModel::Failed(m),
        view_of(CardModel::Failed(m)) == CardViewModel::Failed(failed_text(), m),
{
}

/// Exactly one citation is worded in the singular; any other count is
/// written out in decimal and worded in the plural.
pub proof fn lemma_count_wording(n: nat)
    ensures
        n == 1 ==> count_text(n) == "1 result"@,
        n != 1 ==> count_text(n) == decimal(n) + " results"@,
{
}

/// Once a card holds an outcome, a later completion leaves it as it is.
pub proof fn lemma_completion_is_terminal(s: CardModel, first: OutcomeModel, second: OutcomeModel)
    ensures
        after_completion(after_completion(s, first), second) == after_completion(s, first),
        after_completion(s, first) != CardModel::Pending,
{
}

/// A decoded input is searched for exactly as given when a provider is
/// active.
pub proof fn lemma_query_passed_through(input: WebSearchToolInput)
    ensures
        run_outcome(decoded_model(Ok(input)), true) == Ok::<Seq<char>, ErrorModel>(input@),
{
}

} // verus!
