//! A web-search tool for an assistant: the decisions of an invocation, the
//! observer card that tracks one search, and what the card shows.

mod card;
mod invoke;
mod laws;
mod model;
mod render;

pub use model::{
    citations_model, error_text, serialization_text, unavailable_text, Citation, CitationModel,
    ErrorModel, OutcomeModel, SearchOutcome, SearchResponse, ToolError, WebSearchToolInput,
};
pub use card::{after_completion, resolved, CardModel, CardState, WebSearchToolCard};
pub use render::{
    citation_rows, count_label, count_text, decimal, digit_char, failed_text, push_decimal,
    rows_model, rows_of, searched_text, searching_text, view_of, CardView, CardViewModel,
    CitationRow, RowModel,
};
pub use invoke::{
    background_output, background_result, decoded_model, finish_output, json_of_results,
    output_model, run_model, run_outcome, tool_description, tool_name, tool_ui_text, WebSearchTool,
};
pub use laws::{
    lemma_bad_input_starts_nothing, lemma_citations_reach_both, lemma_completion_is_terminal,
    lemma_count_wording, lemma_failure_reaches_both, lemma_no_provider_unavailable,
    lemma_query_passed_through,
};
