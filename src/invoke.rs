use crate::model::{
    CitationModel, ErrorModel, OutcomeModel, SearchOutcome, SearchResponse, ToolError,
    WebSearchToolInput,
};
use vstd::prelude::*;
use vstd::string::*;

verus! {

#[verifier::external_type_specification]
#[verifier::external_body]
pub struct ExJsonValue(serde_json::Value);

#[verifier::external_type_specification]
#[verifier::external_body]
pub struct ExJsonError(serde_json::Error);

/// The JSON text of a search response that holds these citations.
pub uninterp spec fn json_of_results(results: Seq<CitationModel>) -> Seq<char>;

/// Relies on serde_json::to_string, applied to zed_llm_client's
/// WebSearchResponse built field for field from `response`: the text is the
/// JSON writing of those citations, and depends on them alone. It succeeds:
/// serde_json fails only where a `Serialize` impl chooses to or a map has
/// keys that are not strings, and the derived impl of that type, over
/// vectors and strings alone, does neither.
#[verifier::external_body]
fn response_json(response: &SearchResponse) -> (r: Result<String, serde_json::Error>)
    ensures
        r is Ok,
        r matches Ok(s) ==> s@ == json_of_results(response@),
{
    let results = response.citations.iter().map(
        |c| zed_llm_client::WebSearchResult {
            title: c.title.clone(),
            url: c.url.clone(),
            text: c.text.clone(),
        },
    ).collect();
    serde_json::to_string(&zed_llm_client::WebSearchResponse { results })
}

/// A result of the tool, as values.
pub open spec fn output_model(r: Result<String, ToolError>) -> Result<Seq<char>, ErrorModel> {
    match r {
        Ok(s) => Ok(s@),
        Err(e) => Err(e@),
    }
}

/// The result that the background path gives for an outcome: the JSON text
/// of the citations for a response, the provider's own message for a
/// failure.
pub open spec fn background_result(o: OutcomeModel) -> Result<Seq<char>, ErrorModel> {
    match o {
        OutcomeModel::Found(cs) => Ok(json_of_results(cs)),
        OutcomeModel::Failed(m) => Err(ErrorModel::SearchFailed(m)),
    }
}

/// The text result of a serialization attempt: the text itself, or the
/// serialization error.
pub fn finish_output(serialized: Result<String, serde_json::Error>) -> (r: Result<
    String,
    ToolError,
>)
    ensures
        serialized matches Ok(s) ==> output_model(r) == Ok::<Seq<char>, ErrorModel>(s@),
        serialized is Err ==> output_model(r) == Err::<Seq<char>, ErrorModel>(
            ErrorModel::SerializationFailed,
        ),
{
    match serialized {
        Ok(s) => Ok(s),
        Err(_) => Err(ToolError::SerializationFailed),
    }
}

/// The text result that the assistant receives for the outcome of its search.
pub fn background_output(outcome: &SearchOutcome) -> (r: Result<String, ToolError>)
    ensures
        output_model(r) == background_result(outcome@),
{
    match outcome {
        SearchOutcome::Found(response) => finish_output(response_json(response)),
        SearchOutcome::Failed(message) => Err(ToolError::SearchFailed(message.clone())),
    }
}

pub open spec fn tool_name() -> Seq<char> {
    "web_search"@
}

pub open spec fn tool_description() -> Seq<char> {
    "Search the web for information using your query. Use this when you need real-time information, facts, or data that might not be in your training. Results will include snippets and links from relevant web pages."@
}

pub open spec fn tool_ui_text() -> Seq<char> {
    "Web Search"@
}

/// The outcome of the synchronous part of an invocation: the text of the one
/// search to start, or the error that ends it before any search.
pub open spec fn run_outcome(decoded: Result<Seq<char>, Seq<char>>, provider_active: bool) -> Result<
    Seq<char>,
    ErrorModel,
> {
    match decoded {
        Err(m) => Err(ErrorModel::InvalidInput(m)),
        Ok(q) => if provider_active {
            Ok(q)
        } else {
            Err(ErrorModel::Unavailable)
        },
    }
}

pub open spec fn decoded_model(decoded: Result<WebSearchToolInput, String>) -> Result<
    Seq<char>,
    Seq<char>,
> {
    match decoded {
        Ok(i) => Ok(i@),
        Err(m) => Err(m@),
    }
}

/// The result of `run`, as values: the query of the search, or the error.
pub open spec fn run_model<P>(r: Result<(String, P), ToolError>) -> Result<Seq<char>, ErrorModel> {
    match r {
        Ok((q, _)) => Ok(q@),
        Err(e) => Err(e@),
    }
}

/// The web-search tool.
pub struct WebSearchTool;

impl WebSearchTool {
    pub fn name(&self) -> (r: String)
        ensures
            r@ == tool_name(),
    {
        proof {
            reveal_strlit("web_search");
        }
        String::from_str("web_search")
    }

    /// A search is started without asking the user first.
    pub fn needs_confirmation(&self, input: &serde_json::Value) -> (r: bool)
        ensures
            !r,
    {
        false
    }

    pub fn description(&self) -> (r: String)
        ensures
            r@ == tool_description(),
    {
        proof {
            reveal_strlit(
                "Search the web for information using your query. Use this when you need real-time information, facts, or data that might not be in your training. Results will include snippets and links from relevant web pages.",
            );
        }
        String::from_str(
            "Search the web for information using your query. Use this when you need real-time information, facts, or data that might not be in your training. Results will include snippets and links from relevant web pages.",
        )
    }

    pub fn ui_text(&self, input: &serde_json::Value) -> (r: String)
        ensures
            r@ == tool_ui_text(),
    {
        proof {
            reveal_strlit("Web Search");
        }
        String::from_str("Web Search")
    }

    /// Decides an invocation from its decoded input and the active search
    /// provider, if any: a decoding error ends it first, then a missing
    /// provider; otherwise the result is the query of the one search to
    /// start, with the provider that is to run it.
    pub fn run<P>(&self, decoded: Result<WebSearchToolInput, String>, provider: Option<P>) -> (r:
        Result<(String, P), ToolError>)
        ensures
            run_model(r) == run_outcome(decoded_model(decoded), provider is Some),
            r matches Ok((_, p)) ==> provider == Some(p),
    {
        match decoded {
            Err(message) => Err(ToolError::InvalidInput(message)),
            Ok(input) => match provider {
                Some(p) => Ok((input.into_query(), p)),
                None => Err(ToolError::Unavailable),
            },
        }
    }
}

} // verus!
