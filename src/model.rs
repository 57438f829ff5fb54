use vstd::prelude::*;
use vstd::string::*;

verus! {

/// What a citation holds, as values: its title, its URL and its snippet text.
pub type CitationModel = (Seq<char>, Seq<char>, Seq<char>);

/// One entry of a search response.
pub struct Citation {
    pub title: String,
    pub url: String,
    pub text: String,
}

impl View for Citation {
    type V = CitationModel;

    open spec fn view(&self) -> CitationModel {
        (self.title@, self.url@, self.text@)
    }
}

impl Citation {
    pub fn new(title: String, url: String, text: String) -> (r: Citation)
        ensures
            r@ == (title@, url@, text@),
    {
        Citation { title, url, text }
    }
}

/// The models of a sequence of citations, in the same order.
pub open spec fn citations_model(cs: Seq<Citation>) -> Seq<CitationModel> {
    cs.map_values(|c: Citation| c@)
}

/// The structured response of a search: the citations in the provider's order.
pub struct SearchResponse {
    pub citations: Vec<Citation>,
}

impl View for SearchResponse {
    type V = Seq<CitationModel>;

    open spec fn view(&self) -> Seq<CitationModel> {
        citations_model(self.citations@)
    }
}

impl SearchResponse {
    pub fn new(citations: Vec<Citation>) -> (r: SearchResponse)
        ensures
            r@ == citations_model(citations@),
    {
        SearchResponse { citations }
    }

    pub fn len(&self) -> (r: usize)
        ensures
            r == self@.len(),
    {
        self.citations.len()
    }
}

/// What a search outcome is, as values.
pub enum OutcomeModel {
    Found(Seq<CitationModel>),
    Failed(Seq<char>),
}

/// The one outcome of a search: its response, or the provider's error text.
pub enum SearchOutcome {
    Found(SearchResponse),
    Failed(String),
}

impl View for SearchOutcome {
    type V = OutcomeModel;

    open spec fn view(&self) -> OutcomeModel {
        match self {
            SearchOutcome::Found(r) => OutcomeModel::Found(r@),
            SearchOutcome::Failed(m) => OutcomeModel::Failed(m@),
        }
    }
}

/// The input of the tool: the text to search for.
pub struct WebSearchToolInput {
    query: String,
}

impl View for WebSearchToolInput {
    type V = Seq<char>;

    closed spec fn view(&self) -> Seq<char> {
        self.query@
    }
}

impl WebSearchToolInput {
    pub fn new(query: String) -> (r: WebSearchToolInput)
        ensures
            r@ == query@,
    {
        WebSearchToolInput { query }
    }

    /// The search term or question to query on the web.
    pub fn query(&self) -> (r: &String)
        ensures
            r@ == self@,
    {
        &self.query
    }

    pub fn into_query(self) -> (r: String)
        ensures
            r@ == self@,
    {
        self.query
    }
}

/// What an error of the tool is, as values.
pub enum ErrorModel {
    InvalidInput(Seq<char>),
    Unavailable,
    SearchFailed(Seq<char>),
    SerializationFailed,
}

/// Why an invocation of the tool gave no result text.
pub enum ToolError {
    /// The raw input did not decode into a query; holds the decoder's message.
    InvalidInput(String),
    /// No search provider is active.
    Unavailable,
    /// The provider failed; holds its message.
    SearchFailed(String),
    /// The response could not be written as text.
    SerializationFailed,
}

impl View for ToolError {
    type V = ErrorModel;

    open spec fn view(&self) -> ErrorModel {
        match self {
            ToolError::InvalidInput(m) => ErrorModel::InvalidInput(m@),
            ToolError::Unavailable => ErrorModel::Unavailable,
            ToolError::SearchFailed(m) => ErrorModel::SearchFailed(m@),
            ToolError::SerializationFailed => ErrorModel::SerializationFailed,
        }
    }
}

pub open spec fn unavailable_text() -> Seq<char> {
    "Web search is not available."@
}

pub open spec fn serialization_text() -> Seq<char> {
    "Failed to serialize search results"@
}

/// The text an error shows.
pub open spec fn error_text(e: ErrorModel) -> Seq<char> {
    match e {
        ErrorModel::InvalidInput(m) => m,
        ErrorModel::Unavailable => unavailable_text(),
        ErrorModel::SearchFailed(m) => m,
        ErrorModel::SerializationFailed => serialization_text(),
    }
}

impl ToolError {
    /// The text that this error shows.
    pub fn message(&self) -> (r: String)
        ensures
            r@ == error_text(self@),
    {
        match self {
            ToolError::InvalidInput(m) => m.clone(),
            ToolError::Unavailable => {
                proof {
                    reveal_strlit("Web search is not available.");
                }
                String::from_str("Web search is not available.")
            },
            ToolError::SearchFailed(m) => m.clone(),
            ToolError::SerializationFailed => {
                proof {
                    reveal_strlit("Failed to serialize search results");
                }
                String::from_str("Failed to serialize search results")
            },
        }
    }
}

} // verus!
