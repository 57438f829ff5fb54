use std::sync::atomic::{AtomicUsize, Ordering};
use std::sync::Arc;

use futures::FutureExt;
use web_search_tool::{
    background_output, count_label, finish_output, push_decimal, CardState, CardView, Citation,
    SearchOutcome, SearchResponse, ToolError, WebSearchTool, WebSearchToolCard,
    WebSearchToolInput,
};

fn citation(title: &str, url: &str) -> Citation {
    Citation::new(title.to_string(), url.to_string(), format!("about {}", title))
}

fn response(n: usize) -> SearchResponse {
    let mut citations = Vec::new();
    for i in 0..n {
        citations.push(citation(&format!("Title {}", i), &format!("https://example.com/{}", i)));
    }
    SearchResponse::new(citations)
}

#[test]
fn tool_metadata() {
    let tool = WebSearchTool;
    let input = serde_json::Value::Null;
    assert_eq!(tool.name(), "web_search");
    assert!(!tool.needs_confirmation(&input));
    assert_eq!(tool.ui_text(&input), "Web Search");
    assert!(tool.description().starts_with("Search the web for information using your query."));
}

#[test]
fn run_rejects_bad_input_before_provider() {
    let tool = WebSearchTool;
    for provider in [None, Some("provider")] {
        let r = tool.run(Err("missing field `query`".to_string()), provider);
        match r {
            Err(ToolError::InvalidInput(m)) => assert_eq!(m, "missing field `query`"),
            _ => panic!("expected a decoding error"),
        }
    }
}

#[test]
fn run_without_provider_is_unavailable() {
    let tool = WebSearchTool;
    let r = tool.run(Ok(WebSearchToolInput::new("rust".to_string())), None::<&str>);
    match r {
        Err(e) => {
            assert!(matches!(e, ToolError::Unavailable));
            assert_eq!(e.message(), "Web search is not available.");
        }
        Ok(_) => panic!("expected the availability error"),
    }
}

#[test]
fn run_passes_query_through() {
    let tool = WebSearchTool;
    let r = tool.run(Ok(WebSearchToolInput::new("verus verifier".to_string())), Some(7u32));
    assert_eq!(r.ok(), Some(("verus verifier".to_string(), 7u32)));
}

#[test]
fn one_search_for_many_observers() {
    let tool = WebSearchTool;
    let query = match tool.run(Ok(WebSearchToolInput::new("q".to_string())), Some(())) {
        Ok((q, ())) => q,
        Err(_) => panic!("expected a query"),
    };
    let started = Arc::new(AtomicUsize::new(0));
    let counter = started.clone();
    let search = futures::future::lazy(move |_| {
        counter.fetch_add(1, Ordering::SeqCst);
        Ok::<Vec<String>, Arc<String>>(vec![query])
    })
    .shared();
    let first = futures::executor::block_on(search.clone());
    let second = futures::executor::block_on(search.clone());
    let third = futures::executor::block_on(search);
    assert_eq!(first, second);
    assert_eq!(second, third);
    assert_eq!(started.load(Ordering::SeqCst), 1);
}

#[test]
fn count_wording() {
    assert_eq!(count_label(0), "0 results");
    assert_eq!(count_label(1), "1 result");
    assert_eq!(count_label(2), "2 results");
    assert_eq!(count_label(10), "10 results");
    assert_eq!(count_label(105), "105 results");
    assert_eq!(count_label(usize::MAX), format!("{} results", usize::MAX));
}

#[test]
fn decimal_appends() {
    let mut s = String::from("n=");
    push_decimal(4096, &mut s);
    assert_eq!(s, "n=4096");
}

#[test]
fn card_starts_pending() {
    let card = WebSearchToolCard::new();
    assert!(card.is_pending());
    match card.render() {
        CardView::Searching { status } => assert_eq!(status, "Searching the Web…"),
        _ => panic!("expected the searching header"),
    }
}

#[test]
fn card_succeeds_with_citations_in_order() {
    let mut card = WebSearchToolCard::new();
    assert!(card.complete(SearchOutcome::Found(response(3))));
    match card.state() {
        CardState::Succeeded(r) => {
            assert_eq!(r.len(), 3);
            assert_eq!(r.citations[0].title, "Title 0");
            assert_eq!(r.citations[2].url, "https://example.com/2");
        }
        _ => panic!("expected success"),
    }
    match card.render() {
        CardView::Searched { status, count, rows } => {
            assert_eq!(status, "Searched the Web");
            assert_eq!(count, "3 results");
            let titles: Vec<&str> = rows.iter().map(|r| r.title.as_str()).collect();
            assert_eq!(titles, vec!["Title 0", "Title 1", "Title 2"]);
            assert_eq!(rows[1].url, "https://example.com/1");
        }
        _ => panic!("expected the searched view"),
    }
}

#[test]
fn card_with_one_citation_is_singular() {
    let mut card = WebSearchToolCard::new();
    card.complete(SearchOutcome::Found(response(1)));
    match card.render() {
        CardView::Searched { count, rows, .. } => {
            assert_eq!(count, "1 result");
            assert_eq!(rows.len(), 1);
        }
        _ => panic!("expected the searched view"),
    }
}

#[test]
fn card_with_no_citations() {
    let mut card = WebSearchToolCard::new();
    card.complete(SearchOutcome::Found(response(0)));
    match card.render() {
        CardView::Searched { count, rows, .. } => {
            assert_eq!(count, "0 results");
            assert!(rows.is_empty());
        }
        _ => panic!("expected the searched view"),
    }
}

#[test]
fn card_failure_shows_message() {
    let mut card = WebSearchToolCard::new();
    card.complete(SearchOutcome::Failed("rate limited".to_string()));
    match card.render() {
        CardView::Failed { status, tooltip } => {
            assert_eq!(status, "Web Search failed");
            assert_eq!(tooltip, "rate limited");
        }
        _ => panic!("expected the failed view"),
    }
}

#[test]
fn duplicate_completion_is_ignored() {
    let mut card = WebSearchToolCard::new();
    assert!(card.complete(SearchOutcome::Found(response(2))));
    assert!(!card.complete(SearchOutcome::Failed("late".to_string())));
    assert!(!card.complete(SearchOutcome::Found(response(5))));
    match card.state() {
        CardState::Succeeded(r) => assert_eq!(r.len(), 2),
        _ => panic!("expected the first outcome to stay"),
    }

    let mut failed = WebSearchToolCard::new();
    failed.complete(SearchOutcome::Failed("first".to_string()));
    assert!(!failed.complete(SearchOutcome::Found(response(1))));
    match failed.state() {
        CardState::Failed(m) => assert_eq!(m, "first"),
        _ => panic!("expected the first failure to stay"),
    }
}

#[test]
fn disposed_owner_keeps_card_pending() {
    let mut card = WebSearchToolCard::new();
    let redraw = card.on_search_resolved(false, SearchOutcome::Found(response(2)));
    assert!(!redraw);
    assert!(card.is_pending());

    let redraw = card.on_search_resolved(true, SearchOutcome::Found(response(2)));
    assert!(redraw);
    assert!(!card.is_pending());
}

fn decoded_titles_and_urls(text: &str) -> Vec<(String, String)> {
    let value: zed_llm_client::WebSearchResponse = serde_json::from_str(text).unwrap();
    value.results.into_iter().map(|r| (r.title, r.url)).collect()
}

#[test]
fn background_text_holds_citations_in_order() {
    for n in [0usize, 1, 3] {
        let outcome = SearchOutcome::Found(response(n));
        let text = match background_output(&outcome) {
            Ok(t) => t,
            Err(e) => panic!("unexpected error: {}", e.message()),
        };
        let decoded = decoded_titles_and_urls(&text);
        let expected: Vec<(String, String)> = (0..n)
            .map(|i| (format!("Title {}", i), format!("https://example.com/{}", i)))
            .collect();
        assert_eq!(decoded, expected);

        let mut card = WebSearchToolCard::new();
        card.complete(outcome);
        match card.render() {
            CardView::Searched { rows, .. } => {
                let shown: Vec<(String, String)> =
                    rows.into_iter().map(|r| (r.title, r.url)).collect();
                assert_eq!(shown, expected);
            }
            _ => panic!("expected the searched view"),
        }
    }
}

#[test]
fn background_text_keeps_snippets() {
    let text = match background_output(&SearchOutcome::Found(response(1))) {
        Ok(t) => t,
        Err(_) => panic!("expected text"),
    };
    let value: zed_llm_client::WebSearchResponse = serde_json::from_str(&text).unwrap();
    assert_eq!(value.results[0].text, "about Title 0");
}

#[test]
fn failure_reaches_both_observers() {
    let outcome_text = "rate limited".to_string();
    let background = background_output(&SearchOutcome::Failed(outcome_text.clone()));
    let background_message = match background {
        Err(e) => {
            assert!(matches!(e, ToolError::SearchFailed(_)));
            e.message()
        }
        Ok(_) => panic!("expected an error"),
    };
    let mut card = WebSearchToolCard::new();
    card.complete(SearchOutcome::Failed(outcome_text));
    let card_message = match card.render() {
        CardView::Failed { tooltip, .. } => tooltip,
        _ => panic!("expected the failed view"),
    };
    assert!(background_message.contains("rate limited"));
    assert_eq!(background_message, card_message);
}

#[test]
fn serialization_error_is_reported() {
    let err = serde_json::from_str::<u8>("not json").unwrap_err();
    match finish_output(Err(err)) {
        Err(e) => {
            assert!(matches!(e, ToolError::SerializationFailed));
            assert_eq!(e.message(), "Failed to serialize search results");
        }
        Ok(_) => panic!("expected an error"),
    }
    assert_eq!(finish_output(Ok("{}".to_string())).ok(), Some("{}".to_string()));
}

#[test]
fn error_messages() {
    assert_eq!(ToolError::InvalidInput("bad".to_string()).message(), "bad");
    assert_eq!(ToolError::SearchFailed("down".to_string()).message(), "down");
}

#[test]
fn input_query_accessors() {
    let input = WebSearchToolInput::new("weather".to_string());
    assert_eq!(input.query(), "weather");
    assert_eq!(input.into_query(), "weather");
}
