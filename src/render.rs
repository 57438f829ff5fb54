use crate::card::{CardModel, CardState, WebSearchToolCard};
use crate::model::{CitationModel, SearchResponse};
use vstd::prelude::*;
use vstd::string::*;

verus! {

/// The character of a decimal digit.
pub open spec fn digit_char(d: nat) -> char {
    if d == 0 {
        '0'
    } else if d == 1 {
        '1'
    } else if d == 2 {
        '2'
    } else if d == 3 {
        '3'
    } else if d == 4 {
        '4'
    } else if d == 5 {
        '5'
    } else if d == 6 {
        '6'
    } else if d == 7 {
        '7'
    } else if d == 8 {
        '8'
    } else {
        '9'
    }
}

/// The decimal writing of `n`, without leading zeros.
pub open spec fn decimal(n: nat) -> Seq<char>
    decreases n,
{
    if n < 10 {
        seq![digit_char(n)]
    } else {
        decimal(n / 10).push(digit_char(n % 10))
    }
}

/// How many results a finished search shows: singular for exactly one.
pub open spec fn count_text(n: nat) -> Seq<char> {
    if n == 1 {
        "1 result"@
    } else {
        decimal(n) + " results"@
    }
}

fn digit_str(d: usize) -> (r: &'static str)
    requires
        d < 10,
    ensures
        r@ == seq![digit_char(d as nat)],
{
    proof {
        reveal_strlit("0");
        reveal_strlit("1");
        reveal_strlit("2");
        reveal_strlit("3");
        reveal_strlit("4");
        reveal_strlit("5");
        reveal_strlit("6");
        reveal_strlit("7");
        reveal_strlit("8");
        reveal_strlit("9");
    }
    match d {
        0 => "0",
        1 => "1",
        2 => "2",
        3 => "3",
        4 => "4",
        5 => "5",
        6 => "6",
        7 => "7",
        8 => "8",
        _ => "9",
    }
}

/// Appends the decimal writing of `n` to `s`.
pub fn push_decimal(n: usize, s: &mut String)
    ensures
        final(s)@ == old(s)@ + decimal(n as nat),
    decreases n,
{
    if n >= 10 {
        push_decimal(n / 10, s);
    }
    s.append(digit_str(n % 10));
    proof {
        if n >= 10 {
            assert(old(s)@ + decimal(n as nat) =~= old(s)@ + decimal((n / 10) as nat) + seq![
                digit_char((n % 10) as nat),
            ]);
        } else {
            assert(n % 10 == n);
        }
    }
}

/// The count wording of a finished search: "1 result", else "N results".
pub fn count_label(n: usize) -> (r: String)
    ensures
        r@ == count_text(n as nat),
{
    if n == 1 {
        proof {
            reveal_strlit("1 result");
        }
        String::from_str("1 result")
    } else {
        let mut s = String::new();
        push_decimal(n, &mut s);
        s.append(" results");
        proof {
            reveal_strlit(" results");
            assert(s@ =~= decimal(n as nat) + " results"@);
        }
        s
    }
}

/// The status line while the search runs.
pub open spec fn searching_text() -> Seq<char> {
    "Searching the Web…"@
}

/// The status line of a finished search.
pub open spec fn searched_text() -> Seq<char> {
    "Searched the Web"@
}

/// The status line of a failed search.
pub open spec fn failed_text() -> Seq<char> {
    "Web Search failed"@
}

/// What a citation row shows, as values: its label and the URL that a click
/// opens and that its tooltip shows.
pub type RowModel = (Seq<char>, Seq<char>);

/// The rows of a citation list: one per citation, in the same order.
pub open spec fn rows_of(cs: Seq<CitationModel>) -> Seq<RowModel> {
    cs.map_values(|c: CitationModel| (c.0, c.1))
}

/// What a rendered card shows, as values.
pub enum CardViewModel {
    Searching(Seq<char>),
    Searched(Seq<char>, Seq<char>, Seq<RowModel>),
    Failed(Seq<char>, Seq<char>),
}

/// What a card in a given state shows: a status line always; a count and
/// one row per citation only once the search has succeeded; the error text
/// on demand once it has failed.
pub open spec fn view_of(s: CardModel) -> CardViewModel {
    match s {
        CardModel::Pending => CardViewModel::Searching(searching_text()),
        CardModel::Succeeded(cs) => CardViewModel::Searched(
            searched_text(),
            count_text(cs.len()),
            rows_of(cs),
        ),
        CardModel::Failed(m) => CardViewModel::Failed(failed_text(), m),
    }
}

/// One entry of the citation list: a button labelled with the title that
/// opens the URL, with the URL as its tooltip.
pub struct CitationRow {
    pub title: String,
    pub url: String,
}

impl View for CitationRow {
    type V = RowModel;

    open spec fn view(&self) -> RowModel {
        (self.title@, self.url@)
    }
}

pub open spec fn rows_model(rows: Seq<CitationRow>) -> Seq<RowModel> {
    rows.map_values(|r: CitationRow| r@)
}

/// What a card shows: the header, and the body where there is one.
pub enum CardView {
    Searching { status: String },
    Searched { status: String, count: String, rows: Vec<CitationRow> },
    Failed { status: String, tooltip: String },
}

impl View for CardView {
    type V = CardViewModel;

    open spec fn view(&self) -> CardViewModel {
        match self {
            CardView::Searching { status } => CardViewModel::Searching(status@),
            CardView::Searched { status, count, rows } => CardViewModel::Searched(
                status@,
                count@,
                rows_model(rows@),
            ),
            CardView::Failed { status, tooltip } => CardViewModel::Failed(status@, tooltip@),
        }
    }
}

/// The rows of a response's citations, in the provider's order.
pub fn citation_rows(response: &SearchResponse) -> (r: Vec<CitationRow>)
    ensures
        rows_model(r@) == rows_of(response@),
{
    let mut rows: Vec<CitationRow> = Vec::new();
    let mut i: usize = 0;
    while i < response.citations.len()
        invariant
            i <= response.citations@.len(),
            rows@.len() == i,
            rows_model(rows@) =~= rows_of(response@).subrange(0, i as int),
        decreases response.citations@.len() - i,
    {
        let ghost before = rows@;
        let c = &response.citations[i];
        let row = CitationRow { title: c.title.clone(), url: c.url.clone() };
        rows.push(row);
        assert(rows@ == before.push(row));
        assert(rows_model(rows@) =~= rows_of(response@).subrange(0, i + 1)) by {
            assert forall|j: int| 0 <= j <= i implies #[trigger] rows_model(rows@)[j]
                == rows_of(response@)[j] by {
                assert(rows_model(rows@)[j] == rows@[j]@);
                assert(rows_of(response@)[j] == (response@[j].0, response@[j].1));
                assert(response@[j] == response.citations@[j]@);
                if j < i {
                    assert(rows@[j] == before[j]);
                    assert(rows_model(before)[j] == before[j]@);
                    assert(rows_model(before)[j] == rows_of(response@).subrange(0, i as int)[j]);
                }
            }
        }
        i = i + 1;
    }
    assert(rows_of(response@).subrange(0, i as int) =~= rows_of(response@));
    rows
}

impl WebSearchToolCard {
    /// What the card shows in its current state.
    pub fn render(&self) -> (r: CardView)
        ensures
            r@ == view_of(self@),
    {
        match self.state() {
            CardState::Pending => {
                proof {
                    reveal_strlit("Searching the Web…");
                }
                CardView::Searching { status: String::from_str("Searching the Web…") }
            },
            CardState::Succeeded(response) => {
                proof {
                    reveal_strlit("Searched the Web");
                }
                CardView::Searched {
                    status: String::from_str("Searched the Web"),
                    count: count_label(response.len()),
                    rows: citation_rows(response),
                }
            },
            CardState::Failed(message) => {
                proof {
                    reveal_strlit("Web Search failed");
                }
                CardView::Failed {
                    status: String::from_str("Web Search failed"),
                    tooltip: message.clone(),
                }
            },
        }
    }
}

} // verus!
