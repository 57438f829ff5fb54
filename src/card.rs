use crate::model::{CitationModel, OutcomeModel, SearchOutcome, SearchResponse};
use vstd::prelude::*;

verus! {

/// What a card shows, as values.
pub enum CardModel {
    Pending,
    Succeeded(Seq<CitationModel>),
    Failed(Seq<char>),
}

/// The display state of a card: waiting, or the one outcome it observed.
pub enum CardState {
    Pending,
    Succeeded(SearchResponse),
    Failed(String),
}

impl View for CardState {
    type V = CardModel;

    open spec fn view(&self) -> CardModel {
        match self {
            CardState::Pending => CardModel::Pending,
            CardState::Succeeded(r) => CardModel::Succeeded(r@),
            CardState::Failed(m) => CardModel::Failed(m@),
        }
    }
}

/// The state a card takes on when it observes an outcome.
pub open spec fn resolved(o: OutcomeModel) -> CardModel {
    match o {
        OutcomeModel::Found(cs) => CardModel::Succeeded(cs),
        OutcomeModel::Failed(m) => CardModel::Failed(m),
    }
}

/// A card in state `s` that observes outcome `o`: a waiting card takes on the
/// outcome; a card that has one keeps it.
pub open spec fn after_completion(s: CardModel, o: OutcomeModel) -> CardModel {
    match s {
        CardModel::Pending => resolved(o),
        _ => s,
    }
}

/// The observer card of one search.
pub struct WebSearchToolCard {
    state: CardState,
}

impl View for WebSearchToolCard {
    type V = CardModel;

    closed spec fn view(&self) -> CardModel {
        self.state@
    }
}

impl WebSearchToolCard {
    /// A card that waits for its search.
    pub fn new() -> (r: WebSearchToolCard)
        ensures
            r@ == CardModel::Pending,
    {
        WebSearchToolCard { state: CardState::Pending }
    }

    /// The current state, for rendering.
    pub fn state(&self) -> (r: &CardState)
        ensures
            r@ == self@,
    {
        &self.state
    }

    pub fn is_pending(&self) -> (r: bool)
        ensures
            r == (self@ == CardModel::Pending),
    {
        match self.state {
            CardState::Pending => true,
            _ => false,
        }
    }

    /// Stores the outcome of the search if the card is still waiting, and
    /// says whether it did; a card that already holds an outcome keeps it.
    pub fn complete(&mut self, outcome: SearchOutcome) -> (changed: bool)
        ensures
            final(self)@ == after_completion(old(self)@, outcome@),
            changed == (old(self)@ == CardModel::Pending),
    {
        if self.is_pending() {
            self.state = match outcome {
                SearchOutcome::Found(r) => CardState::Succeeded(r),
                SearchOutcome::Failed(m) => CardState::Failed(m),
            };
            true
        } else {
            false
        }
    }

    /// Handles the resolution of the search, which arrives from the
    /// background: when the card's owner has been disposed of, nothing
    /// changes; otherwise the card completes. Returns whether the view must
    /// be redrawn.
    pub fn on_search_resolved(&mut self, owner_alive: bool, outcome: SearchOutcome) -> (redraw:
        bool)
        ensures
            owner_alive ==> final(self)@ == after_completion(old(self)@, outcome@),
            !owner_alive ==> final(self)@ == old(self)@,
            redraw == (owner_alive && old(self)@ == CardModel::Pending),
    {
        if owner_alive {
            self.complete(outcome)
        } else {
            false
        }
    }
}

} // verus!
