//! The history of one content view: the addresses visited, in order, and a cursor on
//! the one that is shown.

use std::collections::VecDeque;
use vstd::prelude::*;

use crate::browser::address::{is_valid_address, parsed_url, Address, InvalidAddress};

verus! {

/// The mathematical model of a history.
pub struct History {
    /// The addresses navigated to, oldest first, as they were given.
    pub entries: Seq<Seq<char>>,
    /// The index in `entries` of the address shown; 0 while there is none.
    pub cursor: int,
}

impl History {
    /// The history of a view that has not navigated yet.
    pub open spec fn empty() -> History {
        History { entries: Seq::empty(), cursor: 0 }
    }

    /// The cursor points at an entry, or at 0 while there is none.
    pub open spec fn wf(self) -> bool {
        if self.entries.len() == 0 {
            self.cursor == 0
        } else {
            0 <= self.cursor < self.entries.len()
        }
    }

    /// The address shown, if any.
    pub open spec fn current(self) -> Option<Seq<char>> {
        if 0 <= self.cursor < self.entries.len() {
            Some(self.entries[self.cursor])
        } else {
            None
        }
    }

    /// Whether an entry stands before the one shown.
    pub open spec fn can_go_back(self) -> bool {
        self.cursor > 0
    }

    /// Whether an entry stands after the one shown.
    pub open spec fn can_go_forward(self) -> bool {
        self.cursor < self.entries.len() - 1
    }

    /// The history once `text` has been visited: it is appended and shown, whatever
    /// the cursor was on. No entry is dropped: where the cursor stood before the last
    /// entry, the entries after it stay, and going back from the new one leads
    /// through them. (Browsers commonly drop them instead.)
    pub open spec fn visit(self, text: Seq<char>) -> History {
        History { entries: self.entries.push(text), cursor: self.entries.len() as int }
    }

    /// A valid address is visited; any other text leaves the history as it is.
    pub open spec fn navigate(self, text: Seq<char>) -> History {
        if is_valid_address(text) {
            self.visit(text)
        } else {
            self
        }
    }

    /// The cursor moves one entry back where it can, and else stays.
    pub open spec fn go_back(self) -> History {
        if self.can_go_back() {
            History { cursor: self.cursor - 1, ..self }
        } else {
            self
        }
    }

    /// The cursor moves one entry forward where it can, and else stays.
    pub open spec fn go_forward(self) -> History {
        if self.can_go_forward() {
            History { cursor: self.cursor + 1, ..self }
        } else {
            self
        }
    }

    /// The history after navigating to each of `texts` in turn.
    pub open spec fn navigate_all(self, texts: Seq<Seq<char>>) -> History
        decreases texts.len(),
    {
        if texts.len() == 0 {
            self
        } else {
            self.navigate_all(texts.drop_last()).navigate(texts.last())
        }
    }
}

/// The navigation state of one content view.
pub struct Navigation {
    history: VecDeque<String>,
    current_index: usize,
}

impl View for Navigation {
    type V = History;

    closed spec fn view(&self) -> History {
        History {
            entries: self.history@.map_values(|entry: String| entry@),
            cursor: self.current_index as int,
        }
    }
}

impl Default for Navigation {
    fn default() -> (navigation: Navigation)
        ensures
            navigation@ == History::empty(),
    {
        Navigation::new()
    }
}

impl Navigation {
    /// Every navigation state is a well-formed history.
    #[verifier::type_invariant]
    spec fn inv(self) -> bool {
        self@.wf()
    }

    /// A history without entries.
    pub fn new() -> (navigation: Navigation)
        ensures
            navigation@ == History::empty(),
    {
        let navigation = Navigation { history: VecDeque::new(), current_index: 0 };
        assert(navigation@.entries =~= Seq::empty());
        navigation
    }

    /// Records a visit to `url`: appends it and moves the cursor onto it. This is the
    /// step that `navigate` takes once the text has parsed.
    pub fn visit(&mut self, url: String)
        ensures
            final(self)@ == old(self)@.visit(url@),
            old(self)@.wf(),
            final(self)@.wf(),
    {
        proof {
            use_type_invariant(&*self);
        }
        // The entries leave the struct while they grow, so that it is valid at every step.
        let ghost before = self@;
        let mut entries: VecDeque<String> = VecDeque::new();
        self.current_index = 0;
        std::mem::swap(&mut self.history, &mut entries);
        entries.push_back(url);
        std::mem::swap(&mut self.history, &mut entries);
        self.current_index = self.history.len() - 1;
        assert(self@.entries =~= before.entries.push(url@));
    }

    /// Parses `url` and, where it is an absolute URL, visits the text as given. A text
    /// that does not parse changes nothing.
    pub fn navigate(&mut self, url: String) -> (result: Result<Address, InvalidAddress>)
        ensures
            final(self)@ == old(self)@.navigate(url@),
            old(self)@.wf(),
            final(self)@.wf(),
            match result {
                Ok(address) => parsed_url(url@) == Some(address@),
                Err(_) => !is_valid_address(url@),
            },
    {
        match Address::parse(url.as_str()) {
            Ok(address) => {
                self.visit(url);
                Ok(address)
            },
            Err(error) => {
                proof {
                    use_type_invariant(&*self);
                }
                Err(error)
            },
        }
    }

    /// Whether an entry stands before the one shown.
    pub fn can_go_back(&self) -> (possible: bool)
        ensures
            possible == self@.can_go_back(),
            self@.wf(),
    {
        proof {
            use_type_invariant(self);
        }
        self.current_index > 0
    }

    /// Whether an entry stands after the one shown.
    pub fn can_go_forward(&self) -> (possible: bool)
        ensures
            possible == self@.can_go_forward(),
            self@.wf(),
    {
        proof {
            use_type_invariant(self);
        }
        let count = self.history.len();
        count > 0 && self.current_index < count - 1
    }

    /// Moves the cursor one entry back and returns the address it is then on, or does
    /// nothing and returns `None` where the cursor is on the first entry or there is none.
    pub fn go_back(&mut self) -> (shown: Option<String>)
        ensures
            final(self)@ == old(self)@.go_back(),
            old(self)@.wf(),
            final(self)@.wf(),
            match shown {
                Some(address) => old(self)@.can_go_back() && final(self)@.current() == Some(
                    address@,
                ),
                None => !old(self)@.can_go_back(),
            },
    {
        proof {
            use_type_invariant(&*self);
        }
        if self.can_go_back() {
            self.current_index -= 1;
            Some(self.history[self.current_index].clone())
        } else {
            None
        }
    }

    /// Moves the cursor one entry forward and returns the address it is then on, or does
    /// nothing and returns `None` where the cursor is on the last entry or there is none.
    pub fn go_forward(&mut self) -> (shown: Option<String>)
        ensures
            final(self)@ == old(self)@.go_forward(),
            old(self)@.wf(),
            final(self)@.wf(),
            match shown {
                Some(address) => old(self)@.can_go_forward() && final(self)@.current() == Some(
                    address@,
                ),
                None => !old(self)@.can_go_forward(),
            },
    {
        proof {
            use_type_invariant(&*self);
        }
        if self.can_go_forward() {
            assert(self.current_index < self.history.len());
            self.current_index += 1;
            Some(self.history[self.current_index].clone())
        } else {
            None
        }
    }

    /// The address that the cursor is on, or `None` before the first navigation.
    pub fn current_url(&self) -> (shown: Option<&String>)
        ensures
            self@.wf(),
            match shown {
                Some(address) => self@.current() == Some(address@),
                None => self@.current() is None,
            },
    {
        proof {
            use_type_invariant(self);
        }
        if self.current_index < self.history.len() {
            Some(&self.history[self.current_index])
        } else {
            None
        }
    }
}

/// Navigating to a valid address shows that address, whatever the history was and
/// wherever its cursor stood, and keeps every earlier entry.
pub proof fn lemma_navigate_shows_address(history: History, text: Seq<char>)
    requires
        history.wf(),
        is_valid_address(text),
    ensures
        history.navigate(text).wf(),
        history.navigate(text).current() == Some(text),
        history.navigate(text).entries == history.entries.push(text),
{
}

/// A view that has navigated to nothing but the valid addresses `texts`, in that order,
/// holds exactly these, with the cursor on the last.
pub proof fn lemma_navigate_all_entries(texts: Seq<Seq<char>>)
    requires
        forall|i: int| 0 <= i < texts.len() ==> is_valid_address(#[trigger] texts[i]),
    ensures
        History::empty().navigate_all(texts).wf(),
        History::empty().navigate_all(texts).entries == texts,
        texts.len() > 0 ==> History::empty().navigate_all(texts).cursor == texts.len() - 1,
    decreases texts.len(),
{
    if texts.len() > 0 {
        lemma_navigate_all_entries(texts.drop_last());
        assert(texts.drop_last().push(texts.last()) =~= texts);
    }
}

/// After each of a series of navigations to valid addresses, from a fresh history, the
/// address shown is the one navigated to last, and going back is possible if and only
/// if more than one address has been navigated to.
pub proof fn lemma_navigate_sequence(texts: Seq<Seq<char>>, calls: int)
    requires
        forall|i: int| 0 <= i < texts.len() ==> is_valid_address(#[trigger] texts[i]),
        0 < calls <= texts.len(),
    ensures
        History::empty().navigate_all(texts.take(calls)).current() == Some(texts[calls - 1]),
        History::empty().navigate_all(texts.take(calls)).can_go_back() <==> calls > 1,
{
    lemma_navigate_all_entries(texts.take(calls));
}

/// Going back and then forward again restores the history, and so the address shown,
/// wherever going back was possible.
pub proof fn lemma_back_then_forward(history: History)
    requires
        history.wf(),
        history.can_go_back(),
    ensures
        history.entries.len() >= 2,
        history.go_back().wf(),
        history.go_back().go_forward() == history,
        history.go_back().go_forward().current() == history.current(),
{
}

} // verus!
