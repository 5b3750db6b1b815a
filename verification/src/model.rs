//! The billing data: plays, performances and invoices, each with the
//! mathematical value that contracts speak of.

use vstd::prelude::*;

verus! {

/// The two genres a play can have; the genre selects the pricing formula.
#[derive(Clone, Copy, Debug, PartialEq, Eq, Structural)]
pub enum PlayGenre {
    Tragedy,
    Comedy,
}

/// A play of the catalog: its display name and its genre.
#[derive(Debug)]
pub struct Play {
    name: String,
    genre: PlayGenre,
}

/// What a [`Play`] is, as a mathematical value.
pub struct PlayView {
    pub name: Seq<char>,
    pub genre: PlayGenre,
}

impl View for Play {
    type V = PlayView;

    closed spec fn view(&self) -> PlayView {
        PlayView { name: self.name@, genre: self.genre }
    }
}

impl Play {
    /// A play with the given display name and genre.
    pub fn new(name: String, genre: PlayGenre) -> (play: Play)
        ensures
            play@ == (PlayView { name: name@, genre }),
    {
        Play { name, genre }
    }

    /// The display name, as it appears on a statement.
    pub fn name(&self) -> (name: &str)
        ensures
            name@ == self@.name,
    {
        self.name.as_str()
    }

    /// The genre, which decides how performances of the play are priced.
    pub fn genre(&self) -> (genre: PlayGenre)
        ensures
            genre == self@.genre,
    {
        self.genre
    }
}

/// One showing of a play: the identifier of the play and the audience size.
#[derive(Debug)]
pub struct Performance {
    play_id: String,
    audience: u32,
}

/// What a [`Performance`] is, as a mathematical value.
pub struct PerformanceView {
    pub play_id: Seq<char>,
    pub audience: nat,
}

impl View for Performance {
    type V = PerformanceView;

    closed spec fn view(&self) -> PerformanceView {
        PerformanceView { play_id: self.play_id@, audience: self.audience as nat }
    }
}

impl Performance {
    /// A performance of the play that `play_id` names, before `audience`
    /// seats.
    pub fn new(play_id: String, audience: u32) -> (performance: Performance)
        ensures
            performance@ == (PerformanceView { play_id: play_id@, audience: audience as nat }),
    {
        Performance { play_id, audience }
    }

    /// The identifier of the play that was performed.
    pub fn play_id(&self) -> (play_id: &str)
        ensures
            play_id@ == self@.play_id,
    {
        self.play_id.as_str()
    }

    /// The number of seats taken.
    pub fn audience(&self) -> (audience: u32)
        ensures
            audience == self@.audience,
    {
        self.audience
    }
}

/// A customer's performances, billed together in the order they are listed.
#[derive(Debug)]
pub struct Invoice {
    customer: String,
    performances: Vec<Performance>,
}

/// What an [`Invoice`] is, as a mathematical value.
pub struct InvoiceView {
    pub customer: Seq<char>,
    pub performances: Seq<PerformanceView>,
}

impl View for Invoice {
    type V = InvoiceView;

    closed spec fn view(&self) -> InvoiceView {
        InvoiceView {
            customer: self.customer@,
            performances: self.performances@.map_values(|p: Performance| p@),
        }
    }
}

impl Invoice {
    /// An invoice for `customer` that lists `performances` in the given
    /// order.
    pub fn new(customer: String, performances: Vec<Performance>) -> (invoice: Invoice)
        ensures
            invoice@ == (InvoiceView {
                customer: customer@,
                performances: performances@.map_values(|p: Performance| p@),
            }),
    {
        Invoice { customer, performances }
    }

    /// The name of the customer who is billed.
    pub fn customer(&self) -> (customer: &str)
        ensures
            customer@ == self@.customer,
    {
        self.customer.as_str()
    }

    /// The performances, in the order they are billed.
    pub fn performances(&self) -> (performances: &Vec<Performance>)
        ensures
            performances@.map_values(|p: Performance| p@) == self@.performances,
    {
        &self.performances
    }
}

} // verus!
