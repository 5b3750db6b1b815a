//! A small catalog and one invoice against it, ready to be billed.

use vstd::prelude::*;
use vstd::string::StringExecFns;
use crate::catalog::Catalog;
use crate::model::{Invoice, InvoiceView, Performance, PerformanceView, Play, PlayGenre, PlayView};
use crate::statement::billable;

verus! {

/// The catalog that [`init`] builds: two tragedies and a comedy.
pub open spec fn sample_catalog() -> Map<Seq<char>, PlayView> {
    Map::<Seq<char>, PlayView>::empty().insert(
        "hamlet"@,
        PlayView { name: "Hamlet"@, genre: PlayGenre::Tragedy },
    ).insert("as-like"@, PlayView { name: "As You Like It"@, genre: PlayGenre::Comedy }).insert(
        "othello"@,
        PlayView { name: "Othello"@, genre: PlayGenre::Tragedy },
    )
}

/// The invoice that [`init`] builds: three performances for one customer.
pub open spec fn sample_invoice() -> InvoiceView {
    InvoiceView {
        customer: "BigCo"@,
        performances: seq![
            PerformanceView { play_id: "hamlet"@, audience: 55 },
            PerformanceView { play_id: "as-like"@, audience: 35 },
            PerformanceView { play_id: "othello"@, audience: 40 },
        ],
    }
}

/// Builds the sample catalog and the sample invoice. Every performance of
/// the invoice refers to a play of the catalog.
pub fn init() -> (seeded: (Catalog, Invoice))
    ensures
        seeded.0@ == sample_catalog(),
        seeded.1@ == sample_invoice(),
        billable(seeded.1@, seeded.0@),
{
    let mut plays = Catalog::new();
    plays.insert(String::from_str("hamlet"), Play::new(String::from_str("Hamlet"), PlayGenre::Tragedy));
    plays.insert(
        String::from_str("as-like"),
        Play::new(String::from_str("As You Like It"), PlayGenre::Comedy),
    );
    plays.insert(
        String::from_str("othello"),
        Play::new(String::from_str("Othello"), PlayGenre::Tragedy),
    );

    let mut performances: Vec<Performance> = Vec::new();
    performances.push(Performance::new(String::from_str("hamlet"), 55));
    performances.push(Performance::new(String::from_str("as-like"), 35));
    performances.push(Performance::new(String::from_str("othello"), 40));
    let invoice = Invoice::new(String::from_str("BigCo"), performances);

    assert(invoice@.performances =~= sample_invoice().performances);
    (plays, invoice)
}

} // verus!
