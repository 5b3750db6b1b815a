//! The statement for an invoice: a header, one line for each performance,
//! the amount owed and the volume credits earned.

use vstd::prelude::*;
use vstd::string::StringExecFns;
use crate::catalog::{play_for, Catalog};
use crate::decimal::{append_decimal, decimal};
use crate::model::{Invoice, InvoiceView, Performance, PerformanceView, PlayView};
use crate::pricing::{amount_for, charge, volume_credits, volume_credits_for};

verus! {

/// Every performance of the invoice refers to a play of the catalog.
pub open spec fn billable(invoice: InvoiceView, plays: Map<Seq<char>, PlayView>) -> bool {
    forall|i: int|
        0 <= i < invoice.performances.len() ==> plays.contains_key(
            (#[trigger] invoice.performances[i]).play_id,
        )
}

/// The sum of the charges for `performances`, in cents.
pub open spec fn total_amount(
    performances: Seq<PerformanceView>,
    plays: Map<Seq<char>, PlayView>,
) -> int
    decreases performances.len(),
{
    if performances.len() == 0 {
        0
    } else {
        let last = performances.last();
        total_amount(performances.drop_last(), plays) + charge(
            plays[last.play_id].genre,
            last.audience,
        )
    }
}

/// The sum of the volume credits that `performances` earn.
pub open spec fn total_credits(
    performances: Seq<PerformanceView>,
    plays: Map<Seq<char>, PlayView>,
) -> int
    decreases performances.len(),
{
    if performances.len() == 0 {
        0
    } else {
        let last = performances.last();
        total_credits(performances.drop_last(), plays) + volume_credits(
            plays[last.play_id].genre,
            last.audience,
        )
    }
}

/// The first line of a statement.
pub open spec fn header_line(customer: Seq<char>) -> Seq<char> {
    "Statement for "@ + customer
}

/// The line for one performance: the play's name, the charge in whole
/// currency units and the audience.
pub open spec fn performance_line(
    performance: PerformanceView,
    plays: Map<Seq<char>, PlayView>,
) -> Seq<char> {
    let play = plays[performance.play_id];
    "  "@ + play.name + ": "@ + decimal((charge(play.genre, performance.audience) / 100) as nat)
        + " ("@ + decimal(performance.audience) + " seats)"@
}

/// The line that gives the amount owed, in whole currency units.
pub open spec fn amount_owed_line(total: int) -> Seq<char> {
    "Amount owed is "@ + decimal((total / 100) as nat)
}

/// The line that gives the volume credits earned.
pub open spec fn credits_line(credits: int) -> Seq<char> {
    "You earned "@ + decimal(credits as nat) + " credits"@
}

/// The lines of the statement for `invoice`, priced from `plays`.
pub open spec fn statement_lines(invoice: InvoiceView, plays: Map<Seq<char>, PlayView>) -> Seq<
    Seq<char>,
> {
    seq![header_line(invoice.customer)] + invoice.performances.map_values(
        |performance: PerformanceView| performance_line(performance, plays),
    ) + seq![
        amount_owed_line(total_amount(invoice.performances, plays)),
        credits_line(total_credits(invoice.performances, plays)),
    ]
}

/// Tells whether every performance of `invoice` refers to a play of `plays`.
pub fn is_billable(invoice: &Invoice, plays: &Catalog) -> (ok: bool)
    ensures
        ok == billable(invoice@, plays@),
{
    let performances = invoice.performances();
    let mut i: usize = 0;
    while i < performances.len()
        invariant
            i <= performances.len(),
            performances@.map_values(|p: Performance| p@) == invoice@.performances,
            forall|j: int|
                0 <= j < i ==> plays@.contains_key((#[trigger] invoice@.performances[j]).play_id),
        decreases performances.len() - i,
    {
        assert(invoice@.performances[i as int] == performances[i as int]@);
        if plays.get(performances[i].play_id()).is_none() {
            return false;
        }
        i += 1;
    }
    true
}

/// Renders the statement for `invoice`: the header, one line for each
/// performance in the order of the invoice, the amount owed and the credits
/// earned.
pub fn statement(invoice: Invoice, plays: Catalog) -> (lines: Vec<String>)
    requires
        billable(invoice@, plays@),
    ensures
        lines@.map_values(|line: String| line@) == statement_lines(invoice@, plays@),
        lines.len() == invoice@.performances.len() + 3,
{
    let performances = invoice.performances();
    let ghost billed = invoice@.performances;
    // No charge reaches 2^43 cents and no performance earns 2^33 credits, so
    // the sums over any invoice fit in 128 bits.
    let mut total: u128 = 0;
    let mut credits: u128 = 0;
    let mut lines: Vec<String> = Vec::new();

    let mut header = String::from_str("Statement for ");
    header.append(invoice.customer());
    lines.push(header);

    let mut i: usize = 0;
    while i < performances.len()
        invariant
            i <= performances.len(),
            billed == invoice@.performances,
            performances@.map_values(|p: Performance| p@) == billed,
            billable(invoice@, plays@),
            total == total_amount(billed.take(i as int), plays@),
            credits == total_credits(billed.take(i as int), plays@),
            total <= i * 0x800_0000_0000,
            credits <= i * 0x2_0000_0000,
            lines.len() == i + 1,
            lines[0]@ == header_line(invoice@.customer),
            forall|j: int|
                0 <= j < i ==> (#[trigger] lines[j + 1])@ == performance_line(billed[j], plays@),
        decreases performances.len() - i,
    {
        let performance = &performances[i];
        assert(billed[i as int] == performance@);
        let play = play_for(performance, &plays);
        let amount = amount_for(performance, play);
        let earned = volume_credits_for(performance, play);

        let mut line = String::from_str("  ");
        line.append(play.name());
        line.append(": ");
        append_decimal(&mut line, (amount / 100) as u128);
        line.append(" (");
        append_decimal(&mut line, performance.audience() as u128);
        line.append(" seats)");
        lines.push(line);

        assert(billed.take(i + 1).drop_last() == billed.take(i as int));
        total += amount as u128;
        credits += earned as u128;
        i += 1;
    }
    assert(billed.take(i as int) == billed);
    let ghost itemized = lines@;

    let mut owed = String::from_str("Amount owed is ");
    append_decimal(&mut owed, total / 100);
    lines.push(owed);

    let mut earned = String::from_str("You earned ");
    append_decimal(&mut earned, credits);
    earned.append(" credits");
    lines.push(earned);

    proof {
        let rendered = lines@.map_values(|line: String| line@);
        let expected = statement_lines(invoice@, plays@);
        assert forall|k: int| 0 <= k < rendered.len() implies rendered[k] == expected[k] by {
            if 1 <= k <= billed.len() {
                assert(itemized[(k - 1) + 1]@ == performance_line(billed[k - 1], plays@));
            }
        }
        assert(rendered =~= expected);
    }
    lines
}

} // verus!
