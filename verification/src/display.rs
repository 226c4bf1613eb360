//! The one-line rendering of a record, for diagnostics.
//!
//! The time is shown as the timestamp codec writes it; that codec
//! stands outside this library, so the text is handed in.

use crate::amount::{decimal_text, Amount, AmountView};
use crate::kind::GroupType;
use crate::record::{optional_amount_view, TokenTaxRec, TokenTaxRecView};
use vstd::prelude::*;
use vstd::string::StringExecFns;

verus! {

/// How an optional amount is shown: `Some(..)` round its decimal text,
/// or `None`.
pub open spec fn shown_amount(amount: Option<AmountView>) -> Seq<char> {
    match amount {
        Some(a) => "Some("@ + decimal_text(a.mantissa, a.scale) + ")"@,
        None => "None"@,
    }
}

/// How an optional group is shown: `Some(..)` round its name, or `None`.
pub open spec fn shown_group(group: Option<GroupType>) -> Seq<char> {
    match group {
        Some(g) => "Some("@ + g.name_spec() + ")"@,
        None => "None"@,
    }
}

/// How a record is shown, given the text of its time: every field, each
/// after its label, on one line.
pub open spec fn shown(rec: TokenTaxRecView, time: Seq<char>) -> Seq<char> {
    "time: "@ + time + " type_txs: "@ + rec.type_txs.name_spec() + " buy_amount: "@
        + shown_amount(rec.buy_amount) + " buy_currency "@ + rec.buy_currency
        + " sell_amount: "@ + shown_amount(rec.sell_amount) + " sell_currency: "@
        + rec.sell_currency + " fee_amount: "@ + shown_amount(rec.fee_amount)
        + " fee_currency: "@ + rec.fee_currency + " exchange: "@ + rec.exchange + " group: "@
        + shown_group(rec.group) + " comment: "@ + rec.comment
}

/// Shows an optional amount.
pub fn show_amount(amount: &Option<Amount>) -> (r: String)
    ensures
        r@ == shown_amount(optional_amount_view(*amount)),
{
    match amount {
        Some(a) => {
            let mut s = String::from_str("Some(");
            s.append(a.to_text().as_str());
            s.append(")");
            s
        },
        None => String::from_str("None"),
    }
}

/// Shows an optional group.
pub fn show_group(group: &Option<GroupType>) -> (r: String)
    ensures
        r@ == shown_group(*group),
{
    match group {
        Some(g) => {
            let mut s = String::from_str("Some(");
            s.append(g.name());
            s.append(")");
            s
        },
        None => String::from_str("None"),
    }
}

impl TokenTaxRec {
    /// Shows this record on one line, given the text that the timestamp
    /// codec made of its time.
    pub fn show(&self, time: &str) -> (r: String)
        ensures
            r@ == shown(self@, time@),
    {
        let mut s = String::from_str("time: ");
        s.append(time);
        s.append(" type_txs: ");
        s.append(self.type_txs.name());
        s.append(" buy_amount: ");
        s.append(show_amount(&self.buy_amount).as_str());
        s.append(" buy_currency ");
        s.append(self.buy_currency.as_str());
        s.append(" sell_amount: ");
        s.append(show_amount(&self.sell_amount).as_str());
        s.append(" sell_currency: ");
        s.append(self.sell_currency.as_str());
        s.append(" fee_amount: ");
        s.append(show_amount(&self.fee_amount).as_str());
        s.append(" fee_currency: ");
        s.append(self.fee_currency.as_str());
        s.append(" exchange: ");
        s.append(self.exchange.as_str());
        s.append(" group: ");
        s.append(show_group(&self.group).as_str());
        s.append(" comment: ");
        s.append(self.comment.as_str());
        s
    }
}

} // verus!
