//! The transaction record: its fields, its constructors, and the
//! accessors that pick the field a kind makes authoritative.

use crate::amount::{Amount, AmountView};
use crate::kind::{GroupType, TokenTaxRecType};
use vstd::prelude::*;

verus! {

/// One transaction, as one row of the exchange format holds it.
///
/// The record is a plain holder of its fields: nothing is checked when one
/// is built or changed. What a kind asks of the fields is asked when an
/// accessor reads them.
#[derive(Debug)]
pub struct TokenTaxRec {
    /// The kind of the transaction, which decides what the accessors read.
    pub type_txs: TokenTaxRecType,
    /// How much was received.
    pub buy_amount: Option<Amount>,
    /// The currency received.
    pub buy_currency: String,
    /// How much was given.
    pub sell_amount: Option<Amount>,
    /// The currency given.
    pub sell_currency: String,
    /// How much was paid in fees.
    pub fee_amount: Option<Amount>,
    /// The currency of the fee.
    pub fee_currency: String,
    /// The venue.
    pub exchange: String,
    /// The group, if the transaction belongs to one.
    pub group: Option<GroupType>,
    /// Free text.
    pub comment: String,
    /// UTC time in milliseconds since the epoch.
    pub time: i64,
}

/// What a record is: its fields as mathematical values.
pub struct TokenTaxRecView {
    pub type_txs: TokenTaxRecType,
    pub buy_amount: Option<AmountView>,
    pub buy_currency: Seq<char>,
    pub sell_amount: Option<AmountView>,
    pub sell_currency: Seq<char>,
    pub fee_amount: Option<AmountView>,
    pub fee_currency: Seq<char>,
    pub exchange: Seq<char>,
    pub group: Option<GroupType>,
    pub comment: Seq<char>,
    pub time: int,
}

/// What an optional amount is.
pub open spec fn optional_amount_view(amount: Option<Amount>) -> Option<AmountView> {
    match amount {
        Some(a) => Some(a@),
        None => None,
    }
}

impl View for TokenTaxRec {
    type V = TokenTaxRecView;

    open spec fn view(&self) -> TokenTaxRecView {
        TokenTaxRecView {
            type_txs: self.type_txs,
            buy_amount: optional_amount_view(self.buy_amount),
            buy_currency: self.buy_currency@,
            sell_amount: optional_amount_view(self.sell_amount),
            sell_currency: self.sell_currency@,
            fee_amount: optional_amount_view(self.fee_amount),
            fee_currency: self.fee_currency@,
            exchange: self.exchange@,
            group: self.group,
            comment: self.comment@,
            time: self.time as int,
        }
    }
}

impl TokenTaxRecView {
    /// The record that nothing has been put into: kind `Unknown`, no
    /// amounts, no group, empty texts, time 0.
    pub open spec fn is_empty(self) -> bool {
        &&& self.type_txs is Unknown
        &&& self.buy_amount is None
        &&& self.buy_currency == Seq::<char>::empty()
        &&& self.sell_amount is None
        &&& self.sell_currency == Seq::<char>::empty()
        &&& self.fee_amount is None
        &&& self.fee_currency == Seq::<char>::empty()
        &&& self.exchange == Seq::<char>::empty()
        &&& self.group is None
        &&& self.comment == Seq::<char>::empty()
        &&& self.time == 0
    }

    /// The currency that the transaction is about: the one received for a
    /// kind that acquires, the one given for a kind that disposes.
    pub open spec fn asset(self) -> Seq<char> {
        if self.type_txs.acquires() {
            self.buy_currency
        } else {
            self.sell_currency
        }
    }

    /// The currency on the other side of the transaction.
    pub open spec fn other_asset(self) -> Seq<char> {
        if self.type_txs.acquires() {
            self.sell_currency
        } else {
            self.buy_currency
        }
    }

    /// The amount of the currency that the transaction is about, if the
    /// record holds it.
    pub open spec fn quantity(self) -> Option<AmountView> {
        if self.type_txs.acquires() {
            self.buy_amount
        } else {
            self.sell_amount
        }
    }
}

impl TokenTaxRec {
    /// The empty record.
    pub fn new() -> (r: TokenTaxRec)
        ensures
            r@.is_empty(),
    {
        TokenTaxRec {
            type_txs: TokenTaxRecType::Unknown,
            buy_amount: None,
            buy_currency: String::new(),
            sell_amount: None,
            sell_currency: String::new(),
            fee_amount: None,
            fee_currency: String::new(),
            exchange: String::new(),
            group: None,
            comment: String::new(),
            time: 0,
        }
    }

    /// The record with the given fields. Nothing is checked.
    pub fn from(
        type_txs: TokenTaxRecType,
        buy_amount: Option<Amount>,
        buy_currency: String,
        sell_amount: Option<Amount>,
        sell_currency: String,
        fee_amount: Option<Amount>,
        fee_currency: String,
        exchange: String,
        group: Option<GroupType>,
        comment: String,
        time: i64,
    ) -> (r: TokenTaxRec)
        ensures
            r.type_txs == type_txs,
            r.buy_amount == buy_amount,
            r.buy_currency == buy_currency,
            r.sell_amount == sell_amount,
            r.sell_currency == sell_currency,
            r.fee_amount == fee_amount,
            r.fee_currency == fee_currency,
            r.exchange == exchange,
            r.group == group,
            r.comment == comment,
            r.time == time,
    {
        TokenTaxRec {
            type_txs,
            buy_amount,
            buy_currency,
            sell_amount,
            sell_currency,
            fee_amount,
            fee_currency,
            exchange,
            group,
            comment,
            time,
        }
    }

    /// Whether the kind gives this record a subject, so that `get_asset`
    /// and `get_other_asset` may read it.
    pub fn has_subject(&self) -> (r: bool)
        ensures
            r == !(self.type_txs is Unknown),
    {
        match self.type_txs {
            TokenTaxRecType::Unknown => false,
            _ => true,
        }
    }

    /// Whether this record has a subject and holds its amount, so that
    /// `get_quantity` may read it.
    pub fn has_quantity(&self) -> (r: bool)
        ensures
            r == (!(self.type_txs is Unknown) && self@.quantity() is Some),
    {
        match self.type_txs {
            TokenTaxRecType::Unknown => false,
            TokenTaxRecType::Trade
            | TokenTaxRecType::Deposit
            | TokenTaxRecType::Income
            | TokenTaxRecType::Mining => self.buy_amount.is_some(),
            TokenTaxRecType::Withdrawal
            | TokenTaxRecType::Spend
            | TokenTaxRecType::Lost
            | TokenTaxRecType::Stolen
            | TokenTaxRecType::Gift => self.sell_amount.is_some(),
        }
    }

    /// The currency that this transaction is about.
    pub fn get_asset(&self) -> (r: &str)
        requires
            !(self.type_txs is Unknown),
        ensures
            r@ == self@.asset(),
            self.type_txs.acquires() ==> r@ == self.buy_currency@,
            self.type_txs.disposes() ==> r@ == self.sell_currency@,
    {
        match self.type_txs {
            TokenTaxRecType::Unknown => vstd::pervasive::unreached(),
            TokenTaxRecType::Trade => self.buy_currency.as_str(),
            TokenTaxRecType::Deposit => self.buy_currency.as_str(),
            TokenTaxRecType::Withdrawal => self.sell_currency.as_str(),
            TokenTaxRecType::Income => self.buy_currency.as_str(),
            TokenTaxRecType::Spend => self.sell_currency.as_str(),
            TokenTaxRecType::Lost => self.sell_currency.as_str(),
            TokenTaxRecType::Stolen => self.sell_currency.as_str(),
            TokenTaxRecType::Mining => self.buy_currency.as_str(),
            TokenTaxRecType::Gift => self.sell_currency.as_str(),
        }
    }

    /// The amount of the currency that this transaction is about.
    pub fn get_quantity(&self) -> (r: Amount)
        requires
            !(self.type_txs is Unknown),
            self@.quantity() is Some,
        ensures
            Some(r@) == self@.quantity(),
            self.type_txs.acquires() ==> Some(r) == self.buy_amount,
            self.type_txs.disposes() ==> Some(r) == self.sell_amount,
    {
        match self.type_txs {
            TokenTaxRecType::Unknown => vstd::pervasive::unreached(),
            TokenTaxRecType::Trade => self.buy_amount.unwrap(),
            TokenTaxRecType::Deposit => self.buy_amount.unwrap(),
            TokenTaxRecType::Withdrawal => self.sell_amount.unwrap(),
            TokenTaxRecType::Income => self.buy_amount.unwrap(),
            TokenTaxRecType::Spend => self.sell_amount.unwrap(),
            TokenTaxRecType::Lost => self.sell_amount.unwrap(),
            TokenTaxRecType::Stolen => self.sell_amount.unwrap(),
            TokenTaxRecType::Mining => self.buy_amount.unwrap(),
            TokenTaxRecType::Gift => self.sell_amount.unwrap(),
        }
    }

    /// The currency on the other side of this transaction.
    pub fn get_other_asset(&self) -> (r: &str)
        requires
            !(self.type_txs is Unknown),
        ensures
            r@ == self@.other_asset(),
            self.type_txs.acquires() ==> r@ == self.sell_currency@,
            self.type_txs.disposes() ==> r@ == self.buy_currency@,
    {
        match self.type_txs {
            TokenTaxRecType::Unknown => vstd::pervasive::unreached(),
            TokenTaxRecType::Trade => self.sell_currency.as_str(),
            TokenTaxRecType::Deposit => self.sell_currency.as_str(),
            TokenTaxRecType::Withdrawal => self.buy_currency.as_str(),
            TokenTaxRecType::Income => self.sell_currency.as_str(),
            TokenTaxRecType::Spend => self.buy_currency.as_str(),
            TokenTaxRecType::Lost => self.buy_currency.as_str(),
            TokenTaxRecType::Stolen => self.buy_currency.as_str(),
            TokenTaxRecType::Mining => self.sell_currency.as_str(),
            TokenTaxRecType::Gift => self.buy_currency.as_str(),
        }
    }
}

impl Clone for TokenTaxRec {
    fn clone(&self) -> (r: TokenTaxRec)
        ensures
            r == *self,
    {
        TokenTaxRec {
            type_txs: self.type_txs,
            buy_amount: self.buy_amount,
            buy_currency: self.buy_currency.clone(),
            sell_amount: self.sell_amount,
            sell_currency: self.sell_currency.clone(),
            fee_amount: self.fee_amount,
            fee_currency: self.fee_currency.clone(),
            exchange: self.exchange.clone(),
            group: self.group,
            comment: self.comment.clone(),
            time: self.time,
        }
    }
}

impl Default for TokenTaxRec {
    fn default() -> (r: TokenTaxRec)
        ensures
            r@.is_empty(),
    {
        TokenTaxRec::new()
    }
}

} // verus!
