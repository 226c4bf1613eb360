//! Equality and order of records: field by field, time first.

use crate::amount::{
    lemma_optional_amount_order_composes, lemma_optional_amount_order_reverse,
    optional_amount_order,
};
use crate::kind::GroupType;
use crate::record::{TokenTaxRec, TokenTaxRecView};
use crate::sorting::{composes, int_order, or_else, reverse};
use crate::text::{
    compare_text, lemma_text_order_composes, lemma_text_order_equal, lemma_text_order_reverse,
    text_order,
};
use std::cmp::Ordering;
use vstd::prelude::*;
use vstd::std_specs::cmp::{PartialEqSpecImpl, PartialOrdSpecImpl};

verus! {

/// The fields of a record, in the order in which they decide a
/// comparison: time first, so that sorted records are chronological, and
/// the others to break ties.
#[derive(Clone, Copy, Debug, PartialEq, Eq, Structural)]
pub enum SortKey {
    Time,
    Kind,
    BuyCurrency,
    SellCurrency,
    FeeCurrency,
    BuyAmount,
    SellAmount,
    FeeAmount,
    Exchange,
    Group,
    Comment,
}

impl SortKey {
    /// The place of a field in the precedence, from 0.
    pub open spec fn rank(self) -> int {
        match self {
            SortKey::Time => 0,
            SortKey::Kind => 1,
            SortKey::BuyCurrency => 2,
            SortKey::SellCurrency => 3,
            SortKey::FeeCurrency => 4,
            SortKey::BuyAmount => 5,
            SortKey::SellAmount => 6,
            SortKey::FeeAmount => 7,
            SortKey::Exchange => 8,
            SortKey::Group => 9,
            SortKey::Comment => 10,
        }
    }
}

/// The order of two optional groups: an absent one comes before every
/// present one, and two absent ones are equal.
pub open spec fn optional_group_order(a: Option<GroupType>, b: Option<GroupType>) -> Ordering {
    match (a, b) {
        (None, None) => Ordering::Equal,
        (None, Some(_)) => Ordering::Less,
        (Some(_), None) => Ordering::Greater,
        (Some(x), Some(y)) => x.order(y),
    }
}

/// The natural order of two records in one field.
pub open spec fn field_order(a: TokenTaxRecView, b: TokenTaxRecView, key: SortKey) -> Ordering {
    match key {
        SortKey::Time => int_order(a.time, b.time),
        SortKey::Kind => a.type_txs.order(b.type_txs),
        SortKey::BuyCurrency => text_order(a.buy_currency, b.buy_currency),
        SortKey::SellCurrency => text_order(a.sell_currency, b.sell_currency),
        SortKey::FeeCurrency => text_order(a.fee_currency, b.fee_currency),
        SortKey::BuyAmount => optional_amount_order(a.buy_amount, b.buy_amount),
        SortKey::SellAmount => optional_amount_order(a.sell_amount, b.sell_amount),
        SortKey::FeeAmount => optional_amount_order(a.fee_amount, b.fee_amount),
        SortKey::Exchange => text_order(a.exchange, b.exchange),
        SortKey::Group => optional_group_order(a.group, b.group),
        SortKey::Comment => text_order(a.comment, b.comment),
    }
}

/// The order of two records: that of the first field, in the precedence
/// of `SortKey`, in which they are not equal.
pub open spec fn record_order(a: TokenTaxRecView, b: TokenTaxRecView) -> Ordering {
    or_else(
        field_order(a, b, SortKey::Time),
        or_else(
            field_order(a, b, SortKey::Kind),
            or_else(
                field_order(a, b, SortKey::BuyCurrency),
                or_else(
                    field_order(a, b, SortKey::SellCurrency),
                    or_else(
                        field_order(a, b, SortKey::FeeCurrency),
                        or_else(
                            field_order(a, b, SortKey::BuyAmount),
                            or_else(
                                field_order(a, b, SortKey::SellAmount),
                                or_else(
                                    field_order(a, b, SortKey::FeeAmount),
                                    or_else(
                                        field_order(a, b, SortKey::Exchange),
                                        or_else(
                                            field_order(a, b, SortKey::Group),
                                            field_order(a, b, SortKey::Comment),
                                        ),
                                    ),
                                ),
                            ),
                        ),
                    ),
                ),
            ),
        ),
    )
}

/// Whether two records are equal in one field. Texts, kinds, groups and
/// times are equal when they are the same; amounts are equal when they
/// are the same number, whatever their scales.
pub open spec fn field_eq(a: TokenTaxRecView, b: TokenTaxRecView, key: SortKey) -> bool {
    match key {
        SortKey::Time => a.time == b.time,
        SortKey::Kind => a.type_txs == b.type_txs,
        SortKey::BuyCurrency => a.buy_currency == b.buy_currency,
        SortKey::SellCurrency => a.sell_currency == b.sell_currency,
        SortKey::FeeCurrency => a.fee_currency == b.fee_currency,
        SortKey::BuyAmount => optional_amount_order(a.buy_amount, b.buy_amount)
            == Ordering::Equal,
        SortKey::SellAmount => optional_amount_order(a.sell_amount, b.sell_amount)
            == Ordering::Equal,
        SortKey::FeeAmount => optional_amount_order(a.fee_amount, b.fee_amount)
            == Ordering::Equal,
        SortKey::Exchange => a.exchange == b.exchange,
        SortKey::Group => a.group == b.group,
        SortKey::Comment => a.comment == b.comment,
    }
}

/// Whether two records are equal: they are in every field.
pub open spec fn record_eq(a: TokenTaxRecView, b: TokenTaxRecView) -> bool {
    &&& field_eq(a, b, SortKey::Time)
    &&& field_eq(a, b, SortKey::Kind)
    &&& field_eq(a, b, SortKey::BuyCurrency)
    &&& field_eq(a, b, SortKey::SellCurrency)
    &&& field_eq(a, b, SortKey::FeeCurrency)
    &&& field_eq(a, b, SortKey::BuyAmount)
    &&& field_eq(a, b, SortKey::SellAmount)
    &&& field_eq(a, b, SortKey::FeeAmount)
    &&& field_eq(a, b, SortKey::Exchange)
    &&& field_eq(a, b, SortKey::Group)
    &&& field_eq(a, b, SortKey::Comment)
}

impl PartialEqSpecImpl for TokenTaxRec {
    open spec fn obeys_eq_spec() -> bool {
        true
    }

    open spec fn eq_spec(&self, other: &TokenTaxRec) -> bool {
        record_eq(self@, other@)
    }
}

impl PartialEq for TokenTaxRec {
    fn eq(&self, other: &TokenTaxRec) -> (r: bool) {
        self.time == other.time && self.type_txs == other.type_txs && self.buy_currency
            == other.buy_currency && self.sell_currency == other.sell_currency
            && self.fee_currency == other.fee_currency && self.buy_amount == other.buy_amount
            && self.sell_amount == other.sell_amount && self.fee_amount == other.fee_amount
            && self.exchange == other.exchange && self.group == other.group && self.comment
            == other.comment
    }
}

impl Eq for TokenTaxRec {}

impl PartialOrdSpecImpl for TokenTaxRec {
    open spec fn obeys_partial_cmp_spec() -> bool {
        true
    }

    open spec fn partial_cmp_spec(&self, other: &TokenTaxRec) -> Option<Ordering> {
        Some(record_order(self@, other@))
    }
}

impl PartialOrd for TokenTaxRec {
    fn partial_cmp(&self, other: &TokenTaxRec) -> (r: Option<Ordering>) {
        match self.time.partial_cmp(&other.time) {
            Some(Ordering::Equal) => {},
            ord => return ord,
        }
        match self.type_txs.partial_cmp(&other.type_txs) {
            Some(Ordering::Equal) => {},
            ord => return ord,
        }
        match compare_text(self.buy_currency.as_str(), other.buy_currency.as_str()) {
            Ordering::Equal => {},
            ord => return Some(ord),
        }
        match compare_text(self.sell_currency.as_str(), other.sell_currency.as_str()) {
            Ordering::Equal => {},
            ord => return Some(ord),
        }
        match compare_text(self.fee_currency.as_str(), other.fee_currency.as_str()) {
            Ordering::Equal => {},
            ord => return Some(ord),
        }
        match self.buy_amount.partial_cmp(&other.buy_amount) {
            Some(Ordering::Equal) => {},
            ord => return ord,
        }
        match self.sell_amount.partial_cmp(&other.sell_amount) {
            Some(Ordering::Equal) => {},
            ord => return ord,
        }
        match self.fee_amount.partial_cmp(&other.fee_amount) {
            Some(Ordering::Equal) => {},
            ord => return ord,
        }
        match compare_text(self.exchange.as_str(), other.exchange.as_str()) {
            Ordering::Equal => {},
            ord => return Some(ord),
        }
        match self.group.partial_cmp(&other.group) {
            Some(Ordering::Equal) => {},
            ord => return ord,
        }
        Some(compare_text(self.comment.as_str(), other.comment.as_str()))
    }
}

/// Two empty records are the same, field for field, and equal.
pub proof fn lemma_empty_records_agree(a: TokenTaxRec, b: TokenTaxRec)
    requires
        a@.is_empty(),
        b@.is_empty(),
    ensures
        a@ == b@,
        record_eq(a@, b@),
        record_order(a@, b@) == Ordering::Equal,
{
    lemma_equal_is_equal_in_order(a, b);
}

/// In each field, two records compare equal exactly when the field is
/// equal.
pub proof fn lemma_field_order_equal(a: TokenTaxRecView, b: TokenTaxRecView, key: SortKey)
    ensures
        field_order(a, b, key) == Ordering::Equal <==> field_eq(a, b, key),
{
    lemma_text_order_equal(a.buy_currency, b.buy_currency);
    lemma_text_order_equal(a.sell_currency, b.sell_currency);
    lemma_text_order_equal(a.fee_currency, b.fee_currency);
    lemma_text_order_equal(a.exchange, b.exchange);
    lemma_text_order_equal(a.comment, b.comment);
    if a.group is Some && b.group is Some {
        assert(a.group->0 is Margin && b.group->0 is Margin);
    }
}

/// In each field, exchanging the two records reverses the result.
pub proof fn lemma_field_order_reverse(a: TokenTaxRecView, b: TokenTaxRecView, key: SortKey)
    ensures
        field_order(b, a, key) == reverse(field_order(a, b, key)),
{
    lemma_text_order_reverse(a.buy_currency, b.buy_currency);
    lemma_text_order_reverse(a.sell_currency, b.sell_currency);
    lemma_text_order_reverse(a.fee_currency, b.fee_currency);
    lemma_text_order_reverse(a.exchange, b.exchange);
    lemma_text_order_reverse(a.comment, b.comment);
    lemma_optional_amount_order_reverse(a.buy_amount, b.buy_amount);
    lemma_optional_amount_order_reverse(a.sell_amount, b.sell_amount);
    lemma_optional_amount_order_reverse(a.fee_amount, b.fee_amount);
}

/// In each field, the order is transitive.
pub proof fn lemma_field_order_composes(
    a: TokenTaxRecView,
    b: TokenTaxRecView,
    c: TokenTaxRecView,
    key: SortKey,
)
    ensures
        composes(field_order(a, b, key), field_order(b, c, key), field_order(a, c, key)),
{
    lemma_text_order_composes(a.buy_currency, b.buy_currency, c.buy_currency);
    lemma_text_order_composes(a.sell_currency, b.sell_currency, c.sell_currency);
    lemma_text_order_composes(a.fee_currency, b.fee_currency, c.fee_currency);
    lemma_text_order_composes(a.exchange, b.exchange, c.exchange);
    lemma_text_order_composes(a.comment, b.comment, c.comment);
    lemma_optional_amount_order_composes(a.buy_amount, b.buy_amount, c.buy_amount);
    lemma_optional_amount_order_composes(a.sell_amount, b.sell_amount, c.sell_amount);
    lemma_optional_amount_order_composes(a.fee_amount, b.fee_amount, c.fee_amount);
}

/// The first field, in the precedence of `SortKey`, in which two records
/// are not equal decides both their equality and their order: they are
/// not equal, and they are ordered as that field orders them.
pub proof fn lemma_first_difference_decides(a: TokenTaxRec, b: TokenTaxRec, key: SortKey)
    requires
        forall|earlier: SortKey|
            earlier.rank() < key.rank() ==> #[trigger] field_order(a@, b@, earlier)
                == Ordering::Equal,
        field_order(a@, b@, key) != Ordering::Equal,
    ensures
        !record_eq(a@, b@),
        record_order(a@, b@) == field_order(a@, b@, key),
{
    lemma_field_order_equal(a@, b@, key);
    assert(field_order(a@, b@, SortKey::Time) == Ordering::Equal || key.rank() <= 0);
    assert(field_order(a@, b@, SortKey::Kind) == Ordering::Equal || key.rank() <= 1);
    assert(field_order(a@, b@, SortKey::BuyCurrency) == Ordering::Equal || key.rank() <= 2);
    assert(field_order(a@, b@, SortKey::SellCurrency) == Ordering::Equal || key.rank() <= 3);
    assert(field_order(a@, b@, SortKey::FeeCurrency) == Ordering::Equal || key.rank() <= 4);
    assert(field_order(a@, b@, SortKey::BuyAmount) == Ordering::Equal || key.rank() <= 5);
    assert(field_order(a@, b@, SortKey::SellAmount) == Ordering::Equal || key.rank() <= 6);
    assert(field_order(a@, b@, SortKey::FeeAmount) == Ordering::Equal || key.rank() <= 7);
    assert(field_order(a@, b@, SortKey::Exchange) == Ordering::Equal || key.rank() <= 8);
    assert(field_order(a@, b@, SortKey::Group) == Ordering::Equal || key.rank() <= 9);
}

/// Records sort chronologically: the earlier of two records with
/// different times comes first, whatever their other fields hold.
pub proof fn lemma_earlier_record_first(a: TokenTaxRec, b: TokenTaxRec)
    requires
        a.time < b.time,
    ensures
        record_order(a@, b@) == Ordering::Less,
        record_order(b@, a@) == Ordering::Greater,
{
}

/// Two records are equal exactly when they compare equal.
pub proof fn lemma_equal_is_equal_in_order(a: TokenTaxRec, b: TokenTaxRec)
    ensures
        record_eq(a@, b@) <==> record_order(a@, b@) == Ordering::Equal,
{
    lemma_field_order_equal(a@, b@, SortKey::Time);
    lemma_field_order_equal(a@, b@, SortKey::Kind);
    lemma_field_order_equal(a@, b@, SortKey::BuyCurrency);
    lemma_field_order_equal(a@, b@, SortKey::SellCurrency);
    lemma_field_order_equal(a@, b@, SortKey::FeeCurrency);
    lemma_field_order_equal(a@, b@, SortKey::BuyAmount);
    lemma_field_order_equal(a@, b@, SortKey::SellAmount);
    lemma_field_order_equal(a@, b@, SortKey::FeeAmount);
    lemma_field_order_equal(a@, b@, SortKey::Exchange);
    lemma_field_order_equal(a@, b@, SortKey::Group);
    lemma_field_order_equal(a@, b@, SortKey::Comment);
}

/// Every record is equal to itself.
pub proof fn lemma_order_reflexive(a: TokenTaxRec)
    ensures
        record_eq(a@, a@),
        record_order(a@, a@) == Ordering::Equal,
{
    lemma_equal_is_equal_in_order(a, a);
}

/// Exchanging two records reverses the result of comparing them.
pub proof fn lemma_order_reverse(a: TokenTaxRec, b: TokenTaxRec)
    ensures
        record_order(b@, a@) == reverse(record_order(a@, b@)),
{
    lemma_field_order_reverse(a@, b@, SortKey::Time);
    lemma_field_order_reverse(a@, b@, SortKey::Kind);
    lemma_field_order_reverse(a@, b@, SortKey::BuyCurrency);
    lemma_field_order_reverse(a@, b@, SortKey::SellCurrency);
    lemma_field_order_reverse(a@, b@, SortKey::FeeCurrency);
    lemma_field_order_reverse(a@, b@, SortKey::BuyAmount);
    lemma_field_order_reverse(a@, b@, SortKey::SellAmount);
    lemma_field_order_reverse(a@, b@, SortKey::FeeAmount);
    lemma_field_order_reverse(a@, b@, SortKey::Exchange);
    lemma_field_order_reverse(a@, b@, SortKey::Group);
    lemma_field_order_reverse(a@, b@, SortKey::Comment);
}

/// The order of records is transitive: a tie between two records hands
/// the result against a third on, and two results in one direction
/// keep it.
pub proof fn lemma_order_transitive(a: TokenTaxRec, b: TokenTaxRec, c: TokenTaxRec)
    ensures
        composes(record_order(a@, b@), record_order(b@, c@), record_order(a@, c@)),
{
    lemma_field_order_composes(a@, b@, c@, SortKey::Time);
    lemma_field_order_composes(a@, b@, c@, SortKey::Kind);
    lemma_field_order_composes(a@, b@, c@, SortKey::BuyCurrency);
    lemma_field_order_composes(a@, b@, c@, SortKey::SellCurrency);
    lemma_field_order_composes(a@, b@, c@, SortKey::FeeCurrency);
    lemma_field_order_composes(a@, b@, c@, SortKey::BuyAmount);
    lemma_field_order_composes(a@, b@, c@, SortKey::SellAmount);
    lemma_field_order_composes(a@, b@, c@, SortKey::FeeAmount);
    lemma_field_order_composes(a@, b@, c@, SortKey::Exchange);
    lemma_field_order_composes(a@, b@, c@, SortKey::Group);
    lemma_field_order_composes(a@, b@, c@, SortKey::Comment);
}

} // verus!
