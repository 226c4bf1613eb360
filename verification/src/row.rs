//! Rows of the exchange format: the text cells of one record, by column,
//! and how a record is read from them and written to them.
//!
//! The `Date` column belongs to a timestamp codec that stands outside
//! this library: reading takes what the codec made of the cell, and
//! writing takes the text that the codec made of the time.

use crate::amount::{decimal_text, parsed_decimal, Amount, AmountView};
use crate::kind::{
    lemma_group_token_is_read_back, lemma_name_is_read_back, GroupType, TokenTaxRecType,
};
use crate::record::{optional_amount_view, TokenTaxRec, TokenTaxRecView};
use vstd::prelude::*;
use vstd::std_specs::cmp::PartialEqSpecImpl;

verus! {

/// The columns of a row, in the order of the row.
#[derive(Clone, Copy, Debug, PartialEq, Eq, Structural)]
pub enum Column {
    Type,
    BuyAmount,
    BuyCurrency,
    SellAmount,
    SellCurrency,
    FeeAmount,
    FeeCurrency,
    Exchange,
    Group,
    Comment,
    Date,
}

impl Column {
    /// The header of a column.
    pub open spec fn name_spec(self) -> Seq<char> {
        match self {
            Column::Type => "Type"@,
            Column::BuyAmount => "BuyAmount"@,
            Column::BuyCurrency => "BuyCurrency"@,
            Column::SellAmount => "SellAmount"@,
            Column::SellCurrency => "SellCurrency"@,
            Column::FeeAmount => "FeeAmount"@,
            Column::FeeCurrency => "FeeCurrency"@,
            Column::Exchange => "Exchange"@,
            Column::Group => "Group"@,
            Column::Comment => "Comment"@,
            Column::Date => "Date"@,
        }
    }

    /// The header of this column.
    pub fn name(&self) -> (r: &'static str)
        ensures
            r@ == self.name_spec(),
    {
        match self {
            Column::Type => "Type",
            Column::BuyAmount => "BuyAmount",
            Column::BuyCurrency => "BuyCurrency",
            Column::SellAmount => "SellAmount",
            Column::SellCurrency => "SellCurrency",
            Column::FeeAmount => "FeeAmount",
            Column::FeeCurrency => "FeeCurrency",
            Column::Exchange => "Exchange",
            Column::Group => "Group",
            Column::Comment => "Comment",
            Column::Date => "Date",
        }
    }
}

/// The cells of one row, as text. An empty cell is an empty text.
#[derive(Debug)]
pub struct Row {
    pub type_txs: String,
    pub buy_amount: String,
    pub buy_currency: String,
    pub sell_amount: String,
    pub sell_currency: String,
    pub fee_amount: String,
    pub fee_currency: String,
    pub exchange: String,
    pub group: String,
    pub comment: String,
    pub date: String,
}

/// What a row is: its cells as sequences of characters.
pub struct RowView {
    pub type_txs: Seq<char>,
    pub buy_amount: Seq<char>,
    pub buy_currency: Seq<char>,
    pub sell_amount: Seq<char>,
    pub sell_currency: Seq<char>,
    pub fee_amount: Seq<char>,
    pub fee_currency: Seq<char>,
    pub exchange: Seq<char>,
    pub group: Seq<char>,
    pub comment: Seq<char>,
    pub date: Seq<char>,
}

impl View for Row {
    type V = RowView;

    open spec fn view(&self) -> RowView {
        RowView {
            type_txs: self.type_txs@,
            buy_amount: self.buy_amount@,
            buy_currency: self.buy_currency@,
            sell_amount: self.sell_amount@,
            sell_currency: self.sell_currency@,
            fee_amount: self.fee_amount@,
            fee_currency: self.fee_currency@,
            exchange: self.exchange@,
            group: self.group@,
            comment: self.comment@,
            date: self.date@,
        }
    }
}

impl Clone for Row {
    fn clone(&self) -> (r: Row)
        ensures
            r == *self,
    {
        Row {
            type_txs: self.type_txs.clone(),
            buy_amount: self.buy_amount.clone(),
            buy_currency: self.buy_currency.clone(),
            sell_amount: self.sell_amount.clone(),
            sell_currency: self.sell_currency.clone(),
            fee_amount: self.fee_amount.clone(),
            fee_currency: self.fee_currency.clone(),
            exchange: self.exchange.clone(),
            group: self.group.clone(),
            comment: self.comment.clone(),
            date: self.date.clone(),
        }
    }
}

impl PartialEqSpecImpl for Row {
    open spec fn obeys_eq_spec() -> bool {
        true
    }

    open spec fn eq_spec(&self, other: &Row) -> bool {
        self@ == other@
    }
}

impl PartialEq for Row {
    fn eq(&self, other: &Row) -> (r: bool) {
        self.type_txs == other.type_txs && self.buy_amount == other.buy_amount
            && self.buy_currency == other.buy_currency && self.sell_amount == other.sell_amount
            && self.sell_currency == other.sell_currency && self.fee_amount == other.fee_amount
            && self.fee_currency == other.fee_currency && self.exchange == other.exchange
            && self.group == other.group && self.comment == other.comment && self.date
            == other.date
    }
}

impl Eq for Row {}

impl RowView {
    /// The cell of a column.
    pub open spec fn cell(self, column: Column) -> Seq<char> {
        match column {
            Column::Type => self.type_txs,
            Column::BuyAmount => self.buy_amount,
            Column::BuyCurrency => self.buy_currency,
            Column::SellAmount => self.sell_amount,
            Column::SellCurrency => self.sell_currency,
            Column::FeeAmount => self.fee_amount,
            Column::FeeCurrency => self.fee_currency,
            Column::Exchange => self.exchange,
            Column::Group => self.group,
            Column::Comment => self.comment,
            Column::Date => self.date,
        }
    }
}

/// Why a row was not read: the first column, in the order of the row,
/// whose cell is not valid, and that cell as it stood.
#[derive(Debug)]
pub struct DecodeError {
    pub column: Column,
    pub value: String,
}

/// What a decode error is.
pub struct DecodeErrorView {
    pub column: Column,
    pub value: Seq<char>,
}

impl View for DecodeError {
    type V = DecodeErrorView;

    open spec fn view(&self) -> DecodeErrorView {
        DecodeErrorView { column: self.column, value: self.value@ }
    }
}

impl Clone for DecodeError {
    fn clone(&self) -> (r: DecodeError)
        ensures
            r == *self,
    {
        DecodeError { column: self.column, value: self.value.clone() }
    }
}

impl PartialEqSpecImpl for DecodeError {
    open spec fn obeys_eq_spec() -> bool {
        true
    }

    open spec fn eq_spec(&self, other: &DecodeError) -> bool {
        self@ == other@
    }
}

impl PartialEq for DecodeError {
    fn eq(&self, other: &DecodeError) -> (r: bool) {
        self.column == other.column && self.value == other.value
    }
}

impl Eq for DecodeError {}

/// What the result of reading a row is.
pub open spec fn result_view(r: Result<TokenTaxRec, DecodeError>) -> Result<
    TokenTaxRecView,
    DecodeErrorView,
> {
    match r {
        Ok(rec) => Ok(rec@),
        Err(e) => Err(e@),
    }
}

/// What an amount cell holds, given what the decimal reader made of its
/// text: nothing where the cell is empty, the amount read where one was
/// read. The outer `None` says that the cell is not valid.
pub open spec fn amount_cell(cell: Seq<char>, parsed: Option<AmountView>) -> Option<
    Option<AmountView>,
> {
    if cell.len() == 0 {
        Some(None)
    } else {
        match parsed {
            Some(a) => Some(Some(a)),
            None => None,
        }
    }
}

/// What a `Group` cell holds: nothing where the cell is empty, the group
/// it spells where it spells one. The outer `None` says that the cell is
/// not valid.
pub open spec fn group_cell(cell: Seq<char>) -> Option<Option<GroupType>> {
    if cell.len() == 0 {
        Some(None)
    } else {
        match GroupType::from_token_spec(cell) {
            Some(g) => Some(Some(g)),
            None => None,
        }
    }
}

/// The text of an amount cell: empty for no amount.
pub open spec fn amount_cell_text(amount: Option<AmountView>) -> Seq<char> {
    match amount {
        Some(a) => decimal_text(a.mantissa, a.scale),
        None => Seq::<char>::empty(),
    }
}

/// The text of a `Group` cell: empty for no group.
pub open spec fn group_cell_text(group: Option<GroupType>) -> Seq<char> {
    match group {
        Some(g) => g.token_spec(),
        None => Seq::<char>::empty(),
    }
}

/// The error that names a column of a row.
pub open spec fn invalid(row: RowView, column: Column) -> DecodeErrorView {
    DecodeErrorView { column, value: row.cell(column) }
}

/// What reading a row gives, given what the decimal reader made of the
/// three amount cells and what the timestamp codec made of the `Date`
/// cell: the record, or the first column in the order of the row whose
/// cell is not valid.
pub open spec fn decoded(
    row: RowView,
    buy: Option<AmountView>,
    sell: Option<AmountView>,
    fee: Option<AmountView>,
    time: Option<i64>,
) -> Result<TokenTaxRecView, DecodeErrorView> {
    if TokenTaxRecType::from_name_spec(row.type_txs) is None {
        Err(invalid(row, Column::Type))
    } else if amount_cell(row.buy_amount, buy) is None {
        Err(invalid(row, Column::BuyAmount))
    } else if amount_cell(row.sell_amount, sell) is None {
        Err(invalid(row, Column::SellAmount))
    } else if amount_cell(row.fee_amount, fee) is None {
        Err(invalid(row, Column::FeeAmount))
    } else if group_cell(row.group) is None {
        Err(invalid(row, Column::Group))
    } else if time is None {
        Err(invalid(row, Column::Date))
    } else {
        Ok(
            TokenTaxRecView {
                type_txs: TokenTaxRecType::from_name_spec(row.type_txs)->0,
                buy_amount: amount_cell(row.buy_amount, buy)->0,
                buy_currency: row.buy_currency,
                sell_amount: amount_cell(row.sell_amount, sell)->0,
                sell_currency: row.sell_currency,
                fee_amount: amount_cell(row.fee_amount, fee)->0,
                fee_currency: row.fee_currency,
                exchange: row.exchange,
                group: group_cell(row.group)->0,
                comment: row.comment,
                time: time->0 as int,
            },
        )
    }
}

/// The row that a record is written to, given the text that the
/// timestamp codec made of its time.
pub open spec fn encoded(rec: TokenTaxRecView, date: Seq<char>) -> RowView {
    RowView {
        type_txs: rec.type_txs.name_spec(),
        buy_amount: amount_cell_text(rec.buy_amount),
        buy_currency: rec.buy_currency,
        sell_amount: amount_cell_text(rec.sell_amount),
        sell_currency: rec.sell_currency,
        fee_amount: amount_cell_text(rec.fee_amount),
        fee_currency: rec.fee_currency,
        exchange: rec.exchange,
        group: group_cell_text(rec.group),
        comment: rec.comment,
        date,
    }
}

/// Reads the kind from a `Type` cell.
pub fn decode_kind(cell: &str) -> (r: Result<TokenTaxRecType, DecodeError>)
    ensures
        match TokenTaxRecType::from_name_spec(cell@) {
            Some(kind) => r == Ok::<TokenTaxRecType, DecodeError>(kind),
            None => r matches Err(e) && e@ == (DecodeErrorView {
                column: Column::Type,
                value: cell@,
            }),
        },
{
    match TokenTaxRecType::from_name(cell) {
        Some(kind) => Ok(kind),
        None => Err(DecodeError { column: Column::Type, value: cell.to_owned() }),
    }
}

/// Reads the group from a `Group` cell.
pub fn decode_group(cell: &str) -> (r: Result<Option<GroupType>, DecodeError>)
    ensures
        match group_cell(cell@) {
            Some(group) => r == Ok::<Option<GroupType>, DecodeError>(group),
            None => r matches Err(e) && e@ == (DecodeErrorView {
                column: Column::Group,
                value: cell@,
            }),
        },
{
    if cell.is_empty() {
        Ok(None)
    } else {
        match GroupType::from_token(cell) {
            Some(group) => Ok(Some(group)),
            None => Err(DecodeError { column: Column::Group, value: cell.to_owned() }),
        }
    }
}

/// What an amount cell of the given column holds, given what the decimal
/// reader made of its text.
pub fn amount_from_cell(column: Column, cell: &str, parsed: Option<Amount>) -> (r: Result<
    Option<Amount>,
    DecodeError,
>)
    ensures
        cell@.len() == 0 ==> r == Ok::<Option<Amount>, DecodeError>(None),
        cell@.len() > 0 && parsed is Some ==> r == Ok::<Option<Amount>, DecodeError>(parsed),
        cell@.len() > 0 && parsed is None ==> (r matches Err(e) && e@ == (DecodeErrorView {
            column,
            value: cell@,
        })),
{
    if cell.is_empty() {
        Ok(None)
    } else {
        match parsed {
            Some(amount) => Ok(Some(amount)),
            None => Err(DecodeError { column, value: cell.to_owned() }),
        }
    }
}

/// Reads the amount from an amount cell of the given column.
pub fn decode_amount(column: Column, cell: &str) -> (r: Result<Option<Amount>, DecodeError>)
    ensures
        match amount_cell(cell@, parsed_decimal(cell@)) {
            Some(amount) => r matches Ok(a) && optional_amount_view(a) == amount,
            None => r matches Err(e) && e@ == (DecodeErrorView { column, value: cell@ }),
        },
{
    let parsed = Amount::parse(cell);
    amount_from_cell(column, cell, parsed)
}

/// The text of an amount cell.
pub fn encode_amount(amount: &Option<Amount>) -> (r: String)
    ensures
        r@ == amount_cell_text(optional_amount_view(*amount)),
{
    match amount {
        Some(a) => a.to_text(),
        None => String::new(),
    }
}

/// The text of a `Group` cell.
pub fn encode_group(group: &Option<GroupType>) -> (r: String)
    ensures
        r@ == group_cell_text(*group),
{
    match group {
        Some(g) => g.token().to_owned(),
        None => String::new(),
    }
}

impl TokenTaxRec {
    /// Builds the record of a row from its cells, from what the decimal
    /// reader made of the three amount cells, and from what the timestamp
    /// codec made of the `Date` cell (`None` where it rejected the cell).
    /// The first column, in the order of the row, whose cell is not valid
    /// fails the row.
    pub fn from_cells(
        row: &Row,
        buy: Option<Amount>,
        sell: Option<Amount>,
        fee: Option<Amount>,
        time: Option<i64>,
    ) -> (r: Result<TokenTaxRec, DecodeError>)
        ensures
            result_view(r) == decoded(
                row@,
                optional_amount_view(buy),
                optional_amount_view(sell),
                optional_amount_view(fee),
                time,
            ),
    {
        let type_txs = match decode_kind(row.type_txs.as_str()) {
            Ok(kind) => kind,
            Err(e) => return Err(e),
        };
        let buy_amount = match amount_from_cell(Column::BuyAmount, row.buy_amount.as_str(), buy) {
            Ok(amount) => amount,
            Err(e) => return Err(e),
        };
        let sell_amount = match amount_from_cell(
            Column::SellAmount,
            row.sell_amount.as_str(),
            sell,
        ) {
            Ok(amount) => amount,
            Err(e) => return Err(e),
        };
        let fee_amount = match amount_from_cell(Column::FeeAmount, row.fee_amount.as_str(), fee) {
            Ok(amount) => amount,
            Err(e) => return Err(e),
        };
        let group = match decode_group(row.group.as_str()) {
            Ok(group) => group,
            Err(e) => return Err(e),
        };
        let time = match time {
            Some(t) => t,
            None => return Err(DecodeError { column: Column::Date, value: row.date.clone() }),
        };
        Ok(
            TokenTaxRec {
                type_txs,
                buy_amount,
                buy_currency: row.buy_currency.clone(),
                sell_amount,
                sell_currency: row.sell_currency.clone(),
                fee_amount,
                fee_currency: row.fee_currency.clone(),
                exchange: row.exchange.clone(),
                group,
                comment: row.comment.clone(),
                time,
            },
        )
    }

    /// Reads a record from a row, given what the timestamp codec made of
    /// the `Date` cell (`None` where it rejected the cell).
    pub fn decode(row: &Row, time: Option<i64>) -> (r: Result<TokenTaxRec, DecodeError>)
        ensures
            result_view(r) == decoded(
                row@,
                parsed_decimal(row.buy_amount@),
                parsed_decimal(row.sell_amount@),
                parsed_decimal(row.fee_amount@),
                time,
            ),
    {
        let buy = Amount::parse(row.buy_amount.as_str());
        let sell = Amount::parse(row.sell_amount.as_str());
        let fee = Amount::parse(row.fee_amount.as_str());
        TokenTaxRec::from_cells(row, buy, sell, fee, time)
    }

    /// Writes this record to a row, given the text that the timestamp
    /// codec made of its time.
    pub fn encode(&self, date: String) -> (r: Row)
        ensures
            r@ == encoded(self@, date@),
    {
        Row {
            type_txs: self.type_txs.name().to_owned(),
            buy_amount: encode_amount(&self.buy_amount),
            buy_currency: self.buy_currency.clone(),
            sell_amount: encode_amount(&self.sell_amount),
            sell_currency: self.sell_currency.clone(),
            fee_amount: encode_amount(&self.fee_amount),
            fee_currency: self.fee_currency.clone(),
            exchange: self.exchange.clone(),
            group: encode_group(&self.group),
            comment: self.comment.clone(),
            date,
        }
    }
}

/// Whether an amount cell is written as the decimal printer writes the
/// amount that the decimal reader reads from it.
pub open spec fn canonical_amount_cell(cell: Seq<char>) -> bool {
    cell.len() > 0 ==> (parsed_decimal(cell) matches Some(a) && decimal_text(a.mantissa, a.scale)
        == cell)
}

/// A row whose `Type` cell spells no kind, or whose `Group` cell is
/// neither empty nor the spelling of a group, is not read.
pub proof fn lemma_unrecognized_token_fails(
    row: RowView,
    buy: Option<AmountView>,
    sell: Option<AmountView>,
    fee: Option<AmountView>,
    time: Option<i64>,
)
    requires
        TokenTaxRecType::from_name_spec(row.type_txs) is None || (row.group.len() > 0
            && GroupType::from_token_spec(row.group) is None),
    ensures
        decoded(row, buy, sell, fee, time) is Err,
        TokenTaxRecType::from_name_spec(row.type_txs) is None ==> decoded(
            row,
            buy,
            sell,
            fee,
            time,
        ) == Err::<TokenTaxRecView, DecodeErrorView>(
            DecodeErrorView { column: Column::Type, value: row.type_txs },
        ),
{
}

/// The error of a row that is not read holds the cell of the column it
/// names, as the cell stood in the row.
pub proof fn lemma_error_holds_cell(
    row: RowView,
    buy: Option<AmountView>,
    sell: Option<AmountView>,
    fee: Option<AmountView>,
    time: Option<i64>,
)
    ensures
        decoded(row, buy, sell, fee, time) matches Err(e) ==> e.value == row.cell(e.column),
{
}

/// Reading a row and writing the record back gives the cells of the row:
/// each text cell, the `Type` cell and the `Group` cell as they stood;
/// each amount cell as the decimal printer writes the amount read from
/// it, and empty where it was empty; and in the `Date` cell the text
/// that the timestamp codec hands in.
pub proof fn lemma_decode_then_encode(
    row: RowView,
    buy: Option<AmountView>,
    sell: Option<AmountView>,
    fee: Option<AmountView>,
    time: Option<i64>,
    date: Seq<char>,
)
    requires
        decoded(row, buy, sell, fee, time) is Ok,
    ensures
        ({
            let back = encoded(decoded(row, buy, sell, fee, time)->Ok_0, date);
            &&& back.type_txs == row.type_txs
            &&& back.buy_currency == row.buy_currency
            &&& back.sell_currency == row.sell_currency
            &&& back.fee_currency == row.fee_currency
            &&& back.exchange == row.exchange
            &&& back.group == row.group
            &&& back.comment == row.comment
            &&& back.date == date
            &&& back.buy_amount == amount_cell_text(amount_cell(row.buy_amount, buy)->0)
            &&& back.sell_amount == amount_cell_text(amount_cell(row.sell_amount, sell)->0)
            &&& back.fee_amount == amount_cell_text(amount_cell(row.fee_amount, fee)->0)
        }),
{
    let rec = decoded(row, buy, sell, fee, time)->Ok_0;
    assert(group_cell_text(rec.group) =~= row.group);
}

/// Reading a row and writing the record back gives the row itself, where
/// each amount cell is written as the decimal printer writes it and the
/// timestamp codec hands the `Date` cell back.
pub proof fn lemma_round_trip(row: RowView, time: Option<i64>)
    requires
        decoded(
            row,
            parsed_decimal(row.buy_amount),
            parsed_decimal(row.sell_amount),
            parsed_decimal(row.fee_amount),
            time,
        ) is Ok,
        canonical_amount_cell(row.buy_amount),
        canonical_amount_cell(row.sell_amount),
        canonical_amount_cell(row.fee_amount),
    ensures
        encoded(
            decoded(
                row,
                parsed_decimal(row.buy_amount),
                parsed_decimal(row.sell_amount),
                parsed_decimal(row.fee_amount),
                time,
            )->Ok_0,
            row.date,
        ) == row,
{
    lemma_decode_then_encode(
        row,
        parsed_decimal(row.buy_amount),
        parsed_decimal(row.sell_amount),
        parsed_decimal(row.fee_amount),
        time,
        row.date,
    );
    let rec = decoded(
        row,
        parsed_decimal(row.buy_amount),
        parsed_decimal(row.sell_amount),
        parsed_decimal(row.fee_amount),
        time,
    )->Ok_0;
    assert(amount_cell_text(rec.buy_amount) =~= row.buy_amount);
    assert(amount_cell_text(rec.sell_amount) =~= row.sell_amount);
    assert(amount_cell_text(rec.fee_amount) =~= row.fee_amount);
}

/// Writing a record and reading the row back gives the record, where
/// the kind is not `Unknown`, the decimal reader reads each amount cell
/// back as the amount written, and the timestamp codec reads the `Date`
/// cell back as the time.
pub proof fn lemma_encode_then_decode(rec: TokenTaxRecView, date: Seq<char>, time: i64)
    requires
        !(rec.type_txs is Unknown),
        rec.time == time,
        rec.buy_amount is Some ==> amount_cell_text(rec.buy_amount).len() > 0,
        rec.sell_amount is Some ==> amount_cell_text(rec.sell_amount).len() > 0,
        rec.fee_amount is Some ==> amount_cell_text(rec.fee_amount).len() > 0,
    ensures
        decoded(
            encoded(rec, date),
            rec.buy_amount,
            rec.sell_amount,
            rec.fee_amount,
            Some(time),
        ) == Ok::<TokenTaxRecView, DecodeErrorView>(rec),
{
    lemma_name_is_read_back(rec.type_txs);
    if rec.group is Some {
        lemma_group_token_is_read_back(rec.group->0, Seq::<char>::empty());
    }
}

} // verus!
