use token_tax_rec::{Amount, GroupType, TokenTaxRec, TokenTaxRecType};

fn dec(mantissa: i128, scale: u32) -> Amount {
    Amount::new(mantissa, scale).unwrap()
}

#[test]
fn test_new() {
    let ttr = TokenTaxRec::new();
    assert_eq!(ttr.type_txs, TokenTaxRecType::Unknown);
    assert_eq!(ttr.buy_amount, None);
    assert_eq!(ttr.buy_currency, "".to_owned());
    assert_eq!(ttr.sell_amount, None);
    assert_eq!(ttr.sell_currency, "".to_owned());
    assert_eq!(ttr.fee_amount, None);
    assert_eq!(ttr.fee_currency, "".to_owned());
    assert_eq!(ttr.exchange, "".to_owned());
    assert_eq!(ttr.group, None);
    assert_eq!(ttr.comment, "".to_owned());
}

#[test]
fn test_new_time_is_zero() {
    assert_eq!(TokenTaxRec::new().time, 0);
}

#[test]
fn test_default() {
    let ttr_default = TokenTaxRec::default();
    let ttr_new = TokenTaxRec::new();
    assert_eq!(ttr_default, ttr_new);
}

#[test]
fn test_default_field_for_field() {
    let d = TokenTaxRec::default();
    let n = TokenTaxRec::new();
    assert_eq!(d.type_txs, n.type_txs);
    assert_eq!(d.buy_amount, n.buy_amount);
    assert_eq!(d.buy_currency, n.buy_currency);
    assert_eq!(d.sell_amount, n.sell_amount);
    assert_eq!(d.sell_currency, n.sell_currency);
    assert_eq!(d.fee_amount, n.fee_amount);
    assert_eq!(d.fee_currency, n.fee_currency);
    assert_eq!(d.exchange, n.exchange);
    assert_eq!(d.group, n.group);
    assert_eq!(d.comment, n.comment);
    assert_eq!(d.time, n.time);
}

#[test]
fn test_from_sets_every_field() {
    let ttr = TokenTaxRec::from(
        TokenTaxRecType::Trade,
        Some(dec(1, 0)),
        "ETH".to_owned(),
        Some(dec(31200, 2)),
        "USD".to_owned(),
        Some(dec(124, 5)),
        "BNB".to_owned(),
        "binance.us".to_owned(),
        Some(GroupType::Margin),
        "note".to_owned(),
        1_650_000_000_123,
    );
    assert_eq!(ttr.type_txs, TokenTaxRecType::Trade);
    assert_eq!(ttr.buy_amount, Some(dec(1, 0)));
    assert_eq!(ttr.buy_currency, "ETH");
    assert_eq!(ttr.sell_amount, Some(dec(312, 0)));
    assert_eq!(ttr.sell_currency, "USD");
    assert_eq!(ttr.fee_amount.unwrap().mantissa(), 124);
    assert_eq!(ttr.fee_amount.unwrap().scale(), 5);
    assert_eq!(ttr.fee_currency, "BNB");
    assert_eq!(ttr.exchange, "binance.us");
    assert_eq!(ttr.group, Some(GroupType::Margin));
    assert_eq!(ttr.comment, "note");
    assert_eq!(ttr.time, 1_650_000_000_123);
}

#[test]
fn test_eqne() {
    let mut ttr = TokenTaxRec::default();
    let mut ttr_other = TokenTaxRec::default();
    assert!(ttr == ttr_other);

    // The last field of the precedence is changed first, so that every
    // path is taken.
    ttr_other.comment = "b".to_owned();
    assert!(ttr != ttr_other);

    ttr.exchange = "a".to_owned();
    ttr_other.exchange = "b".to_owned();
    assert!(ttr != ttr_other);

    ttr.fee_amount = Some(dec(0, 0));
    ttr_other.fee_amount = Some(dec(1, 0));
    assert!(ttr != ttr_other);

    ttr.sell_amount = Some(dec(0, 0));
    ttr_other.sell_amount = Some(dec(1, 0));
    assert!(ttr != ttr_other);

    ttr.buy_amount = Some(dec(0, 0));
    ttr_other.buy_amount = Some(dec(1, 0));
    assert!(ttr != ttr_other);

    ttr.fee_currency = "a".to_owned();
    ttr_other.fee_currency = "b".to_owned();
    assert!(ttr != ttr_other);

    ttr.sell_currency = "a".to_owned();
    ttr_other.sell_currency = "b".to_owned();
    assert!(ttr != ttr_other);

    ttr.buy_currency = "a".to_owned();
    ttr_other.buy_currency = "b".to_owned();
    assert!(ttr != ttr_other);

    ttr.type_txs = TokenTaxRecType::Income;
    ttr_other.type_txs = TokenTaxRecType::Trade;
    assert!(ttr != ttr_other);

    ttr.time = 0;
    ttr_other.time = 1;
    assert!(ttr != ttr_other);
}

#[test]
fn test_partial_ord() {
    let mut ttr = TokenTaxRec::default();
    let mut ttr_other = TokenTaxRec::default();

    assert!(ttr <= ttr_other);

    // The last field of the precedence is changed first, so that every
    // path is taken.
    ttr_other.comment = "b".to_owned();
    assert!(ttr < ttr_other);

    ttr.exchange = "a".to_owned();
    ttr_other.exchange = "b".to_owned();
    assert!(ttr < ttr_other);

    ttr.fee_amount = Some(dec(0, 0));
    ttr_other.fee_amount = Some(dec(1, 0));
    assert!(ttr < ttr_other);

    ttr.sell_amount = Some(dec(0, 0));
    ttr_other.sell_amount = Some(dec(1, 0));
    assert!(ttr < ttr_other);

    ttr.buy_amount = Some(dec(0, 0));
    ttr_other.buy_amount = Some(dec(1, 0));
    assert!(ttr < ttr_other);

    ttr.fee_currency = "a".to_owned();
    ttr_other.fee_currency = "b".to_owned();
    assert!(ttr < ttr_other);

    ttr.sell_currency = "a".to_owned();
    ttr_other.sell_currency = "b".to_owned();
    assert!(ttr < ttr_other);

    ttr.buy_currency = "a".to_owned();
    ttr_other.buy_currency = "b".to_owned();
    assert!(ttr < ttr_other);

    ttr.type_txs = TokenTaxRecType::Income;
    ttr_other.type_txs = TokenTaxRecType::Trade;
    assert!(ttr < ttr_other);

    ttr.time = 0;
    ttr_other.time = 1;
    assert!(ttr < ttr_other);
}

#[test]
#[should_panic]
fn test_get_asset_panic() {
    let tbr = TokenTaxRec::new();

    assert_eq!(tbr.type_txs, TokenTaxRecType::Unknown);
    tbr.get_asset();
}

#[test]
fn test_get_asset() {
    let mut tbr = TokenTaxRec::new();

    tbr.type_txs = TokenTaxRecType::Withdrawal;
    tbr.sell_currency = "ABC".to_owned();
    assert_eq!(tbr.get_asset(), "ABC");

    tbr.type_txs = TokenTaxRecType::Spend;
    tbr.sell_currency = "ABC".to_owned();
    assert_eq!(tbr.get_asset(), "ABC");

    tbr.type_txs = TokenTaxRecType::Stolen;
    tbr.sell_currency = "ABC".to_owned();
    assert_eq!(tbr.get_asset(), "ABC");

    tbr.type_txs = TokenTaxRecType::Gift;
    tbr.sell_currency = "ABC".to_owned();
    assert_eq!(tbr.get_asset(), "ABC");

    tbr.type_txs = TokenTaxRecType::Lost;
    tbr.sell_currency = "ABC".to_owned();
    assert_eq!(tbr.get_asset(), "ABC");

    tbr.type_txs = TokenTaxRecType::Trade;
    tbr.buy_currency = "ABC".to_owned();
    assert_eq!(tbr.get_asset(), "ABC");

    tbr.type_txs = TokenTaxRecType::Deposit;
    tbr.buy_currency = "ABC".to_owned();
    assert_eq!(tbr.get_asset(), "ABC");

    tbr.type_txs = TokenTaxRecType::Income;
    tbr.buy_currency = "ABC".to_owned();
    assert_eq!(tbr.get_asset(), "ABC");

    tbr.type_txs = TokenTaxRecType::Mining;
    tbr.buy_currency = "ABC".to_owned();
    assert_eq!(tbr.get_asset(), "ABC");
}

#[test]
#[should_panic]
fn test_get_other_asset_panic() {
    let tbr = TokenTaxRec::new();

    assert_eq!(tbr.type_txs, TokenTaxRecType::Unknown);
    tbr.get_other_asset();
}

#[test]
fn test_get_other_asset() {
    let mut tbr = TokenTaxRec::new();

    tbr.type_txs = TokenTaxRecType::Withdrawal;
    tbr.buy_currency = "ABC".to_owned();
    assert_eq!(tbr.get_other_asset(), "ABC");

    tbr.type_txs = TokenTaxRecType::Spend;
    tbr.buy_currency = "ABC".to_owned();
    assert_eq!(tbr.get_other_asset(), "ABC");

    tbr.type_txs = TokenTaxRecType::Stolen;
    tbr.buy_currency = "ABC".to_owned();
    assert_eq!(tbr.get_other_asset(), "ABC");

    tbr.type_txs = TokenTaxRecType::Gift;
    tbr.buy_currency = "ABC".to_owned();
    assert_eq!(tbr.get_other_asset(), "ABC");

    tbr.type_txs = TokenTaxRecType::Lost;
    tbr.buy_currency = "ABC".to_owned();
    assert_eq!(tbr.get_other_asset(), "ABC");

    tbr.type_txs = TokenTaxRecType::Trade;
    tbr.sell_currency = "ABC".to_owned();
    assert_eq!(tbr.get_other_asset(), "ABC");

    tbr.type_txs = TokenTaxRecType::Deposit;
    tbr.sell_currency = "ABC".to_owned();
    assert_eq!(tbr.get_other_asset(), "ABC");

    tbr.type_txs = TokenTaxRecType::Income;
    tbr.sell_currency = "ABC".to_owned();
    assert_eq!(tbr.get_other_asset(), "ABC");

    tbr.type_txs = TokenTaxRecType::Mining;
    tbr.sell_currency = "ABC".to_owned();
    assert_eq!(tbr.get_other_asset(), "ABC");
}

#[test]
#[should_panic]
fn test_get_quantity_panic() {
    let tbr = TokenTaxRec::new();

    assert_eq!(tbr.type_txs, TokenTaxRecType::Unknown);
    tbr.get_quantity();
}

#[test]
fn test_get_quantity() {
    let mut tbr = TokenTaxRec::new();

    tbr.type_txs = TokenTaxRecType::Withdrawal;
    tbr.sell_amount = Some(dec(1, 0));
    assert_eq!(tbr.get_quantity(), dec(1, 0));

    tbr.type_txs = TokenTaxRecType::Spend;
    tbr.sell_amount = Some(dec(1, 0));
    assert_eq!(tbr.get_quantity(), dec(1, 0));

    tbr.type_txs = TokenTaxRecType::Stolen;
    tbr.sell_amount = Some(dec(1, 0));
    assert_eq!(tbr.get_quantity(), dec(1, 0));

    tbr.type_txs = TokenTaxRecType::Gift;
    tbr.sell_amount = Some(dec(1, 0));
    assert_eq!(tbr.get_quantity(), dec(1, 0));

    tbr.type_txs = TokenTaxRecType::Lost;
    tbr.sell_amount = Some(dec(1, 0));
    assert_eq!(tbr.get_quantity(), dec(1, 0));

    tbr.type_txs = TokenTaxRecType::Trade;
    tbr.buy_amount = Some(dec(1, 0));
    assert_eq!(tbr.get_quantity(), dec(1, 0));

    tbr.type_txs = TokenTaxRecType::Deposit;
    tbr.buy_amount = Some(dec(1, 0));
    assert_eq!(tbr.get_quantity(), dec(1, 0));

    tbr.type_txs = TokenTaxRecType::Income;
    tbr.buy_amount = Some(dec(1, 0));
    assert_eq!(tbr.get_quantity(), dec(1, 0));

    tbr.type_txs = TokenTaxRecType::Mining;
    tbr.buy_amount = Some(dec(1, 0));
    assert_eq!(tbr.get_quantity(), dec(1, 0));
}

// The accessors on records whose two sides differ: each kind reads its
// own side, and the other accessor the other side.
fn two_sided(kind: TokenTaxRecType) -> TokenTaxRec {
    TokenTaxRec::from(
        kind,
        Some(dec(25, 1)),
        "BUY".to_owned(),
        Some(dec(7, 0)),
        "SELL".to_owned(),
        Some(dec(1, 2)),
        "FEE".to_owned(),
        "venue".to_owned(),
        None,
        String::new(),
        5,
    )
}

#[test]
fn test_acquiring_kinds_read_the_buy_side() {
    for kind in [
        TokenTaxRecType::Trade,
        TokenTaxRecType::Deposit,
        TokenTaxRecType::Income,
        TokenTaxRecType::Mining,
    ] {
        let rec = two_sided(kind);
        assert_eq!(rec.get_asset(), "BUY");
        assert_eq!(rec.get_other_asset(), "SELL");
        assert_eq!(rec.get_quantity().mantissa(), 25);
        assert_eq!(rec.get_quantity().scale(), 1);
    }
}

#[test]
fn test_disposing_kinds_read_the_sell_side() {
    for kind in [
        TokenTaxRecType::Withdrawal,
        TokenTaxRecType::Spend,
        TokenTaxRecType::Lost,
        TokenTaxRecType::Stolen,
        TokenTaxRecType::Gift,
    ] {
        let rec = two_sided(kind);
        assert_eq!(rec.get_asset(), "SELL");
        assert_eq!(rec.get_other_asset(), "BUY");
        assert_eq!(rec.get_quantity().mantissa(), 7);
        assert_eq!(rec.get_quantity().scale(), 0);
    }
}

#[test]
fn test_accessors_read_the_current_fields() {
    let mut rec = two_sided(TokenTaxRecType::Trade);
    assert_eq!(rec.get_asset(), "BUY");
    rec.buy_currency = "ETH".to_owned();
    assert_eq!(rec.get_asset(), "ETH");
    rec.type_txs = TokenTaxRecType::Gift;
    assert_eq!(rec.get_asset(), "SELL");
}

#[test]
fn test_has_subject_and_quantity() {
    let empty = TokenTaxRec::new();
    assert!(!empty.has_subject());
    assert!(!empty.has_quantity());

    let mut rec = TokenTaxRec::new();
    rec.type_txs = TokenTaxRecType::Deposit;
    assert!(rec.has_subject());
    assert!(!rec.has_quantity());
    rec.sell_amount = Some(dec(1, 0));
    assert!(!rec.has_quantity());
    rec.buy_amount = Some(dec(2, 0));
    assert!(rec.has_quantity());
    assert_eq!(rec.get_quantity(), dec(2, 0));

    rec.type_txs = TokenTaxRecType::Gift;
    assert!(rec.has_quantity());
    assert_eq!(rec.get_quantity(), dec(1, 0));
    rec.sell_amount = None;
    assert!(rec.has_subject());
    assert!(!rec.has_quantity());

    rec.type_txs = TokenTaxRecType::Unknown;
    rec.sell_amount = Some(dec(1, 0));
    assert!(!rec.has_quantity());
}

#[test]
fn test_clone_keeps_every_field() {
    let rec = two_sided(TokenTaxRecType::Spend);
    let copy = rec.clone();
    assert_eq!(copy, rec);
    assert_eq!(copy.buy_currency, "BUY");
    assert_eq!(copy.sell_currency, "SELL");
    assert_eq!(copy.fee_currency, "FEE");
    assert_eq!(copy.exchange, "venue");
    assert_eq!(copy.fee_amount.unwrap().mantissa(), 1);
    assert_eq!(copy.fee_amount.unwrap().scale(), 2);
    assert_eq!(copy.time, 5);
}
