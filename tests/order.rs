use nybble::NybbleOrder;

#[test]
fn selector_by_first_character() {
    assert_eq!(NybbleOrder::from_selector("h"), Some(NybbleOrder::HighFirst));
    assert_eq!(NybbleOrder::from_selector("high"), Some(NybbleOrder::HighFirst));
    assert_eq!(NybbleOrder::from_selector("l"), Some(NybbleOrder::LowFirst));
    assert_eq!(NybbleOrder::from_selector("lowfirst"), Some(NybbleOrder::LowFirst));
}

#[test]
fn selector_refused() {
    assert_eq!(NybbleOrder::from_selector(""), None);
    assert_eq!(NybbleOrder::from_selector("H"), None);
    assert_eq!(NybbleOrder::from_selector("x"), None);
    assert_eq!(NybbleOrder::from_selector(" h"), None);
}

#[test]
fn symbols() {
    assert_eq!(NybbleOrder::HighFirst.symbol(), "h");
    assert_eq!(NybbleOrder::LowFirst.symbol(), "l");
    for order in [NybbleOrder::HighFirst, NybbleOrder::LowFirst] {
        assert_eq!(NybbleOrder::from_selector(&order.symbol()), Some(order));
    }
}
