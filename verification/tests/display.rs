use croissant_game::{format_money, InvalidActionError, InvalidActionErrorCause};

#[test]
fn format_money_pads_cents_to_two_digits() {
    assert_eq!(format_money(0), "$0.00");
    assert_eq!(format_money(7), "$0.07");
    assert_eq!(format_money(99), "$0.99");
    assert_eq!(format_money(100), "$1.00");
    assert_eq!(format_money(700), "$7.00");
    assert_eq!(format_money(12345), "$123.45");
    assert_eq!(format_money(2147483647), "$21474836.47");
}

#[test]
fn describe_renders_each_cause() {
    let msg = |cause: InvalidActionErrorCause| InvalidActionError { cause }.describe();
    assert_eq!(msg(InvalidActionErrorCause::InvalidAction), "Invalid action.");
    assert_eq!(
        msg(InvalidActionErrorCause::InvalidQuantity),
        "Action requires a quantity greater than 0."
    );
    assert_eq!(
        msg(InvalidActionErrorCause::ExtraneousQuantity),
        "Action should not have a quantity."
    );
    assert_eq!(msg(InvalidActionErrorCause::GameOver), "Game is over.");
    assert_eq!(
        msg(InvalidActionErrorCause::NotEnoughMoney(300)),
        "Not enough money, need at least $3.00."
    );
    assert_eq!(
        msg(InvalidActionErrorCause::CheeseMaxQuantityExceeded(5)),
        "Cannot buy that much cheese (max 5)."
    );
    assert_eq!(
        msg(InvalidActionErrorCause::NoCheeseToSell),
        "You have no mature cheese to sell."
    );
    assert_eq!(
        msg(InvalidActionErrorCause::CroissantMaxQuantityExceeded(12)),
        "Cannot buy that many croissants (max 12)."
    );
}
