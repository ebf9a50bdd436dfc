use croissant_game::{
    CroissantGame, CroissantGameConfig, InvalidActionErrorCause,
};
use croissant_game::game::process_action;

fn base_config() -> CroissantGameConfig {
    CroissantGameConfig {
        turns: 30,
        starting_money: 1000,
        cook_payoff: 50,
        cheese_cost: 100,
        cheese_quantity_maximum: 5,
        cheese_mature_turns: 3,
        cheese_payoff: 250,
        recipe_cost: 200,
        recipe_dividend: 10,
        cookbook_cost: 400,
        cookbook_dividend: 25,
        croissant_starting_price: 50,
        croissant_quantity_maximum: 10,
        croissant_price_fall: 5,
        croissant_price_rise: 20,
        croissant_minimum_price: 40,
    }
}

#[test]
fn new_game_starts_from_config_defaults() {
    let game = CroissantGame::new(base_config());
    assert_eq!(game.turn, 1);
    assert_eq!(game.money, 1000);
    assert!(game.cheeses.is_empty());
    assert_eq!(game.recipes, 0);
    assert_eq!(game.cookbooks, 0);
    assert_eq!(game.croissant_price, 50);
    assert_eq!(game.croissants, 0);
    assert!(!game.is_game_over());
}

#[test]
fn cook_credits_payoff_and_advances_turn() {
    let mut game = CroissantGame::new(base_config());
    assert!(game.execute_cook().is_ok());
    assert_eq!(game.money, 1050);
    assert_eq!(game.turn, 2);
}

// Scenario: starting money 1000, cheese cost 100, cap 5; buying 3 cheese
// succeeds, money becomes 700, non-mature count becomes 3, turn increments.
#[test]
fn buying_three_cheese_debits_cost_and_adds_units() {
    let mut game = CroissantGame::new(base_config());
    assert!(game.execute_buy_cheese(3).is_ok());
    assert_eq!(game.money, 700);
    assert_eq!(game.turn, 2);
    let (mature, non_mature) = game.count_cheeses();
    assert_eq!(mature, 0);
    assert_eq!(non_mature, 3);
}

#[test]
fn buying_zero_cheese_is_rejected_and_state_unchanged() {
    let mut game = CroissantGame::new(base_config());
    let err = game.execute_buy_cheese(0).unwrap_err();
    assert_eq!(err.cause, InvalidActionErrorCause::InvalidQuantity);
    assert_eq!(game.turn, 1);
    assert_eq!(game.money, 1000);
    assert!(game.cheeses.is_empty());
}

#[test]
fn buying_over_the_cheese_cap_is_rejected_and_state_unchanged() {
    let mut game = CroissantGame::new(base_config());
    let err = game.execute_buy_cheese(6).unwrap_err();
    assert_eq!(err.cause, InvalidActionErrorCause::CheeseMaxQuantityExceeded(5));
    assert_eq!(game.turn, 1);
    assert_eq!(game.money, 1000);
    assert!(game.cheeses.is_empty());
}

#[test]
fn buying_exactly_the_cheese_cap_succeeds() {
    let mut game = CroissantGame::new(base_config());
    assert!(game.execute_buy_cheese(5).is_ok());
    assert_eq!(game.money, 500);
    let (_, non_mature) = game.count_cheeses();
    assert_eq!(non_mature, 5);
}

#[test]
fn unaffordable_cheese_purchase_reports_the_required_amount() {
    let mut config = base_config();
    config.starting_money = 250;
    let mut game = CroissantGame::new(config);
    let err = game.execute_buy_cheese(3).unwrap_err();
    assert_eq!(err.cause, InvalidActionErrorCause::NotEnoughMoney(300));
    assert_eq!(game.money, 250);
    assert_eq!(game.turn, 1);
}

#[test]
fn cheese_matures_exactly_at_the_threshold() {
    let mut game = CroissantGame::new(base_config());
    // Bought at turn 1; the unit ages to 1 during this action's advancement.
    assert!(game.execute_buy_cheese(1).is_ok());
    let (mature, non_mature) = game.count_cheeses();
    assert_eq!((mature, non_mature), (0, 1));
    assert!(game.execute_cook().is_ok()); // age 2: one short of maturity
    let (mature, non_mature) = game.count_cheeses();
    assert_eq!((mature, non_mature), (0, 1));
    assert!(game.execute_cook().is_ok()); // age 3: mature
    let (mature, non_mature) = game.count_cheeses();
    assert_eq!((mature, non_mature), (1, 0));
}

#[test]
fn selling_removes_all_and_only_mature_cheese_and_credits_payoff() {
    let mut game = CroissantGame::new(base_config());
    assert!(game.execute_buy_cheese(2).is_ok()); // money 800, ages [1, 1]
    assert!(game.execute_cook().is_ok()); // money 850, ages [2, 2]
    assert!(game.execute_cook().is_ok()); // money 900, ages [3, 3]
    assert!(game.execute_buy_cheese(1).is_ok()); // money 800, ages [4, 4, 1]
    assert!(game.execute_sell_cheese().is_ok());
    // Two mature units sold at 250 each; the young unit is retained and ages.
    assert_eq!(game.money, 800 + 2 * 250);
    assert_eq!(game.cheeses, vec![2]);
    let (mature, non_mature) = game.count_cheeses();
    assert_eq!((mature, non_mature), (0, 1));
}

#[test]
fn selling_without_mature_cheese_is_rejected_and_state_unchanged() {
    let mut game = CroissantGame::new(base_config());
    let err = game.execute_sell_cheese().unwrap_err();
    assert_eq!(err.cause, InvalidActionErrorCause::NoCheeseToSell);
    assert_eq!(game.turn, 1);

    assert!(game.execute_buy_cheese(1).is_ok()); // one unit, still immature
    let err = game.execute_sell_cheese().unwrap_err();
    assert_eq!(err.cause, InvalidActionErrorCause::NoCheeseToSell);
    assert_eq!(game.turn, 2);
    assert_eq!(game.cheeses, vec![1]);
}

// Scenario: recipe cost 200, dividend 10, starting money 200; publishing a
// recipe leaves money at 0 immediately, then the next turn advancement
// credits the dividend.
#[test]
fn recipe_dividend_starts_on_the_following_turn() {
    let mut config = base_config();
    config.starting_money = 200;
    config.cook_payoff = 0;
    let mut game = CroissantGame::new(config);
    assert!(game.execute_publish_recipe().is_ok());
    assert_eq!(game.money, 0);
    assert_eq!(game.recipes, 1);
    assert!(game.execute_cook().is_ok());
    assert_eq!(game.money, 10);
}

#[test]
fn unaffordable_recipe_reports_its_cost() {
    let mut config = base_config();
    config.starting_money = 150;
    let mut game = CroissantGame::new(config);
    let err = game.execute_publish_recipe().unwrap_err();
    assert_eq!(err.cause, InvalidActionErrorCause::NotEnoughMoney(200));
    assert_eq!(game.money, 150);
    assert_eq!(game.turn, 1);
}

#[test]
fn cookbook_dividend_starts_on_the_following_turn() {
    let mut config = base_config();
    config.cook_payoff = 0;
    let mut game = CroissantGame::new(config);
    assert!(game.execute_publish_cookbook().is_ok());
    assert_eq!(game.money, 600);
    assert_eq!(game.cookbooks, 1);
    assert!(game.execute_cook().is_ok());
    assert_eq!(game.money, 625);
}

#[test]
fn unaffordable_cookbook_reports_its_cost() {
    let mut config = base_config();
    config.starting_money = 399;
    let mut game = CroissantGame::new(config);
    let err = game.execute_publish_cookbook().unwrap_err();
    assert_eq!(err.cause, InvalidActionErrorCause::NotEnoughMoney(400));
    assert_eq!(game.money, 399);
}

#[test]
fn both_dividends_accumulate_per_owned_asset() {
    let mut config = base_config();
    config.cook_payoff = 0;
    config.starting_money = 1000;
    let mut game = CroissantGame::new(config);
    assert!(game.execute_publish_recipe().is_ok()); // money 800
    assert!(game.execute_publish_recipe().is_ok()); // money 600 + 10
    assert!(game.execute_publish_cookbook().is_ok()); // money 210 + 20
    assert!(game.execute_cook().is_ok()); // + 2 * 10 + 1 * 25
    assert_eq!(game.money, 275);
    assert_eq!(game.recipes, 2);
    assert_eq!(game.cookbooks, 1);
}

#[test]
fn croissant_price_falls_each_turn_until_the_floor() {
    let mut game = CroissantGame::new(base_config());
    assert!(game.execute_cook().is_ok());
    assert_eq!(game.croissant_price, 45);
    assert!(game.execute_cook().is_ok());
    assert_eq!(game.croissant_price, 40);
    assert!(game.execute_cook().is_ok());
    assert_eq!(game.croissant_price, 40); // clamped at the floor
}

#[test]
fn buying_croissants_debits_cost_and_raises_the_price() {
    let mut game = CroissantGame::new(base_config());
    assert!(game.execute_buy_croissants(4).is_ok());
    assert_eq!(game.money, 1000 - 4 * 50);
    assert_eq!(game.croissants, 4);
    // The purchase raises the price by 20 before the turn's fall of 5.
    assert_eq!(game.croissant_price, 65);
    assert_eq!(game.turn, 2);
}

#[test]
fn croissant_purchase_validation_cascade() {
    let mut game = CroissantGame::new(base_config());
    let err = game.execute_buy_croissants(0).unwrap_err();
    assert_eq!(err.cause, InvalidActionErrorCause::InvalidQuantity);
    let err = game.execute_buy_croissants(11).unwrap_err();
    assert_eq!(err.cause, InvalidActionErrorCause::CroissantMaxQuantityExceeded(10));
    let mut poor = base_config();
    poor.starting_money = 99;
    let mut game = CroissantGame::new(poor);
    let err = game.execute_buy_croissants(2).unwrap_err();
    assert_eq!(err.cause, InvalidActionErrorCause::NotEnoughMoney(100));
    assert_eq!(game.money, 99);
    assert_eq!(game.croissants, 0);
    assert_eq!(game.croissant_price, 50);
}

// Scenario: turn limit 1, one cook taken; the game is then over, and a
// second cook is rejected with money unchanged.
#[test]
fn game_over_after_the_turn_limit_and_terminal() {
    let mut config = base_config();
    config.turns = 1;
    let mut game = CroissantGame::new(config);
    assert!(!game.is_game_over());
    assert!(game.execute_cook().is_ok());
    assert!(game.is_game_over());
    let money_after_first = game.money;
    let err = game.execute_cook().unwrap_err();
    assert_eq!(err.cause, InvalidActionErrorCause::GameOver);
    assert_eq!(game.money, money_after_first);
    assert_eq!(game.turn, 2);
    // Every other action is rejected the same way, with no state change.
    assert_eq!(game.execute_buy_cheese(1).unwrap_err().cause, InvalidActionErrorCause::GameOver);
    assert_eq!(game.execute_sell_cheese().unwrap_err().cause, InvalidActionErrorCause::GameOver);
    assert_eq!(
        game.execute_publish_recipe().unwrap_err().cause,
        InvalidActionErrorCause::GameOver
    );
    assert_eq!(
        game.execute_publish_cookbook().unwrap_err().cause,
        InvalidActionErrorCause::GameOver
    );
    assert_eq!(
        game.execute_buy_croissants(1).unwrap_err().cause,
        InvalidActionErrorCause::GameOver
    );
    assert_eq!(game.money, money_after_first);
    assert_eq!(game.turn, 2);
}

#[test]
fn zero_turn_limit_means_the_game_never_starts() {
    let mut config = base_config();
    config.turns = 0;
    let mut game = CroissantGame::new(config);
    assert!(game.is_game_over());
    let err = game.execute_cook().unwrap_err();
    assert_eq!(err.cause, InvalidActionErrorCause::GameOver);
    assert_eq!(game.turn, 1);
    assert_eq!(game.money, 1000);
}

#[test]
fn money_stays_non_negative_over_a_long_run() {
    let mut config = base_config();
    config.starting_money = 100;
    config.cook_payoff = 0;
    let mut game = CroissantGame::new(config);
    // Drain the balance as far as the engine allows, then keep acting.
    assert!(game.execute_buy_cheese(1).is_ok()); // money 0
    assert!(game.money >= 0);
    for _ in 0..5 {
        assert!(game.execute_cook().is_ok());
        assert!(game.money >= 0);
    }
    // Purchases that would overdraw are refused and change nothing.
    assert!(game.execute_buy_cheese(1).is_err());
    assert!(game.money >= 0);
}

#[test]
fn process_action_dispatches_by_id() {
    let mut game = CroissantGame::new(base_config());
    assert!(process_action(&mut game, 1, None).is_ok());
    assert_eq!(game.money, 1050);
    assert!(process_action(&mut game, 2, Some(2)).is_ok());
    assert_eq!(game.money, 850);
    assert!(process_action(&mut game, 4, None).is_ok());
    assert_eq!(game.recipes, 1);
    assert!(process_action(&mut game, 5, None).is_ok());
    assert_eq!(game.cookbooks, 1);
    assert!(process_action(&mut game, 6, Some(1)).is_ok());
    assert_eq!(game.croissants, 1);
    assert_eq!(game.turn, 6);
}

#[test]
fn process_action_rejects_malformed_requests() {
    let mut game = CroissantGame::new(base_config());
    let err = process_action(&mut game, 0, None).unwrap_err();
    assert_eq!(err.cause, InvalidActionErrorCause::InvalidAction);
    let err = process_action(&mut game, 7, Some(3)).unwrap_err();
    assert_eq!(err.cause, InvalidActionErrorCause::InvalidAction);
    let err = process_action(&mut game, 1, Some(3)).unwrap_err();
    assert_eq!(err.cause, InvalidActionErrorCause::ExtraneousQuantity);
    let err = process_action(&mut game, 3, Some(1)).unwrap_err();
    assert_eq!(err.cause, InvalidActionErrorCause::ExtraneousQuantity);
    let err = process_action(&mut game, 2, None).unwrap_err();
    assert_eq!(err.cause, InvalidActionErrorCause::InvalidQuantity);
    let err = process_action(&mut game, 6, None).unwrap_err();
    assert_eq!(err.cause, InvalidActionErrorCause::InvalidQuantity);
    // None of the rejections touched the state.
    assert_eq!(game.turn, 1);
    assert_eq!(game.money, 1000);
}
