//! The game-state transition engine: one operation per player action, each
//! validating its inputs against the configuration and the current state,
//! applying its effects, and advancing the turn clock. An action either
//! fully applies or has no observable effect.

use vstd::prelude::*;

use crate::config::CroissantGameConfig;
use crate::errors::{ActionResult, InvalidActionError, InvalidActionErrorCause};

verus! {

/// A cheese unit is mature once its age has reached the configured
/// maturation threshold.
pub open spec fn is_mature(age: i32, threshold: i32) -> bool {
    age >= threshold
}

/// How many entries of `ages` are mature against `threshold`.
pub open spec fn count_mature(ages: Seq<i32>, threshold: i32) -> int
    decreases ages.len(),
{
    if ages.len() == 0 {
        0
    } else {
        count_mature(ages.drop_last(), threshold) + if is_mature(ages.last(), threshold) {
            1int
        } else {
            0int
        }
    }
}

/// The non-mature entries of `ages`, in their original order.
pub open spec fn retained_cheeses(ages: Seq<i32>, threshold: i32) -> Seq<i32>
    decreases ages.len(),
{
    if ages.len() == 0 {
        ages
    } else {
        let prefix = retained_cheeses(ages.drop_last(), threshold);
        if is_mature(ages.last(), threshold) {
            prefix
        } else {
            prefix.push(ages.last())
        }
    }
}

/// Every entry of `ages` grown one turn older.
pub open spec fn aged(ages: Seq<i32>) -> Seq<i32> {
    Seq::new(ages.len(), |i: int| (ages[i] + 1) as i32)
}

/// `n` freshly bought cheese units, all at age 0.
pub open spec fn fresh_cheeses(n: int) -> Seq<i32>
    recommends
        n >= 0,
{
    Seq::new(n as nat, |i: int| 0i32)
}

/// The croissant price after one turn's fall, clamped at the configured
/// floor.
pub open spec fn fallen_price(price: int, config: CroissantGameConfig) -> int {
    if price - config.croissant_price_fall < config.croissant_minimum_price {
        config.croissant_minimum_price as int
    } else {
        price - config.croissant_price_fall
    }
}

/// The rejection value for a given cause.
pub open spec fn rejection(cause: InvalidActionErrorCause) -> ActionResult<()> {
    Err(InvalidActionError { cause })
}

/// What `execute_cook` guarantees of the old and new state and the result.
pub open spec fn cook_post(pre: CroissantGame, post: CroissantGame, r: ActionResult<()>) -> bool {
    if pre.spec_game_over() {
        r == rejection(InvalidActionErrorCause::GameOver) && post == pre
    } else {
        &&& r is Ok
        &&& post.config == pre.config
        &&& post.turn == pre.turn + 1
        &&& post.money == pre.money + pre.config.cook_payoff + pre.dividend_income()
        &&& post.cheeses@ == aged(pre.cheeses@)
        &&& post.recipes == pre.recipes
        &&& post.cookbooks == pre.cookbooks
        &&& post.croissants == pre.croissants
        &&& post.croissant_price == fallen_price(pre.croissant_price as int, pre.config)
    }
}

/// What `execute_buy_cheese` guarantees: the validation cascade selects the
/// error (game over, then zero quantity, then the cap, then affordability),
/// a refused purchase leaves the state untouched, and an accepted one
/// debits the full cost and appends `quantity` fresh units before the turn
/// advances.
pub open spec fn buy_cheese_post(
    pre: CroissantGame,
    post: CroissantGame,
    quantity: u32,
    r: ActionResult<()>,
) -> bool {
    let cap = pre.config.cheese_quantity_maximum;
    let total_cost = pre.config.cheese_cost * quantity;
    if pre.spec_game_over() {
        r == rejection(InvalidActionErrorCause::GameOver) && post == pre
    } else if quantity == 0 {
        r == rejection(InvalidActionErrorCause::InvalidQuantity) && post == pre
    } else if quantity > cap {
        r == rejection(InvalidActionErrorCause::CheeseMaxQuantityExceeded(cap)) && post == pre
    } else if total_cost > pre.money {
        r == rejection(InvalidActionErrorCause::NotEnoughMoney(total_cost as i32)) && post == pre
    } else {
        &&& r is Ok
        &&& post.config == pre.config
        &&& post.turn == pre.turn + 1
        &&& post.money == pre.money - total_cost + pre.dividend_income()
        &&& post.cheeses@ == aged(pre.cheeses@ + fresh_cheeses(quantity as int))
        &&& post.recipes == pre.recipes
        &&& post.cookbooks == pre.cookbooks
        &&& post.croissants == pre.croissants
        &&& post.croissant_price == fallen_price(pre.croissant_price as int, pre.config)
    }
}

/// What `execute_sell_cheese` guarantees: with no mature unit the sale is
/// refused and the state untouched; otherwise every mature unit is removed,
/// the non-mature ones are retained in order, the sale credits one payoff
/// per mature unit, and the turn advances.
pub open spec fn sell_cheese_post(
    pre: CroissantGame,
    post: CroissantGame,
    r: ActionResult<()>,
) -> bool {
    let threshold = pre.config.cheese_mature_turns;
    let mature = count_mature(pre.cheeses@, threshold);
    if pre.spec_game_over() {
        r == rejection(InvalidActionErrorCause::GameOver) && post == pre
    } else if mature == 0 {
        r == rejection(InvalidActionErrorCause::NoCheeseToSell) && post == pre
    } else {
        &&& r is Ok
        &&& post.config == pre.config
        &&& post.turn == pre.turn + 1
        &&& post.money == pre.money + mature * pre.config.cheese_payoff + pre.dividend_income()
        &&& post.cheeses@ == aged(retained_cheeses(pre.cheeses@, threshold))
        &&& post.recipes == pre.recipes
        &&& post.cookbooks == pre.cookbooks
        &&& post.croissants == pre.croissants
        &&& post.croissant_price == fallen_price(pre.croissant_price as int, pre.config)
    }
}

/// What `execute_publish_recipe` guarantees. The dividend credited by this
/// action's own turn advancement is computed from the holdings before the
/// publication: a newly published recipe first pays on the next turn.
pub open spec fn publish_recipe_post(
    pre: CroissantGame,
    post: CroissantGame,
    r: ActionResult<()>,
) -> bool {
    let cost = pre.config.recipe_cost;
    if pre.spec_game_over() {
        r == rejection(InvalidActionErrorCause::GameOver) && post == pre
    } else if cost > pre.money {
        r == rejection(InvalidActionErrorCause::NotEnoughMoney(cost)) && post == pre
    } else {
        &&& r is Ok
        &&& post.config == pre.config
        &&& post.turn == pre.turn + 1
        &&& post.money == pre.money - cost + pre.dividend_income()
        &&& post.cheeses@ == aged(pre.cheeses@)
        &&& post.recipes == pre.recipes + 1
        &&& post.cookbooks == pre.cookbooks
        &&& post.croissants == pre.croissants
        &&& post.croissant_price == fallen_price(pre.croissant_price as int, pre.config)
    }
}

/// What `execute_publish_cookbook` guarantees; the cookbook counterpart of
/// `publish_recipe_post`, with the same dividend timing.
pub open spec fn publish_cookbook_post(
    pre: CroissantGame,
    post: CroissantGame,
    r: ActionResult<()>,
) -> bool {
    let cost = pre.config.cookbook_cost;
    if pre.spec_game_over() {
        r == rejection(InvalidActionErrorCause::GameOver) && post == pre
    } else if cost > pre.money {
        r == rejection(InvalidActionErrorCause::NotEnoughMoney(cost)) && post == pre
    } else {
        &&& r is Ok
        &&& post.config == pre.config
        &&& post.turn == pre.turn + 1
        &&& post.money == pre.money - cost + pre.dividend_income()
        &&& post.cheeses@ == aged(pre.cheeses@)
        &&& post.recipes == pre.recipes
        &&& post.cookbooks == pre.cookbooks + 1
        &&& post.croissants == pre.croissants
        &&& post.croissant_price == fallen_price(pre.croissant_price as int, pre.config)
    }
}

/// What `execute_buy_croissants` guarantees: the same validation cascade as
/// the cheese purchase, at the current market price. An accepted purchase
/// raises the price by the configured rise before the turn advancement
/// applies its fall, so a purchase turn nets rise minus fall, still clamped
/// at the floor.
pub open spec fn buy_croissants_post(
    pre: CroissantGame,
    post: CroissantGame,
    quantity: u32,
    r: ActionResult<()>,
) -> bool {
    let cap = pre.config.croissant_quantity_maximum;
    let total_cost = pre.croissant_price * quantity;
    if pre.spec_game_over() {
        r == rejection(InvalidActionErrorCause::GameOver) && post == pre
    } else if quantity == 0 {
        r == rejection(InvalidActionErrorCause::InvalidQuantity) && post == pre
    } else if quantity > cap {
        r == rejection(InvalidActionErrorCause::CroissantMaxQuantityExceeded(cap)) && post == pre
    } else if total_cost > pre.money {
        r == rejection(InvalidActionErrorCause::NotEnoughMoney(total_cost as i32)) && post == pre
    } else {
        &&& r is Ok
        &&& post.config == pre.config
        &&& post.turn == pre.turn + 1
        &&& post.money == pre.money - total_cost + pre.dividend_income()
        &&& post.cheeses@ == aged(pre.cheeses@)
        &&& post.recipes == pre.recipes
        &&& post.cookbooks == pre.cookbooks
        &&& post.croissants == pre.croissants + quantity
        &&& post.croissant_price == fallen_price(
            pre.croissant_price + pre.config.croissant_price_rise,
            pre.config,
        )
    }
}

/// One playthrough's mutable state.
pub struct CroissantGame {
    /// The economic constants this playthrough was started with.
    pub config: CroissantGameConfig,
    /// Turn counter; starts at 1 and only ever increases.
    pub turn: i32,
    /// Current balance in cents; never negative after a completed action.
    pub money: i32,
    /// One entry per owned cheese unit: its age in turns.
    pub cheeses: Vec<i32>,
    /// Number of published recipes, each paying a per-turn dividend.
    pub recipes: i32,
    /// Number of published cookbooks, each paying a per-turn dividend.
    pub cookbooks: i32,
    /// Current market price of croissants, in cents.
    pub croissant_price: i32,
    /// Number of croissants owned.
    pub croissants: i32,
}

impl CroissantGame {
    /// The game is over once the turn counter has passed the configured
    /// limit; the state is then terminal.
    pub open spec fn spec_game_over(self) -> bool {
        self.turn > self.config.turns
    }

    /// The dividend credited during each turn advancement: every owned
    /// recipe and cookbook pays its configured per-turn amount.
    pub open spec fn dividend_income(self) -> int {
        self.config.recipe_dividend * self.recipes + self.config.cookbook_dividend * self.cookbooks
    }

    /// Well-formedness, established by `new` and preserved by every action:
    /// a valid configuration, a turn clock that started at 1, a
    /// non-negative balance, cheese ages bounded by the turns that could
    /// have elapsed, non-negative asset counts, and a market price at or
    /// above the floor.
    pub open spec fn wf(self) -> bool {
        &&& self.config.valid()
        &&& 1 <= self.turn
        &&& 0 <= self.money
        &&& self.cheeses@.len() <= i32::MAX
        &&& (forall|i: int|
            0 <= i < self.cheeses@.len() ==> 0 <= #[trigger] self.cheeses@[i] < self.turn)
        &&& 0 <= self.recipes
        &&& 0 <= self.cookbooks
        &&& 0 <= self.croissants
        &&& self.croissant_price >= self.config.croissant_minimum_price
    }

    /// Starts a playthrough from the configuration's defaults.
    pub fn new(config: CroissantGameConfig) -> (game: CroissantGame)
        ensures
            game.config == config,
            game.turn == 1,
            game.money == config.starting_money,
            game.cheeses@ == Seq::<i32>::empty(),
            game.recipes == 0,
            game.cookbooks == 0,
            game.croissant_price == config.croissant_starting_price,
            game.croissants == 0,
            config.valid() ==> game.wf(),
    {
        let starting_money = config.starting_money;
        let croissant_starting_price = config.croissant_starting_price;
        CroissantGame {
            config,
            turn: 1,
            money: starting_money,
            cheeses: Vec::new(),
            recipes: 0,
            cookbooks: 0,
            croissant_price: croissant_starting_price,
            croissants: 0,
        }
    }

    /// True iff the turn counter has passed the configured limit.
    pub fn is_game_over(&self) -> (r: bool)
        ensures
            r == self.spec_game_over(),
    {
        self.turn > self.config.turns
    }

    /// Returns `(mature, non_mature)`: the owned cheese units partitioned
    /// by comparing each age against the maturation threshold.
    pub fn count_cheeses(&self) -> (r: (i32, i32))
        requires
            self.cheeses@.len() <= i32::MAX,
        ensures
            r.0 == count_mature(self.cheeses@, self.config.cheese_mature_turns),
            r.0 + r.1 == self.cheeses@.len(),
            0 <= r.0,
            0 <= r.1,
    {
        let ghost threshold = self.config.cheese_mature_turns;
        let mut mature: i32 = 0;
        let mut non_mature: i32 = 0;
        let n = self.cheeses.len();
        let mut i: usize = 0;
        while i < n
            invariant
                n == self.cheeses@.len(),
                n <= i32::MAX,
                0 <= i <= n,
                threshold == self.config.cheese_mature_turns,
                mature == count_mature(self.cheeses@.subrange(0, i as int), threshold),
                mature + non_mature == i,
                0 <= mature,
                0 <= non_mature,
            decreases n - i,
        {
            let age = self.cheeses[i];
            proof {
                let sub1 = self.cheeses@.subrange(0, i as int + 1);
                assert(sub1.drop_last() =~= self.cheeses@.subrange(0, i as int));
                assert(sub1.last() == self.cheeses@[i as int]);
            }
            if age >= self.config.cheese_mature_turns {
                mature = mature + 1;
            } else {
                non_mature = non_mature + 1;
            }
            i = i + 1;
        }
        proof {
            assert(self.cheeses@.subrange(0, n as int) =~= self.cheeses@);
        }
        (mature, non_mature)
    }

    /// The shared turn advancement every accepted action performs exactly
    /// once: increment the turn, age every cheese unit by one turn, credit
    /// the per-turn dividends, and let the croissant price fall towards its
    /// floor.
    fn end_turn(&mut self)
        requires
            old(self).config.valid(),
            1 <= old(self).turn < i32::MAX,
            0 <= old(self).money,
            0 <= old(self).recipes,
            0 <= old(self).cookbooks,
            forall|i: int|
                0 <= i < old(self).cheeses@.len() ==> 0 <= #[trigger] old(self).cheeses@[i] < old(
                    self,
                ).turn,
            old(self).money + old(self).dividend_income() <= i32::MAX,
            0 <= old(self).croissant_price,
        ensures
            final(self).config == old(self).config,
            final(self).turn == old(self).turn + 1,
            final(self).money == old(self).money + old(self).dividend_income(),
            final(self).cheeses@ == aged(old(self).cheeses@),
            final(self).recipes == old(self).recipes,
            final(self).cookbooks == old(self).cookbooks,
            final(self).croissants == old(self).croissants,
            final(self).croissant_price == fallen_price(
                old(self).croissant_price as int,
                old(self).config,
            ),
    {
        self.turn = self.turn + 1;
        let n = self.cheeses.len();
        let mut i: usize = 0;
        while i < n
            invariant
                n == self.cheeses@.len(),
                0 <= i <= n,
                self.config == old(self).config,
                self.turn == old(self).turn + 1,
                self.money == old(self).money,
                self.recipes == old(self).recipes,
                self.cookbooks == old(self).cookbooks,
                self.croissants == old(self).croissants,
                self.croissant_price == old(self).croissant_price,
                forall|j: int| 0 <= j < i ==> self.cheeses@[j] == old(self).cheeses@[j] + 1,
                forall|j: int| i <= j < n ==> self.cheeses@[j] == old(self).cheeses@[j],
                forall|j: int|
                    0 <= j < n ==> 0 <= #[trigger] old(self).cheeses@[j] < old(self).turn,
            decreases n - i,
        {
            let age = self.cheeses[i];
            self.cheeses.set(i, age + 1);
            i = i + 1;
        }
        proof {
            assert(self.cheeses@ =~= aged(old(self).cheeses@));
            let rd = self.config.recipe_dividend as int;
            let rc = self.recipes as int;
            let cd = self.config.cookbook_dividend as int;
            let cb = self.cookbooks as int;
            assert(rd * rc >= 0) by (nonlinear_arith)
                requires
                    rd >= 0,
                    rc >= 0,
            ;
            assert(cd * cb >= 0) by (nonlinear_arith)
                requires
                    cd >= 0,
                    cb >= 0,
            ;
        }
        self.money = self.money + self.config.recipe_dividend * self.recipes;
        self.money = self.money + self.config.cookbook_dividend * self.cookbooks;
        let lowered = self.croissant_price - self.config.croissant_price_fall;
        if lowered < self.config.croissant_minimum_price {
            self.croissant_price = self.config.croissant_minimum_price;
        } else {
            self.croissant_price = lowered;
        }
    }

    /// The 32-bit counters that an accepted cook action touches stay in
    /// range: the turn clock and the balance after payoff and dividends.
    pub open spec fn cook_fits(self) -> bool {
        !self.spec_game_over() ==> {
            &&& self.turn < i32::MAX
            &&& self.money + self.config.cook_payoff + self.dividend_income() <= i32::MAX
        }
    }

    /// The 32-bit counters that an accepted cheese purchase touches stay in
    /// range: the total cost, the cheese store, the turn clock, and the
    /// balance after debit and dividends.
    pub open spec fn buy_cheese_fits(self, quantity: u32) -> bool {
        !self.spec_game_over() && 0 < quantity <= self.config.cheese_quantity_maximum ==> {
            &&& self.config.cheese_cost * quantity <= i32::MAX
            &&& (self.config.cheese_cost * quantity <= self.money ==> {
                &&& self.turn < i32::MAX
                &&& self.cheeses@.len() + quantity <= i32::MAX
                &&& self.money - self.config.cheese_cost * quantity + self.dividend_income()
                    <= i32::MAX
            })
        }
    }

    /// The 32-bit counters that an accepted cheese sale touches stay in
    /// range: the turn clock and the balance after the sale's credit and
    /// the dividends.
    pub open spec fn sell_cheese_fits(self) -> bool {
        let mature = count_mature(self.cheeses@, self.config.cheese_mature_turns);
        !self.spec_game_over() && mature > 0 ==> {
            &&& self.turn < i32::MAX
            &&& self.money + mature * self.config.cheese_payoff + self.dividend_income()
                <= i32::MAX
        }
    }

    /// The 32-bit counters that an accepted recipe publication touches stay
    /// in range.
    pub open spec fn publish_recipe_fits(self) -> bool {
        !self.spec_game_over() && self.config.recipe_cost <= self.money ==> {
            &&& self.turn < i32::MAX
            &&& self.recipes < i32::MAX
            &&& self.money - self.config.recipe_cost + self.dividend_income() <= i32::MAX
        }
    }

    /// The 32-bit counters that an accepted cookbook publication touches
    /// stay in range.
    pub open spec fn publish_cookbook_fits(self) -> bool {
        !self.spec_game_over() && self.config.cookbook_cost <= self.money ==> {
            &&& self.turn < i32::MAX
            &&& self.cookbooks < i32::MAX
            &&& self.money - self.config.cookbook_cost + self.dividend_income() <= i32::MAX
        }
    }

    /// The 32-bit counters that an accepted croissant purchase touches stay
    /// in range: the total cost, the croissant count, the raised price, the
    /// turn clock, and the balance after debit and dividends.
    pub open spec fn buy_croissants_fits(self, quantity: u32) -> bool {
        !self.spec_game_over() && 0 < quantity <= self.config.croissant_quantity_maximum ==> {
            &&& self.croissant_price * quantity <= i32::MAX
            &&& (self.croissant_price * quantity <= self.money ==> {
                &&& self.turn < i32::MAX
                &&& self.croissants + quantity <= i32::MAX
                &&& self.croissant_price + self.config.croissant_price_rise <= i32::MAX
                &&& self.money - self.croissant_price * quantity + self.dividend_income()
                    <= i32::MAX
            })
        }
    }

    /// Cook: credit the flat payoff, then advance the turn.
    pub fn execute_cook(&mut self) -> (r: ActionResult<()>)
        requires
            old(self).wf(),
            old(self).cook_fits(),
        ensures
            final(self).wf(),
            cook_post(*old(self), *final(self), r),
    {
        if self.is_game_over() {
            return Err(InvalidActionError { cause: InvalidActionErrorCause::GameOver });
        }
        proof {
            lemma_dividend_income_nonneg(*self);
        }
        self.money = self.money + self.config.cook_payoff;
        self.end_turn();
        Ok(())
    }

    /// Buy `quantity` fresh cheese units at the configured unit cost, then
    /// advance the turn (which ages the new units along with the rest).
    pub fn execute_buy_cheese(&mut self, quantity: u32) -> (r: ActionResult<()>)
        requires
            old(self).wf(),
            old(self).buy_cheese_fits(quantity),
        ensures
            final(self).wf(),
            buy_cheese_post(*old(self), *final(self), quantity, r),
    {
        if self.is_game_over() {
            return Err(InvalidActionError { cause: InvalidActionErrorCause::GameOver });
        }
        if quantity == 0 {
            return Err(InvalidActionError { cause: InvalidActionErrorCause::InvalidQuantity });
        }
        if quantity > self.config.cheese_quantity_maximum {
            return Err(
                InvalidActionError {
                    cause: InvalidActionErrorCause::CheeseMaxQuantityExceeded(
                        self.config.cheese_quantity_maximum,
                    ),
                },
            );
        }
        proof {
            lemma_dividend_income_nonneg(*self);
            let c = self.config.cheese_cost as int;
            let q = quantity as int;
            assert(c * q >= 0) by (nonlinear_arith)
                requires
                    c >= 0,
                    q >= 0,
            ;
        }
        let total_cost = self.config.cheese_cost * (quantity as i32);
        if total_cost > self.money {
            return Err(
                InvalidActionError { cause: InvalidActionErrorCause::NotEnoughMoney(total_cost) },
            );
        }
        self.money = self.money - total_cost;
        let mut bought: u32 = 0;
        while bought < quantity
            invariant
                bought <= quantity,
                self.config == old(self).config,
                self.turn == old(self).turn,
                self.money == old(self).money - old(self).config.cheese_cost * quantity,
                self.recipes == old(self).recipes,
                self.cookbooks == old(self).cookbooks,
                self.croissants == old(self).croissants,
                self.croissant_price == old(self).croissant_price,
                self.cheeses@ == old(self).cheeses@ + fresh_cheeses(bought as int),
            decreases quantity - bought,
        {
            self.cheeses.push(0);
            proof {
                assert(self.cheeses@ =~= old(self).cheeses@ + fresh_cheeses(bought as int + 1));
            }
            bought = bought + 1;
        }
        self.end_turn();
        Ok(())
    }

    /// Sell every mature cheese unit at the configured payoff, retaining
    /// only the non-mature ones, then advance the turn.
    pub fn execute_sell_cheese(&mut self) -> (r: ActionResult<()>)
        requires
            old(self).wf(),
            old(self).sell_cheese_fits(),
        ensures
            final(self).wf(),
            sell_cheese_post(*old(self), *final(self), r),
    {
        if self.is_game_over() {
            return Err(InvalidActionError { cause: InvalidActionErrorCause::GameOver });
        }
        let (mature_cheeses, _non_mature_cheeses) = self.count_cheeses();
        if mature_cheeses == 0 {
            return Err(InvalidActionError { cause: InvalidActionErrorCause::NoCheeseToSell });
        }
        proof {
            lemma_dividend_income_nonneg(*self);
            let m = mature_cheeses as int;
            let p = self.config.cheese_payoff as int;
            assert(m * p >= 0) by (nonlinear_arith)
                requires
                    m >= 0,
                    p >= 0,
            ;
        }
        let total_gain = mature_cheeses * self.config.cheese_payoff;
        self.money = self.money + total_gain;
        let ghost threshold = self.config.cheese_mature_turns;
        let mut retained: Vec<i32> = Vec::new();
        let n = self.cheeses.len();
        let mut i: usize = 0;
        while i < n
            invariant
                n == self.cheeses@.len(),
                0 <= i <= n,
                threshold == self.config.cheese_mature_turns,
                retained@ == retained_cheeses(self.cheeses@.subrange(0, i as int), threshold),
                retained@.len() <= i,
                forall|k: int|
                    0 <= k < retained@.len() ==> 0 <= #[trigger] retained@[k] < old(self).turn,
                forall|j: int|
                    0 <= j < n ==> 0 <= #[trigger] self.cheeses@[j] < old(self).turn,
            decreases n - i,
        {
            let age = self.cheeses[i];
            proof {
                let sub1 = self.cheeses@.subrange(0, i as int + 1);
                assert(sub1.drop_last() =~= self.cheeses@.subrange(0, i as int));
                assert(sub1.last() == self.cheeses@[i as int]);
            }
            if age < self.config.cheese_mature_turns {
                retained.push(age);
            }
            i = i + 1;
        }
        proof {
            assert(self.cheeses@.subrange(0, n as int) =~= self.cheeses@);
        }
        self.cheeses = retained;
        self.end_turn();
        Ok(())
    }

    /// Publish one recipe at the configured cost; it starts paying its
    /// dividend on the turn after this one.
    pub fn execute_publish_recipe(&mut self) -> (r: ActionResult<()>)
        requires
            old(self).wf(),
            old(self).publish_recipe_fits(),
        ensures
            final(self).wf(),
            publish_recipe_post(*old(self), *final(self), r),
    {
        if self.is_game_over() {
            return Err(InvalidActionError { cause: InvalidActionErrorCause::GameOver });
        }
        if self.config.recipe_cost > self.money {
            return Err(
                InvalidActionError {
                    cause: InvalidActionErrorCause::NotEnoughMoney(self.config.recipe_cost),
                },
            );
        }
        proof {
            lemma_dividend_income_nonneg(*self);
        }
        self.money = self.money - self.config.recipe_cost;
        self.end_turn();
        self.recipes = self.recipes + 1;
        Ok(())
    }

    /// Publish one cookbook at the configured cost; it starts paying its
    /// dividend on the turn after this one.
    pub fn execute_publish_cookbook(&mut self) -> (r: ActionResult<()>)
        requires
            old(self).wf(),
            old(self).publish_cookbook_fits(),
        ensures
            final(self).wf(),
            publish_cookbook_post(*old(self), *final(self), r),
    {
        if self.is_game_over() {
            return Err(InvalidActionError { cause: InvalidActionErrorCause::GameOver });
        }
        if self.config.cookbook_cost > self.money {
            return Err(
                InvalidActionError {
                    cause: InvalidActionErrorCause::NotEnoughMoney(self.config.cookbook_cost),
                },
            );
        }
        proof {
            lemma_dividend_income_nonneg(*self);
        }
        self.money = self.money - self.config.cookbook_cost;
        self.end_turn();
        self.cookbooks = self.cookbooks + 1;
        Ok(())
    }

    /// Buy `quantity` croissants at the current market price; the purchase
    /// raises the price before the turn advancement applies its fall.
    pub fn execute_buy_croissants(&mut self, quantity: u32) -> (r: ActionResult<()>)
        requires
            old(self).wf(),
            old(self).buy_croissants_fits(quantity),
        ensures
            final(self).wf(),
            buy_croissants_post(*old(self), *final(self), quantity, r),
    {
        if self.is_game_over() {
            return Err(InvalidActionError { cause: InvalidActionErrorCause::GameOver });
        }
        if quantity == 0 {
            return Err(InvalidActionError { cause: InvalidActionErrorCause::InvalidQuantity });
        }
        if quantity > self.config.croissant_quantity_maximum {
            return Err(
                InvalidActionError {
                    cause: InvalidActionErrorCause::CroissantMaxQuantityExceeded(
                        self.config.croissant_quantity_maximum,
                    ),
                },
            );
        }
        proof {
            lemma_dividend_income_nonneg(*self);
            let p = self.croissant_price as int;
            let q = quantity as int;
            assert(p * q >= 0) by (nonlinear_arith)
                requires
                    p >= 0,
                    q >= 0,
            ;
        }
        let total_cost = self.croissant_price * (quantity as i32);
        if total_cost > self.money {
            return Err(
                InvalidActionError { cause: InvalidActionErrorCause::NotEnoughMoney(total_cost) },
            );
        }
        self.money = self.money - total_cost;
        self.croissants = self.croissants + (quantity as i32);
        self.croissant_price = self.croissant_price + self.config.croissant_price_rise;
        self.end_turn();
        Ok(())
    }
}

/// Dispatches a `(action_id, optional quantity)` pair arriving from an
/// external parser: `1` cook, `2` buy cheese (quantity required), `3` sell
/// mature cheese, `4` publish a recipe, `5` publish a cookbook, `6` buy
/// croissants (quantity required). An unrecognised id is rejected with
/// `InvalidAction`; a quantity present where none is taken with
/// `ExtraneousQuantity`; a missing quantity with `InvalidQuantity`. All
/// three shape rejections leave the state untouched.
pub fn process_action(game: &mut CroissantGame, action_id: u32, quantity: Option<u32>) -> (r:
    ActionResult<()>)
    requires
        old(game).wf(),
        action_id == 1 ==> old(game).cook_fits(),
        action_id == 2 ==> (quantity matches Some(q) ==> old(game).buy_cheese_fits(q)),
        action_id == 3 ==> old(game).sell_cheese_fits(),
        action_id == 4 ==> old(game).publish_recipe_fits(),
        action_id == 5 ==> old(game).publish_cookbook_fits(),
        action_id == 6 ==> (quantity matches Some(q) ==> old(game).buy_croissants_fits(q)),
    ensures
        final(game).wf(),
        !(1 <= action_id <= 6) ==> r == rejection(InvalidActionErrorCause::InvalidAction)
            && *final(game) == *old(game),
        (action_id == 1 || action_id == 3 || action_id == 4 || action_id == 5) && quantity is Some
            ==> r == rejection(InvalidActionErrorCause::ExtraneousQuantity) && *final(game) == *old(
            game,
        ),
        (action_id == 2 || action_id == 6) && quantity is None ==> r == rejection(
            InvalidActionErrorCause::InvalidQuantity,
        ) && *final(game) == *old(game),
        action_id == 1 && quantity is None ==> cook_post(*old(game), *final(game), r),
        action_id == 2 ==> (quantity matches Some(q) ==> buy_cheese_post(
            *old(game),
            *final(game),
            q,
            r,
        )),
        action_id == 3 && quantity is None ==> sell_cheese_post(*old(game), *final(game), r),
        action_id == 4 && quantity is None ==> publish_recipe_post(*old(game), *final(game), r),
        action_id == 5 && quantity is None ==> publish_cookbook_post(*old(game), *final(game), r),
        action_id == 6 ==> (quantity matches Some(q) ==> buy_croissants_post(
            *old(game),
            *final(game),
            q,
            r,
        )),
{
    match action_id {
        1 => match quantity {
            Some(_) => Err(
                InvalidActionError { cause: InvalidActionErrorCause::ExtraneousQuantity },
            ),
            None => game.execute_cook(),
        },
        2 => match quantity {
            Some(q) => game.execute_buy_cheese(q),
            None => Err(InvalidActionError { cause: InvalidActionErrorCause::InvalidQuantity }),
        },
        3 => match quantity {
            Some(_) => Err(
                InvalidActionError { cause: InvalidActionErrorCause::ExtraneousQuantity },
            ),
            None => game.execute_sell_cheese(),
        },
        4 => match quantity {
            Some(_) => Err(
                InvalidActionError { cause: InvalidActionErrorCause::ExtraneousQuantity },
            ),
            None => game.execute_publish_recipe(),
        },
        5 => match quantity {
            Some(_) => Err(
                InvalidActionError { cause: InvalidActionErrorCause::ExtraneousQuantity },
            ),
            None => game.execute_publish_cookbook(),
        },
        6 => match quantity {
            Some(q) => game.execute_buy_croissants(q),
            None => Err(InvalidActionError { cause: InvalidActionErrorCause::InvalidQuantity }),
        },
        _ => Err(InvalidActionError { cause: InvalidActionErrorCause::InvalidAction }),
    }
}

/// Mature counting distributes over concatenation.
proof fn lemma_count_mature_concat(left: Seq<i32>, right: Seq<i32>, threshold: i32)
    ensures
        count_mature(left + right, threshold) == count_mature(left, threshold) + count_mature(
            right,
            threshold,
        ),
    decreases right.len(),
{
    if right.len() == 0 {
        assert(left + right =~= left);
    } else {
        lemma_count_mature_concat(left, right.drop_last(), threshold);
        assert((left + right).drop_last() =~= left + right.drop_last());
        assert((left + right).last() == right.last());
    }
}

/// A sequence with no mature entry has a mature count of zero.
proof fn lemma_count_mature_none(ages: Seq<i32>, threshold: i32)
    requires
        forall|i: int| 0 <= i < ages.len() ==> !is_mature(#[trigger] ages[i], threshold),
    ensures
        count_mature(ages, threshold) == 0,
    decreases ages.len(),
{
    if ages.len() > 0 {
        lemma_count_mature_none(ages.drop_last(), threshold);
    }
}

/// Aging a sequence in which no entry sits one turn short of the threshold
/// leaves the mature count unchanged: no unit crosses the threshold.
proof fn lemma_count_mature_aged_stable(ages: Seq<i32>, threshold: i32)
    requires
        forall|i: int| 0 <= i < ages.len() ==> #[trigger] ages[i] < i32::MAX,
        forall|i: int| 0 <= i < ages.len() ==> #[trigger] ages[i] != threshold - 1,
    ensures
        count_mature(aged(ages), threshold) == count_mature(ages, threshold),
    decreases ages.len(),
{
    if ages.len() == 0 {
        assert(aged(ages) =~= ages);
    } else {
        lemma_count_mature_aged_stable(ages.drop_last(), threshold);
        assert(aged(ages).drop_last() =~= aged(ages.drop_last()));
        assert(aged(ages).last() == ages.last() + 1);
    }
}

/// The law that `money` can never go negative: every state the engine
/// produces is well-formed (`new` establishes `wf` and every action
/// ensures it of the new state), and well-formedness bounds the balance,
/// so along any sequence of actions the balance stays non-negative.
pub proof fn lemma_money_never_negative(game: CroissantGame)
    requires
        game.wf(),
    ensures
        game.money >= 0,
{
}

/// The partition law behind `count_cheeses` and the cheese sale: a unit is
/// mature exactly when its age has reached the threshold, the mature count
/// is bounded by the number of units, and the retained (non-mature) units
/// are exactly the rest — none of them mature.
pub proof fn lemma_cheese_partition(ages: Seq<i32>, threshold: i32)
    ensures
        0 <= count_mature(ages, threshold) <= ages.len(),
        retained_cheeses(ages, threshold).len() == ages.len() - count_mature(ages, threshold),
        forall|i: int|
            0 <= i < retained_cheeses(ages, threshold).len() ==> !is_mature(
                #[trigger] retained_cheeses(ages, threshold)[i],
                threshold,
            ),
        forall|i: int|
            0 <= i < ages.len() ==> (is_mature(#[trigger] ages[i], threshold) <==> ages[i]
                >= threshold),
    decreases ages.len(),
{
    if ages.len() > 0 {
        lemma_cheese_partition(ages.drop_last(), threshold);
    }
}

/// The law that buying cheese only adds non-mature units: when no owned
/// unit sits one turn short of the maturation threshold (so none crosses
/// it during this action's turn advancement) and the threshold is at least
/// two turns (so the fresh units are still immature after their first
/// aging), an accepted purchase of `quantity` units leaves the mature
/// count unchanged and raises the non-mature count by exactly `quantity`.
pub proof fn lemma_buy_cheese_counts(
    pre: CroissantGame,
    post: CroissantGame,
    quantity: u32,
    r: ActionResult<()>,
)
    requires
        pre.wf(),
        buy_cheese_post(pre, post, quantity, r),
        !pre.spec_game_over(),
        0 < quantity <= pre.config.cheese_quantity_maximum,
        pre.config.cheese_cost * quantity <= pre.money,
        pre.config.cheese_mature_turns >= 2,
        forall|i: int|
            0 <= i < pre.cheeses@.len() ==> #[trigger] pre.cheeses@[i]
                != pre.config.cheese_mature_turns - 1,
    ensures
        count_mature(post.cheeses@, pre.config.cheese_mature_turns) == count_mature(
            pre.cheeses@,
            pre.config.cheese_mature_turns,
        ),
        post.cheeses@.len() - count_mature(post.cheeses@, pre.config.cheese_mature_turns)
            == pre.cheeses@.len() - count_mature(pre.cheeses@, pre.config.cheese_mature_turns)
            + quantity,
{
    let threshold = pre.config.cheese_mature_turns;
    let fresh = fresh_cheeses(quantity as int);
    assert(aged(pre.cheeses@ + fresh) =~= aged(pre.cheeses@) + aged(fresh));
    lemma_count_mature_concat(aged(pre.cheeses@), aged(fresh), threshold);
    lemma_count_mature_aged_stable(pre.cheeses@, threshold);
    assert(forall|i: int|
        0 <= i < aged(fresh).len() ==> !is_mature(#[trigger] aged(fresh)[i], threshold));
    lemma_count_mature_none(aged(fresh), threshold);
}

/// The law that a finished game is terminal: whichever action is attempted
/// in a game-over state, it is rejected with `GameOver`, the state is
/// untouched, and the game is still over.
pub proof fn lemma_game_over_terminal(pre: CroissantGame, post: CroissantGame, r: ActionResult<()>)
    requires
        pre.spec_game_over(),
        cook_post(pre, post, r) || sell_cheese_post(pre, post, r) || publish_recipe_post(
            pre,
            post,
            r,
        ) || publish_cookbook_post(pre, post, r) || (exists|q: u32|
            buy_cheese_post(pre, post, q, r)) || (exists|q: u32|
            buy_croissants_post(pre, post, q, r)),
    ensures
        r == rejection(InvalidActionErrorCause::GameOver),
        post == pre,
        post.spec_game_over(),
{
}

/// With a valid configuration and non-negative holdings, the per-turn
/// dividend income is itself non-negative.
proof fn lemma_dividend_income_nonneg(g: CroissantGame)
    requires
        g.config.valid(),
        0 <= g.recipes,
        0 <= g.cookbooks,
    ensures
        g.dividend_income() >= 0,
{
    let rd = g.config.recipe_dividend as int;
    let rc = g.recipes as int;
    let cd = g.config.cookbook_dividend as int;
    let cb = g.cookbooks as int;
    assert(rd * rc >= 0) by (nonlinear_arith)
        requires
            rd >= 0,
            rc >= 0,
    ;
    assert(cd * cb >= 0) by (nonlinear_arith)
        requires
            cd >= 0,
            cb >= 0,
    ;
}

} // verus!
