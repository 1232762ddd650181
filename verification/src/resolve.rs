//! The mathematical model of action resolution.
//!
//! Which cards a draw happens to pick is random, but everything else an
//! action list does to a player is a pure function of the starting counters
//! and deck sizes and of the resolution context. That function is written
//! out here as spec-level interpreters ([`action_effect`], [`list_effect`])
//! over an abstract [`ResolveState`]; the executable resolution code in the
//! player module is proved to realize exactly these interpreters.

use crate::action::{Action, ActionLoc, Condition, Data};
use crate::faction::{Faction, Factions};
use vstd::prelude::*;

verus! {

/// The context a composite condition is evaluated against: whether the card
/// being resolved is itself being scrapped, the factions played so far this
/// turn, and a numeric counter.
#[derive(Debug)]
pub struct ResolveContext {
    /// True while the card whose actions are being resolved is being
    /// scrapped.
    pub scrapping: bool,
    /// The factions of the cards played so far this turn.
    pub factions_played: Factions,
    /// The numeric counter comparisons read.
    pub counter: u32,
}

impl ResolveContext {
    /// The context of an ordinary play: nothing scrapped, nothing played yet,
    /// counter zero.
    pub fn plain() -> (r: Self)
        ensures
            !r.scrapping,
            r.factions_played@ =~= Seq::<crate::faction::Faction>::empty(),
            r.counter == 0,
    {
        ResolveContext { scrapping: false, factions_played: Factions::none(), counter: 0 }
    }
}

/// The spec-level image of a resolution context: what condition evaluation
/// actually reads.
#[verifier::ext_equal]
pub ghost struct CtxView {
    pub scrapping: bool,
    pub factions: Seq<Faction>,
    pub counter: u32,
}

impl View for ResolveContext {
    type V = CtxView;

    open spec fn view(&self) -> CtxView {
        CtxView {
            scrapping: self.scrapping,
            factions: self.factions_played@,
            counter: self.counter,
        }
    }
}

/// Whether a condition holds in a context.
pub open spec fn cond_holds(c: Condition, ctx: CtxView) -> bool {
    match c {
        Condition::FactionPlayed(fs) => forall|i: int|
            0 <= i < fs@.len() ==> ctx.factions.contains(#[trigger] fs@[i]),
        Condition::Action(inner) => *inner matches Action::Scrap {
            loc: ActionLoc::CurrentCard,
            ..
        } && ctx.scrapping,
        Condition::GreaterThan(data, bound) => match data {
            Data::Counter => ctx.counter > bound,
        },
    }
}

/// Evaluates a condition against a context.
#[verifier::loop_isolation(false)]
pub fn eval_condition(c: &Condition, ctx: &ResolveContext) -> (r: bool)
    ensures
        r == cond_holds(*c, ctx@),
{
    match c {
        Condition::FactionPlayed(fs) => {
            let n = fs.len();
            let mut i: usize = 0;
            while i < n
                invariant
                    i <= n,
                    n == fs@.len(),
                    forall|j: int| 0 <= j < i ==> ctx.factions_played@.contains(#[trigger] fs@[j]),
                decreases n - i,
            {
                if !ctx.factions_played.has(fs.get(i)) {
                    proof {
                        if cond_holds(*c, ctx@) {
                            assert(ctx.factions_played@.contains(fs@[i as int]));
                        }
                    }
                    return false;
                }
                i += 1;
            }
            true
        },
        Condition::Action(inner) => match &**inner {
            Action::Scrap { loc: ActionLoc::CurrentCard, .. } => ctx.scrapping,
            _ => false,
        },
        Condition::GreaterThan(data, bound) => match data {
            Data::Counter => ctx.counter > *bound,
        },
    }
}

/// The deterministic image of a player under resolution: the three counters
/// and the sizes of the three decks a draw can touch.
pub ghost struct ResolveState {
    pub gold: int,
    pub attack: int,
    pub authority: int,
    pub hand: int,
    pub draw_pile: int,
    pub discard: int,
}

impl ResolveState {
    /// The number of cards in the three draw-related zones together.
    pub open spec fn total_cards(self) -> int {
        self.hand + self.draw_pile + self.discard
    }

    /// All three counters fit in their 32-bit machine representation.
    pub open spec fn counters_fit(self) -> bool {
        &&& 0 <= self.gold <= u32::MAX
        &&& 0 <= self.attack <= u32::MAX
        &&& 0 <= self.authority <= u32::MAX
    }
}

/// One draw step: reshuffle the discard into the draw pile when the draw pile
/// is empty, then move one card from the draw pile to the hand; with nothing
/// left to draw, do nothing.
pub open spec fn draw_one(s: ResolveState) -> ResolveState {
    let s1 = if s.draw_pile == 0 {
        ResolveState { draw_pile: s.discard, discard: 0, ..s }
    } else {
        s
    };
    if s1.draw_pile == 0 {
        s1
    } else {
        ResolveState { draw_pile: s1.draw_pile - 1, hand: s1.hand + 1, ..s1 }
    }
}

/// `n` draw steps.
pub open spec fn draw_n(n: nat, s: ResolveState) -> ResolveState
    decreases n,
{
    if n == 0 {
        s
    } else {
        draw_one(draw_n((n - 1) as nat, s))
    }
}

/// The effect of one action on the abstract state.
pub open spec fn action_effect(a: Action, ctx: CtxView, s: ResolveState) -> ResolveState
    decreases a,
{
    match a {
        Action::Gold(n) => ResolveState { gold: s.gold + n, ..s },
        Action::Attack(n) => ResolveState { attack: s.attack + n, ..s },
        Action::Authority(n) => ResolveState { authority: s.authority + n, ..s },
        Action::Draw(n) => draw_n(n as nat, s),
        Action::Discard(_) => s,
        Action::Scrap { .. } => s,
        Action::OpponentDiscard(_) => s,
        Action::Complex { condition, result } => if cond_holds(condition, ctx) {
            list_effect(result@, ctx, s)
        } else {
            s
        },
    }
}

/// The effect of an action list, resolved in declaration order.
pub open spec fn list_effect(actions: Seq<Action>, ctx: CtxView, s: ResolveState) -> ResolveState
    decreases actions,
{
    if actions.len() == 0 {
        s
    } else {
        list_effect(actions.drop_first(), ctx, action_effect(actions[0], ctx, s))
    }
}

/// No counter overflows anywhere while resolving `a` from `s`.
pub open spec fn action_fits(a: Action, ctx: CtxView, s: ResolveState) -> bool
    decreases a,
{
    s.counters_fit() && match a {
        Action::Gold(n) => s.gold + n <= u32::MAX,
        Action::Attack(n) => s.attack + n <= u32::MAX,
        Action::Authority(n) => s.authority + n <= u32::MAX,
        Action::Draw(_) => true,
        Action::Discard(_) => true,
        Action::Scrap { .. } => true,
        Action::OpponentDiscard(_) => true,
        Action::Complex { condition, result } => cond_holds(condition, ctx) ==> list_fits(
            result@,
            ctx,
            s,
        ),
    }
}

/// No counter overflows anywhere while resolving the list from `s`.
pub open spec fn list_fits(actions: Seq<Action>, ctx: CtxView, s: ResolveState) -> bool
    decreases actions,
{
    if actions.len() == 0 {
        true
    } else {
        action_fits(actions[0], ctx, s) && list_fits(
            actions.drop_first(),
            ctx,
            action_effect(actions[0], ctx, s),
        )
    }
}

/// Any number of draw steps conserves the card total and the counters.
pub proof fn lemma_draw_n_conserves(n: nat, s: ResolveState)
    ensures
        draw_n(n, s).total_cards() == s.total_cards(),
        draw_n(n, s).gold == s.gold,
        draw_n(n, s).attack == s.attack,
        draw_n(n, s).authority == s.authority,
    decreases n,
{
    if n > 0 {
        lemma_draw_n_conserves((n - 1) as nat, s);
    }
}

/// Resolving any action conserves `hand + draw_pile + discard`: cards are
/// neither created nor destroyed, only moved among the three zones.
pub proof fn lemma_action_conserves_cards(a: Action, ctx: CtxView, s: ResolveState)
    ensures
        action_effect(a, ctx, s).total_cards() == s.total_cards(),
    decreases a,
{
    match a {
        Action::Draw(n) => lemma_draw_n_conserves(n as nat, s),
        Action::Complex { condition, result } => {
            if cond_holds(condition, ctx) {
                lemma_list_conserves_cards(result@, ctx, s);
            }
        },
        _ => {},
    }
}

/// Resolving any action list conserves `hand + draw_pile + discard`.
pub proof fn lemma_list_conserves_cards(actions: Seq<Action>, ctx: CtxView, s: ResolveState)
    ensures
        list_effect(actions, ctx, s).total_cards() == s.total_cards(),
    decreases actions,
{
    if actions.len() > 0 {
        lemma_action_conserves_cards(actions[0], ctx, s);
        lemma_list_conserves_cards(actions.drop_first(), ctx, action_effect(actions[0], ctx, s));
    }
}

/// The two states agree on the three counters.
pub open spec fn same_counters(s1: ResolveState, s2: ResolveState) -> bool {
    &&& s1.gold == s2.gold
    &&& s1.attack == s2.attack
    &&& s1.authority == s2.authority
}

/// The abstract state holding the given counters and no cards.
pub open spec fn counters_state(gold: u32, attack: u32, authority: u32) -> ResolveState {
    ResolveState {
        gold: gold as int,
        attack: attack as int,
        authority: authority as int,
        hand: 0,
        draw_pile: 0,
        discard: 0,
    }
}

/// Whether an action fits, and what it does to the counters, depend on the
/// counters alone, never on the deck sizes.
pub proof fn lemma_action_counters_only(
    a: Action,
    ctx: CtxView,
    s1: ResolveState,
    s2: ResolveState,
)
    requires
        same_counters(s1, s2),
    ensures
        action_fits(a, ctx, s1) == action_fits(a, ctx, s2),
        same_counters(action_effect(a, ctx, s1), action_effect(a, ctx, s2)),
    decreases a,
{
    match a {
        Action::Draw(n) => {
            lemma_draw_n_conserves(n as nat, s1);
            lemma_draw_n_conserves(n as nat, s2);
        },
        Action::Complex { condition, result } => {
            if cond_holds(condition, ctx) {
                lemma_list_counters_only(result@, ctx, s1, s2);
            }
        },
        _ => {},
    }
}

/// Whether an action list fits, and what it does to the counters, depend on
/// the counters alone.
pub proof fn lemma_list_counters_only(
    actions: Seq<Action>,
    ctx: CtxView,
    s1: ResolveState,
    s2: ResolveState,
)
    requires
        same_counters(s1, s2),
    ensures
        list_fits(actions, ctx, s1) == list_fits(actions, ctx, s2),
        same_counters(list_effect(actions, ctx, s1), list_effect(actions, ctx, s2)),
    decreases actions,
{
    if actions.len() > 0 {
        lemma_action_counters_only(actions[0], ctx, s1, s2);
        lemma_list_counters_only(
            actions.drop_first(),
            ctx,
            action_effect(actions[0], ctx, s1),
            action_effect(actions[0], ctx, s2),
        );
    }
}

/// Decides whether resolving `a` from the given counters stays free of
/// overflow, and computes the counters it would leave behind.
#[verifier::loop_isolation(false)]
pub fn check_action_fits(a: &Action, ctx: &ResolveContext, gold: u32, attack: u32, authority: u32) -> (r:
    (bool, u32, u32, u32))
    ensures
        r.0 == action_fits(*a, ctx@, counters_state(gold, attack, authority)),
        r.0 ==> same_counters(
            counters_state(r.1, r.2, r.3),
            action_effect(*a, ctx@, counters_state(gold, attack, authority)),
        ),
    decreases *a,
{
    match a {
        Action::Gold(n) => {
            if *n <= u32::MAX - gold {
                (true, gold + *n, attack, authority)
            } else {
                (false, gold, attack, authority)
            }
        },
        Action::Attack(n) => {
            if *n <= u32::MAX - attack {
                (true, gold, attack + *n, authority)
            } else {
                (false, gold, attack, authority)
            }
        },
        Action::Authority(n) => {
            if *n <= u32::MAX - authority {
                (true, gold, attack, authority + *n)
            } else {
                (false, gold, attack, authority)
            }
        },
        Action::Draw(n) => {
            proof {
                lemma_draw_n_conserves(*n as nat, counters_state(gold, attack, authority));
            }
            (true, gold, attack, authority)
        },
        Action::Discard(_) => (true, gold, attack, authority),
        Action::Scrap { .. } => (true, gold, attack, authority),
        Action::OpponentDiscard(_) => (true, gold, attack, authority),
        Action::Complex { condition, result } => {
            if eval_condition(condition, ctx) {
                check_list_fits(result, ctx, gold, attack, authority)
            } else {
                (true, gold, attack, authority)
            }
        },
    }
}

/// Decides whether resolving the list in order from the given counters stays
/// free of overflow, and computes the counters it would leave behind.
#[verifier::loop_isolation(false)]
pub fn check_list_fits(
    actions: &Vec<Action>,
    ctx: &ResolveContext,
    gold: u32,
    attack: u32,
    authority: u32,
) -> (r: (bool, u32, u32, u32))
    ensures
        r.0 == list_fits(actions@, ctx@, counters_state(gold, attack, authority)),
        r.0 ==> same_counters(
            counters_state(r.1, r.2, r.3),
            list_effect(actions@, ctx@, counters_state(gold, attack, authority)),
        ),
    decreases *actions,
{
    let ghost s0 = counters_state(gold, attack, authority);
    proof {
        assert(actions@.skip(0) =~= actions@);
    }
    let mut g = gold;
    let mut at = attack;
    let mut au = authority;
    let n = actions.len();
    let mut i: usize = 0;
    while i < n
        invariant
            i <= n,
            list_fits(actions@, ctx@, s0) == list_fits(
                actions@.skip(i as int),
                ctx@,
                counters_state(g, at, au),
            ),
            list_fits(actions@, ctx@, s0) ==> same_counters(
                list_effect(actions@, ctx@, s0),
                list_effect(actions@.skip(i as int), ctx@, counters_state(g, at, au)),
            ),
        decreases n - i,
    {
        proof {
            assert(actions@.skip(i as int)[0] == actions@[i as int]);
        }
        let step = check_action_fits(&actions[i], ctx, g, at, au);
        if !step.0 {
            return (false, g, at, au);
        }
        proof {
            lemma_list_counters_only(
                actions@.skip(i as int).drop_first(),
                ctx@,
                action_effect(actions@[i as int], ctx@, counters_state(g, at, au)),
                counters_state(step.1, step.2, step.3),
            );
            assert(actions@.skip(i as int).drop_first() =~= actions@.skip(i + 1));
        }
        g = step.1;
        at = step.2;
        au = step.3;
        i += 1;
    }
    (true, g, at, au)
}

/// A composite action whose condition does not hold leaves the state exactly
/// as it was: no counter moves, no card moves, no partial application.
pub proof fn lemma_composite_false_no_effect(
    condition: Condition,
    result: Seq<Action>,
    ctx: CtxView,
    s: ResolveState,
)
    requires
        !cond_holds(condition, ctx),
    ensures
        forall|r: Vec<Action>| r@ == result ==> action_effect(
            Action::Complex { condition, result: r },
            ctx,
            s,
        ) == s,
{
}

} // verus!
