//! What is counted during a fight, and the statistics over many fights.

use vstd::prelude::*;
use vstd::arithmetic::div_mod::lemma_fundamental_div_mod;
use vstd::arithmetic::div_mod::lemma_div_pos_is_pos;
use vstd::arithmetic::div_mod::lemma_mod_bound;
use crate::gradient::Total;

verus! {

/// `a + b`, but no more than `u32::MAX`.
pub open spec fn capped_sum(a: u32, b: int) -> u32 {
    if a + b > u32::MAX {
        u32::MAX
    } else {
        (a + b) as u32
    }
}

fn add_capped(a: u32, b: u32) -> (r: u32)
    ensures
        r == capped_sum(a, b as int),
{
    if a > u32::MAX - b {
        u32::MAX
    } else {
        a + b
    }
}

/// The counters of one fight, from the left group's point of view. Each
/// counter stops at `u32::MAX`.
#[derive(Debug, Clone, Copy, PartialEq, Eq, Structural)]
pub struct FightStats {
    pub rounds: u32,
    pub hits_dealt: u32,
    pub damaging_hits_dealt: u32,
    pub damage_dealt: u32,
    pub hits_received: u32,
    pub damaging_hits_received: u32,
    pub damage_received: u32,
}

impl FightStats {
    /// The counters before anything happened.
    pub open spec fn empty() -> FightStats {
        FightStats {
            rounds: 0,
            hits_dealt: 0,
            damaging_hits_dealt: 0,
            damage_dealt: 0,
            hits_received: 0,
            damaging_hits_received: 0,
            damage_received: 0,
        }
    }

    /// Whether every counter of `self` is at least what it is in `earlier`.
    pub open spec fn extends(self, earlier: FightStats) -> bool {
        &&& earlier.rounds <= self.rounds
        &&& earlier.hits_dealt <= self.hits_dealt
        &&& earlier.damaging_hits_dealt <= self.damaging_hits_dealt
        &&& earlier.damage_dealt <= self.damage_dealt
        &&& earlier.hits_received <= self.hits_received
        &&& earlier.damaging_hits_received <= self.damaging_hits_received
        &&& earlier.damage_received <= self.damage_received
    }

    pub fn new() -> (r: Self)
        ensures
            r == Self::empty(),
    {
        FightStats {
            rounds: 0,
            hits_dealt: 0,
            damaging_hits_dealt: 0,
            damage_dealt: 0,
            hits_received: 0,
            damaging_hits_received: 0,
            damage_received: 0,
        }
    }

    pub fn add_round(&mut self)
        ensures
            *final(self) == (FightStats { rounds: capped_sum(old(self).rounds, 1), ..*old(self) }),
    {
        self.rounds = add_capped(self.rounds, 1);
    }

    pub fn add_hits_dealt(&mut self, count: u8)
        ensures
            *final(self) == (FightStats {
                hits_dealt: capped_sum(old(self).hits_dealt, count as int),
                ..*old(self)
            }),
    {
        self.hits_dealt = add_capped(self.hits_dealt, count as u32);
    }

    /// Counts one hit that wounded, and its damage.
    pub fn add_damage_dealt(&mut self, damage: u8)
        ensures
            *final(self) == (FightStats {
                damaging_hits_dealt: capped_sum(old(self).damaging_hits_dealt, 1),
                damage_dealt: capped_sum(old(self).damage_dealt, damage as int),
                ..*old(self)
            }),
    {
        self.damaging_hits_dealt = add_capped(self.damaging_hits_dealt, 1);
        self.damage_dealt = add_capped(self.damage_dealt, damage as u32);
    }

    pub fn add_hits_received(&mut self, count: u8)
        ensures
            *final(self) == (FightStats {
                hits_received: capped_sum(old(self).hits_received, count as int),
                ..*old(self)
            }),
    {
        self.hits_received = add_capped(self.hits_received, count as u32);
    }

    /// Counts one hit that wounded one of the left group, and its damage.
    pub fn add_damage_received(&mut self, damage: u8)
        ensures
            *final(self) == (FightStats {
                damaging_hits_received: capped_sum(old(self).damaging_hits_received, 1),
                damage_received: capped_sum(old(self).damage_received, damage as int),
                ..*old(self)
            }),
    {
        self.damaging_hits_received = add_capped(self.damaging_hits_received, 1);
        self.damage_received = add_capped(self.damage_received, damage as u32);
    }
}

impl Default for FightStats {
    fn default() -> (r: Self)
        ensures
            r == Self::empty(),
    {
        FightStats::new()
    }
}

/// How a fight ended, with what was counted in it.
#[derive(Debug, Clone, Copy, PartialEq, Eq, Structural)]
pub enum FightOutcome {
    LeftWon(FightStats),
    RightWon(FightStats),
    Draw(FightStats),
}

impl FightOutcome {
    pub open spec fn stats(self) -> FightStats {
        match self {
            FightOutcome::LeftWon(stats) => stats,
            FightOutcome::RightWon(stats) => stats,
            FightOutcome::Draw(stats) => stats,
        }
    }
}

/// An average over fights, or the mark that it is still pending.
#[derive(Debug, Clone, Copy, PartialEq, Eq, Structural)]
pub struct Stat(pub Option<u64>);

/// The sums over the fights counted so far.
pub struct Tally {
    pub fights: int,
    pub wins: int,
    pub draws: int,
    pub losses: int,
    pub rounds: int,
    pub hits_dealt: int,
    pub damaging_hits_dealt: int,
    pub damage_dealt: int,
    pub hits_received: int,
    pub damaging_hits_received: int,
    pub damage_received: int,
}

impl Tally {
    pub open spec fn empty() -> Tally {
        Tally {
            fights: 0,
            wins: 0,
            draws: 0,
            losses: 0,
            rounds: 0,
            hits_dealt: 0,
            damaging_hits_dealt: 0,
            damage_dealt: 0,
            hits_received: 0,
            damaging_hits_received: 0,
            damage_received: 0,
        }
    }

    /// The tally with one more fight counted.
    pub open spec fn with(self, outcome: FightOutcome) -> Tally {
        let stats = outcome.stats();
        Tally {
            fights: self.fights + 1,
            wins: self.wins + if outcome is LeftWon { 1int } else { 0int },
            draws: self.draws + if outcome is Draw { 1int } else { 0int },
            losses: self.losses + if outcome is RightWon { 1int } else { 0int },
            rounds: self.rounds + stats.rounds,
            hits_dealt: self.hits_dealt + stats.hits_dealt,
            damaging_hits_dealt: self.damaging_hits_dealt + stats.damaging_hits_dealt,
            damage_dealt: self.damage_dealt + stats.damage_dealt,
            hits_received: self.hits_received + stats.hits_received,
            damaging_hits_received: self.damaging_hits_received + stats.damaging_hits_received,
            damage_received: self.damage_received + stats.damage_received,
        }
    }

    /// Every fight was won, drawn or lost, and no sum is more than the
    /// fights can have added.
    pub open spec fn consistent(self) -> bool {
        &&& 0 <= self.wins
        &&& 0 <= self.draws
        &&& 0 <= self.losses
        &&& self.wins + self.draws + self.losses == self.fights
        &&& self.rounds <= self.fights * u32::MAX
        &&& self.hits_dealt <= self.fights * u32::MAX
        &&& self.damaging_hits_dealt <= self.fights * u32::MAX
        &&& self.damage_dealt <= self.fights * u32::MAX
        &&& self.hits_received <= self.fights * u32::MAX
        &&& self.damaging_hits_received <= self.fights * u32::MAX
        &&& self.damage_received <= self.fights * u32::MAX
    }

    /// `count` as a whole percentage of the fights, rounded down.
    pub open spec fn percent(self, count: int) -> int {
        100 * count / self.fights
    }

    /// `sum` shared out over `by`, rounded down; 0 where there is nothing to
    /// share it over.
    pub open spec fn average(sum: int, by: int) -> int {
        if by <= 0 {
            0
        } else {
            sum / by
        }
    }

    /// The report that `build` makes of the tally.
    pub open spec fn report(self) -> ReportView {
        if self.fights == 0 {
            ReportView::zero()
        } else {
            ReportView {
                prob_win: Some(self.percent(self.wins)),
                prob_draw: Some(self.percent(self.draws)),
                avg_rounds: Some(Self::average(self.rounds, self.fights)),
                avg_hits_dealt: Some(Self::average(self.hits_dealt, self.fights)),
                avg_dmg_hits_dealt: Some(Self::average(self.damaging_hits_dealt, self.fights)),
                avg_damage_dealt: Some(
                    Self::average(self.damage_dealt, self.damaging_hits_dealt),
                ),
                avg_hits_received: Some(Self::average(self.hits_received, self.fights)),
                avg_dmg_hits_received: Some(
                    Self::average(self.damaging_hits_received, self.fights),
                ),
                avg_damage_received: Some(
                    Self::average(self.damage_received, self.damaging_hits_received),
                ),
            }
        }
    }
}

/// Over any fights counted, the chances to win, to draw and to lose, each
/// rounded down to a whole percentage, add up to 100 or to at most 2 less.
pub proof fn lemma_percentages_add_up(tally: Tally)
    requires
        tally.consistent(),
        tally.fights > 0,
    ensures
        0 <= tally.percent(tally.wins) <= 100,
        0 <= tally.percent(tally.draws) <= 100,
        0 <= tally.percent(tally.losses) <= 100,
        98 <= tally.percent(tally.wins) + tally.percent(tally.draws) + tally.percent(tally.losses)
            <= 100,
{
    let n = tally.fights;
    let (w, d, l) = (tally.wins, tally.draws, tally.losses);
    lemma_fundamental_div_mod(100 * w, n);
    lemma_fundamental_div_mod(100 * d, n);
    lemma_fundamental_div_mod(100 * l, n);
    lemma_mod_bound(100 * w, n);
    lemma_mod_bound(100 * d, n);
    lemma_mod_bound(100 * l, n);
    lemma_div_pos_is_pos(100 * w, n);
    lemma_div_pos_is_pos(100 * d, n);
    lemma_div_pos_is_pos(100 * l, n);
    let (qw, qd, ql) = (100 * w / n, 100 * d / n, 100 * l / n);
    let (rw, rd, rl) = ((100 * w) % n, (100 * d) % n, (100 * l) % n);
    assert(n * (qw + qd + ql) + (rw + rd + rl) == 100 * n) by (nonlinear_arith)
        requires
            100 * w == n * qw + rw,
            100 * d == n * qd + rd,
            100 * l == n * ql + rl,
            w + d + l == n,
    ;
    assert(qw + qd + ql <= 100) by (nonlinear_arith)
        requires
            n * (qw + qd + ql) + (rw + rd + rl) == 100 * n,
            0 <= rw + rd + rl,
            n > 0,
    ;
    assert(qw + qd + ql >= 98) by (nonlinear_arith)
        requires
            n * (qw + qd + ql) + (rw + rd + rl) == 100 * n,
            rw + rd + rl < 3 * n,
            n > 0,
    ;
}

/// What a report says, as plain numbers; `None` marks what is pending.
pub struct ReportView {
    pub prob_win: Option<int>,
    pub prob_draw: Option<int>,
    pub avg_rounds: Option<int>,
    pub avg_hits_dealt: Option<int>,
    pub avg_dmg_hits_dealt: Option<int>,
    pub avg_damage_dealt: Option<int>,
    pub avg_hits_received: Option<int>,
    pub avg_dmg_hits_received: Option<int>,
    pub avg_damage_received: Option<int>,
}

impl ReportView {
    /// Nothing is known yet.
    pub open spec fn none() -> ReportView {
        ReportView {
            prob_win: None,
            prob_draw: None,
            avg_rounds: None,
            avg_hits_dealt: None,
            avg_dmg_hits_dealt: None,
            avg_damage_dealt: None,
            avg_hits_received: None,
            avg_dmg_hits_received: None,
            avg_damage_received: None,
        }
    }

    /// No fight was simulated.
    pub open spec fn zero() -> ReportView {
        ReportView {
            prob_win: Some(0),
            prob_draw: Some(0),
            avg_rounds: Some(0),
            avg_hits_dealt: Some(0),
            avg_dmg_hits_dealt: Some(0),
            avg_damage_dealt: Some(0),
            avg_hits_received: Some(0),
            avg_dmg_hits_received: Some(0),
            avg_damage_received: Some(0),
        }
    }

    /// The score that gradients are taken of: the chance to win and half
    /// the chance of a draw, rounded down. Pending if either is.
    pub open spec fn total(self) -> Option<int> {
        match (self.prob_win, self.prob_draw) {
            (Some(win), Some(draw)) => Some(win + draw / 2),
            _ => None,
        }
    }
}

/// Collects the outcomes of fights.
#[derive(Debug, Clone, Copy)]
pub struct ReportBuilder {
    count_fights: u32,
    count_wins: u32,
    count_draws: u32,
    count_losses: u32,
    accumulated_rounds: u64,
    accumulated_hits_dealt: u64,
    accumulated_damaging_hits_dealt: u64,
    accumulated_damage_dealt: u64,
    accumulated_hits_received: u64,
    accumulated_damaging_hits_received: u64,
    accumulated_damage_received: u64,
}

impl View for ReportBuilder {
    type V = Tally;

    closed spec fn view(&self) -> Tally {
        Tally {
            fights: self.count_fights as int,
            wins: self.count_wins as int,
            draws: self.count_draws as int,
            losses: self.count_losses as int,
            rounds: self.accumulated_rounds as int,
            hits_dealt: self.accumulated_hits_dealt as int,
            damaging_hits_dealt: self.accumulated_damaging_hits_dealt as int,
            damage_dealt: self.accumulated_damage_dealt as int,
            hits_received: self.accumulated_hits_received as int,
            damaging_hits_received: self.accumulated_damaging_hits_received as int,
            damage_received: self.accumulated_damage_received as int,
        }
    }
}

proof fn lemma_sum_fits(sum: u64, fights: u32, more: u32)
    requires
        sum <= fights * u32::MAX,
        fights < u32::MAX,
    ensures
        sum + more <= (fights + 1) * u32::MAX,
        sum + more <= u64::MAX,
{
    assert((fights + 1) * u32::MAX == fights * u32::MAX + u32::MAX) by (nonlinear_arith);
    assert((fights + 1) * u32::MAX <= u32::MAX * u32::MAX) by (nonlinear_arith)
        requires
            fights < u32::MAX,
    ;
}

fn percent(count: u32, fights: u32) -> (r: i8)
    requires
        0 < fights,
        count <= fights,
    ensures
        r as int == 100 * count / (fights as int),
        0 <= r <= 100,
{
    let scaled: u64 = 100 * (count as u64);
    let prob: u64 = scaled / (fights as u64);
    proof {
        let n = fights as int;
        lemma_fundamental_div_mod(100 * count, n);
        lemma_mod_bound(100 * count, n);
        lemma_div_pos_is_pos(100 * count, n);
        assert(n * (100 * count / n) <= 100 * n);
        assert(100 * count / n <= 100) by (nonlinear_arith)
            requires
                n * (100 * count / n) <= 100 * n,
                n > 0,
        ;
    }
    prob as i8
}

fn average(sum: u64, by: u64) -> (r: Stat)
    ensures
        r.0 == Some(Tally::average(sum as int, by as int) as u64),
        0 <= Tally::average(sum as int, by as int) <= sum,
{
    if by == 0 {
        Stat(Some(0))
    } else {
        proof {
            lemma_fundamental_div_mod(sum as int, by as int);
            lemma_mod_bound(sum as int, by as int);
            lemma_div_pos_is_pos(sum as int, by as int);
            assert(sum as int / by as int <= sum) by (nonlinear_arith)
                requires
                    sum as int == by as int * (sum as int / by as int) + sum as int % by as int,
                    0 <= sum as int % by as int,
                    by >= 1,
                    sum as int / by as int >= 0,
            ;
        }
        Stat(Some(sum / by))
    }
}

impl ReportBuilder {
    #[verifier::type_invariant]
    spec fn wf(self) -> bool {
        self@.consistent()
    }

    pub fn new() -> (r: Self)
        ensures
            r@ == Tally::empty(),
    {
        ReportBuilder {
            count_fights: 0,
            count_wins: 0,
            count_draws: 0,
            count_losses: 0,
            accumulated_rounds: 0,
            accumulated_hits_dealt: 0,
            accumulated_damaging_hits_dealt: 0,
            accumulated_damage_dealt: 0,
            accumulated_hits_received: 0,
            accumulated_damaging_hits_received: 0,
            accumulated_damage_received: 0,
        }
    }

    /// How many fights were counted.
    pub fn fights(&self) -> (r: u32)
        ensures
            r == self@.fights,
    {
        self.count_fights
    }

    /// Counts one more fight. A builder counts up to `u32::MAX` fights.
    pub fn add_fight(&mut self, outcome: FightOutcome)
        requires
            old(self)@.fights < u32::MAX,
        ensures
            final(self)@ == old(self)@.with(outcome),
            final(self)@.consistent(),
    {
        proof {
            use_type_invariant(&*self);
        }
        let b = *self;
        let (stats, wins, draws, losses) = match outcome {
            FightOutcome::LeftWon(stats) => (stats, 1u32, 0u32, 0u32),
            FightOutcome::RightWon(stats) => (stats, 0u32, 0u32, 1u32),
            FightOutcome::Draw(stats) => (stats, 0u32, 1u32, 0u32),
        };
        proof {
            lemma_sum_fits(b.accumulated_rounds, b.count_fights, stats.rounds);
            lemma_sum_fits(b.accumulated_hits_dealt, b.count_fights, stats.hits_dealt);
            lemma_sum_fits(
                b.accumulated_damaging_hits_dealt,
                b.count_fights,
                stats.damaging_hits_dealt,
            );
            lemma_sum_fits(b.accumulated_damage_dealt, b.count_fights, stats.damage_dealt);
            lemma_sum_fits(b.accumulated_hits_received, b.count_fights, stats.hits_received);
            lemma_sum_fits(
                b.accumulated_damaging_hits_received,
                b.count_fights,
                stats.damaging_hits_received,
            );
            lemma_sum_fits(b.accumulated_damage_received, b.count_fights, stats.damage_received);
        }
        *self = ReportBuilder {
            count_fights: b.count_fights + 1,
            count_wins: b.count_wins + wins,
            count_draws: b.count_draws + draws,
            count_losses: b.count_losses + losses,
            accumulated_rounds: b.accumulated_rounds + stats.rounds as u64,
            accumulated_hits_dealt: b.accumulated_hits_dealt + stats.hits_dealt as u64,
            accumulated_damaging_hits_dealt: b.accumulated_damaging_hits_dealt
                + stats.damaging_hits_dealt as u64,
            accumulated_damage_dealt: b.accumulated_damage_dealt + stats.damage_dealt as u64,
            accumulated_hits_received: b.accumulated_hits_received + stats.hits_received as u64,
            accumulated_damaging_hits_received: b.accumulated_damaging_hits_received
                + stats.damaging_hits_received as u64,
            accumulated_damage_received: b.accumulated_damage_received
                + stats.damage_received as u64,
        };
    }

    /// The statistics over the fights counted: chances as whole
    /// percentages of the fights, averages rounded down. Without a fight
    /// everything is 0.
    pub fn build(self) -> (r: FightReport)
        ensures
            r@ == self@.report(),
            self@.consistent(),
    {
        proof {
            use_type_invariant(&self);
        }
        if self.count_fights == 0 {
            return FightReport::zero();
        }
        proof {
            lemma_percentages_add_up(self@);
        }
        let fights = self.count_fights as u64;
        let prob_win = percent(self.count_wins, self.count_fights);
        let prob_draw = percent(self.count_draws, self.count_fights);
        let win = match Total::new(prob_win) {
            Ok(total) => total,
            Err(_) => Total::none(),
        };
        let draw = match Total::new(prob_draw) {
            Ok(total) => total,
            Err(_) => Total::none(),
        };
        FightReport {
            prob_win: win,
            prob_draw: draw,
            avg_rounds: average(self.accumulated_rounds, fights),
            avg_hits_dealt: average(self.accumulated_hits_dealt, fights),
            avg_dmg_hits_dealt: average(self.accumulated_damaging_hits_dealt, fights),
            avg_damage_dealt: average(
                self.accumulated_damage_dealt,
                self.accumulated_damaging_hits_dealt,
            ),
            avg_hits_received: average(self.accumulated_hits_received, fights),
            avg_dmg_hits_received: average(self.accumulated_damaging_hits_received, fights),
            avg_damage_received: average(
                self.accumulated_damage_received,
                self.accumulated_damaging_hits_received,
            ),
        }
    }
}

impl Default for ReportBuilder {
    fn default() -> (r: Self)
        ensures
            r@ == Tally::empty(),
    {
        ReportBuilder::new()
    }
}

/// The statistics over many fights, from the left group's point of view.
#[derive(Debug, Clone, Copy, PartialEq, Eq, Structural)]
pub struct FightReport {
    prob_win: Total,
    prob_draw: Total,
    avg_rounds: Stat,
    avg_hits_dealt: Stat,
    avg_dmg_hits_dealt: Stat,
    avg_damage_dealt: Stat,
    avg_hits_received: Stat,
    avg_dmg_hits_received: Stat,
    avg_damage_received: Stat,
}

pub open spec fn stat_view(stat: Stat) -> Option<int> {
    match stat.0 {
        Some(v) => Some(v as int),
        None => None,
    }
}

impl View for FightReport {
    type V = ReportView;

    closed spec fn view(&self) -> ReportView {
        ReportView {
            prob_win: self.prob_win@,
            prob_draw: self.prob_draw@,
            avg_rounds: stat_view(self.avg_rounds),
            avg_hits_dealt: stat_view(self.avg_hits_dealt),
            avg_dmg_hits_dealt: stat_view(self.avg_dmg_hits_dealt),
            avg_damage_dealt: stat_view(self.avg_damage_dealt),
            avg_hits_received: stat_view(self.avg_hits_received),
            avg_dmg_hits_received: stat_view(self.avg_dmg_hits_received),
            avg_damage_received: stat_view(self.avg_damage_received),
        }
    }
}

impl FightReport {
    #[verifier::type_invariant]
    spec fn wf(self) -> bool {
        match (self.prob_win@, self.prob_draw@) {
            (Some(win), Some(draw)) => 0 <= win && 0 <= draw && win + draw <= 100,
            _ => true,
        }
    }

    /// The report of a computation that has not finished.
    pub fn none() -> (r: FightReport)
        ensures
            r@ == ReportView::none(),
    {
        FightReport {
            prob_win: Total::none(),
            prob_draw: Total::none(),
            avg_rounds: Stat(None),
            avg_hits_dealt: Stat(None),
            avg_dmg_hits_dealt: Stat(None),
            avg_damage_dealt: Stat(None),
            avg_hits_received: Stat(None),
            avg_dmg_hits_received: Stat(None),
            avg_damage_received: Stat(None),
        }
    }

    /// The report over no fight at all.
    pub fn zero() -> (r: FightReport)
        ensures
            r@ == ReportView::zero(),
    {
        FightReport {
            prob_win: Total::zero(),
            prob_draw: Total::zero(),
            avg_rounds: Stat(Some(0)),
            avg_hits_dealt: Stat(Some(0)),
            avg_dmg_hits_dealt: Stat(Some(0)),
            avg_damage_dealt: Stat(Some(0)),
            avg_hits_received: Stat(Some(0)),
            avg_dmg_hits_received: Stat(Some(0)),
            avg_damage_received: Stat(Some(0)),
        }
    }

    /// The chance that the left group wins, in percent.
    pub fn prob_win(&self) -> (r: Total)
        ensures
            r@ == self@.prob_win,
    {
        self.prob_win
    }

    /// The chance that neither group wins, in percent.
    pub fn prob_draw(&self) -> (r: Total)
        ensures
            r@ == self@.prob_draw,
    {
        self.prob_draw
    }

    /// The score of the left group: its chance to win and half the chance
    /// of a draw. Pending as long as the report is.
    pub fn total(&self) -> (r: Total)
        ensures
            r@ == self@.total(),
    {
        proof {
            use_type_invariant(self);
        }
        match (self.prob_win.value(), self.prob_draw.value()) {
            (Ok(win), Ok(draw)) => {
                match Total::new(win + draw / 2) {
                    Ok(total) => total,
                    Err(_) => Total::none(),
                }
            },
            _ => Total::none(),
        }
    }

    /// The averages of the report, in the order in which they are shown:
    /// rounds, hits, wounding hits and damage per wounding hit dealt, then
    /// the same three received.
    pub fn averages(&self) -> (r: [Stat; 7])
        ensures
            stat_view(r[0]) == self@.avg_rounds,
            stat_view(r[1]) == self@.avg_hits_dealt,
            stat_view(r[2]) == self@.avg_dmg_hits_dealt,
            stat_view(r[3]) == self@.avg_damage_dealt,
            stat_view(r[4]) == self@.avg_hits_received,
            stat_view(r[5]) == self@.avg_dmg_hits_received,
            stat_view(r[6]) == self@.avg_damage_received,
    {
        [
            self.avg_rounds,
            self.avg_hits_dealt,
            self.avg_dmg_hits_dealt,
            self.avg_damage_dealt,
            self.avg_hits_received,
            self.avg_dmg_hits_received,
            self.avg_damage_received,
        ]
    }
}

impl Default for FightReport {
    fn default() -> (r: FightReport)
        ensures
            r@ == ReportView::none(),
    {
        FightReport::none()
    }
}

} // verus!
