//! Dice rolls on saturating signed arithmetic.

use vstd::prelude::*;
use vstd::std_specs::convert::FromSpecImpl;
use vstd::arithmetic::div_mod::lemma_fundamental_div_mod_converse;
use crate::character::Attribute;
use crate::character::Skill;
use crate::character::Weapon;
use crate::simulator::random::dice_rng;
use crate::simulator::random::fresh_seed;
use crate::simulator::random::random_face;
use vstd::std_specs::ops::AddSpecImpl;
use vstd::std_specs::ops::SubSpecImpl;
use vstd::std_specs::ops::MulSpecImpl;

verus! {

/// The value `x` cut off at the ends of the `i8` range.
pub open spec fn clamp_i8(x: int) -> int {
    if x < -128 {
        -128
    } else if x > 127 {
        127
    } else {
        x
    }
}

/// An unsigned operand as the signed amount it counts for: values above
/// `i8::MAX` count as `i8::MAX`.
pub open spec fn capped(x: u8) -> int {
    if x > 127 {
        127
    } else {
        x as int
    }
}

/// `value` lowered by `amount`, but not below 0. A negative amount lowers
/// nothing.
pub open spec fn lowered(value: u8, amount: int) -> u8 {
    if amount <= 0 {
        value
    } else if amount >= value {
        0
    } else {
        (value - amount) as u8
    }
}

/// The outcome of a roll held against a target number.
#[derive(Debug, Clone, Copy, PartialEq, Eq, Structural)]
pub enum RollResult {
    Fail,
    Success,
    Raise,
}

/// Why a roll produced no value.
#[derive(Debug, Clone, Copy, PartialEq, Eq, Structural)]
pub enum RollError {
    CriticalFail,
    Fail,
}

/// The total of a roll. It can go below zero while modifiers are applied.
#[derive(Debug, Clone, Copy, PartialEq, Eq, PartialOrd, Ord, Structural)]
pub struct Roll(pub i8);

impl View for Roll {
    type V = int;

    open spec fn view(&self) -> int {
        self.0 as int
    }
}

fn cap_u8(x: u8) -> (r: i8)
    ensures
        r as int == capped(x),
{
    if x > 127 {
        127
    } else {
        x as i8
    }
}

fn product(a: i8, b: i8) -> (r: i16)
    requires
        b >= 0,
    ensures
        r as int == a * b,
{
    assert(-16256 <= a * b <= 16129) by (nonlinear_arith)
        requires
            -128 <= a <= 127,
            0 <= b <= 127,
    ;
    a as i16 * b as i16
}

fn saturating_i8(x: i16) -> (r: i8)
    ensures
        r as int == clamp_i8(x as int),
{
    if x < -128 {
        -128
    } else if x > 127 {
        127
    } else {
        x as i8
    }
}

impl Roll {
    /// The roll with `amount` added, within `i8`.
    pub open spec fn plus(self, amount: int) -> Roll {
        Roll(clamp_i8(self.0 + amount) as i8)
    }

    /// The roll with `amount` taken off, within `i8`.
    pub open spec fn minus(self, amount: int) -> Roll {
        Roll(clamp_i8(self.0 - amount) as i8)
    }

    /// The roll times `factor`, within `i8`.
    pub open spec fn times(self, factor: int) -> Roll {
        Roll(clamp_i8(self.0 * factor) as i8)
    }

    /// The roll as an unsigned number; a negative roll counts as 0.
    pub open spec fn unsigned(self) -> u8 {
        if self.0 < 0 {
            0
        } else {
            self.0 as u8
        }
    }

    /// What `eval_against` decides for a roll of `roll` against `value`.
    pub open spec fn spec_eval_against(roll: int, value: u8) -> RollResult {
        let shifted = clamp_i8(clamp_i8(roll + 1) - capped(value));
        if shifted <= 0 {
            RollResult::Fail
        } else if shifted <= 4 {
            RollResult::Success
        } else {
            RollResult::Raise
        }
    }

    /// Holds the roll against the standard target number 4.
    pub fn eval(self) -> (r: RollResult)
        ensures
            r == Self::spec_eval_against(self@, 4),
    {
        self.eval_against(4)
    }

    /// Holds the roll against `value`: below it fails, from `value + 4` on it
    /// is a raise.
    pub fn eval_against(self, value: u8) -> (r: RollResult)
        ensures
            r == Self::spec_eval_against(self@, value),
    {
        let roll = (self + 1_i8) - value;
        if roll.0 <= 0 {
            RollResult::Fail
        } else if roll.0 <= 4 {
            RollResult::Success
        } else {
            RollResult::Raise
        }
    }

    /// The roll as an unsigned number; a negative roll counts as 0.
    pub fn as_u8(self) -> (r: u8)
        ensures
            r == self.unsigned(),
            r as int == if self@ < 0 { 0 } else { self@ },
    {
        if self.0 < 0 {
            0
        } else {
            self.0 as u8
        }
    }

    pub fn as_i8(self) -> (r: i8)
        ensures
            r as int == self@,
    {
        self.0
    }
}

/// What an exploding die with `sides` sides can add up to: the die is
/// rolled again and added as long as it shows its highest face, so the
/// total is no multiple of `sides`, unless it stopped at `i8::MAX`.
pub open spec fn die_total(sides: u8, total: int) -> bool {
    1 <= total <= 127 && (total == 127 || total % (sides as int) != 0)
}

/// Whether `shown` is something that `roll_die(sides, modifier)` can return.
pub open spec fn may_show(sides: u8, modifier: i8, shown: int) -> bool {
    if sides == 0 {
        shown == 0
    } else {
        exists|total: int| #[trigger] die_total(sides, total) && shown == clamp_i8(total + modifier)
    }
}

/// Where the lowest of `rolls` stands; of several equal ones, the first.
pub open spec fn first_minimum(rolls: Seq<Roll>, at: int) -> bool {
    &&& 0 <= at < rolls.len()
    &&& forall|k: int| 0 <= k < rolls.len() ==> rolls[at]@ <= (#[trigger] rolls[k])@
    &&& forall|k: int| 0 <= k < at ==> rolls[at]@ < (#[trigger] rolls[k])@
}

/// Whether one of `rolls` counts as a 1.
pub open spec fn shows_one(rolls: Seq<Roll>) -> bool {
    exists|k: int| 0 <= k < rolls.len() && (#[trigger] rolls[k])@ == 1
}

/// The source of every die roll in a fight.
pub struct Roller {
    rng: biski64::Biski64Rng,
}

impl Roller {
    /// A roller whose dice follow from a seed taken at random.
    pub fn new() -> Self {
        Roller { rng: dice_rng(fresh_seed()) }
    }

    /// A roller whose dice follow from `seed`.
    pub fn from_seed(seed: u64) -> Self {
        Roller { rng: dice_rng(seed) }
    }

    /// One roll of a die that does not explode. A die without sides shows 0.
    pub fn roll_die_nonexploding(&mut self, sides: u8) -> (r: Roll)
        ensures
            sides == 0 ==> r@ == 0,
            sides >= 1 ==> 1 <= r@ <= capped(sides),
    {
        if sides == 0 {
            return Roll(0);
        }
        let face = random_face(&mut self.rng, sides);
        Roll(cap_u8(face))
    }

    /// Adds one face to the running total of an exploding die, and says
    /// whether the die is rolled again: it is when the face is the highest
    /// one and the total has not reached `i8::MAX`.
    pub fn add_face(total: Roll, face: Roll, sides: u8) -> (r: (Roll, bool))
        ensures
            r.0@ == clamp_i8(total@ + face@),
            r.1 == ((if face@ < 0 { 0 } else { face@ }) == sides && r.0@ < 127),
    {
        let sum = total + face;
        let again = face.as_u8() == sides && sum.0 < i8::MAX;
        (sum, again)
    }

    /// Rolls an exploding die and adds `modifier`. A die without sides
    /// gives 0, whatever the modifier. A die with one side would explode
    /// for ever and is not accepted.
    pub fn roll_die(&mut self, sides: u8, modifier: i8) -> (r: Roll)
        requires
            sides != 1,
        ensures
            may_show(sides, modifier, r@),
            sides >= 2 ==> r@ >= clamp_i8(1 + modifier),
    {
        if sides == 0 {
            return Roll(0);
        }
        let mut result = Roll(0);
        let ghost mut count: int = 0;
        loop
            invariant_except_break
                sides >= 2,
                0 <= result@ < 127,
                0 <= count,
                result@ == count * sides,
            ensures
                die_total(sides, result@),
            decreases 127 - result@,
        {
            let face = self.roll_die_nonexploding(sides);
            let ghost before = result@;
            let (sum, again) = Self::add_face(result, face, sides);
            result = sum;
            if !again {
                proof {
                    if result@ != 127 {
                        assert(result@ == count * sides + face@);
                        assert(0 < face@ < sides);
                        lemma_fundamental_div_mod_converse(result@, sides as int, count, face@);
                    }
                }
                break ;
            }
            proof {
                assert(result@ == before + sides);
                assert((count + 1) * sides == count * sides + sides) by (nonlinear_arith);
                count = count + 1;
            }
        }
        result + modifier
    }

    /// What the wild die makes of a roll that was made with `modifier`:
    /// the higher of the two counts, but if both dice show their lowest
    /// face the roll is a critical failure. A die shows its lowest face
    /// where it counts for no more than 1 and its modifier.
    pub fn keep_higher(old_result: Roll, modifier: i8, wild_die: Roll) -> (r: Result<
        Roll,
        RollError,
    >)
        ensures
            r == if old_result@ <= 1 + modifier && wild_die@ <= 1 {
                Err::<Roll, RollError>(RollError::CriticalFail)
            } else if wild_die@ >= old_result@ {
                Ok::<Roll, RollError>(wild_die)
            } else {
                Ok::<Roll, RollError>(old_result)
            },
    {
        if old_result.0 as i16 <= 1 + modifier as i16 && wild_die.0 <= 1 {
            return Err(RollError::CriticalFail);
        }
        if wild_die.0 >= old_result.0 {
            Ok(wild_die)
        } else {
            Ok(old_result)
        }
    }

    /// Rolls a wild die beside `old_result`, which was rolled with
    /// `modifier`, and keeps the higher.
    pub fn roll_additional_wild_die(&mut self, old_result: Roll, modifier: i8, sides: u8) -> (r:
        Result<Roll, RollError>)
        requires
            sides != 1,
        ensures
            r is Err ==> r == Err::<Roll, RollError>(RollError::CriticalFail) && old_result@ <= 1
                + modifier,
            r is Ok ==> r->Ok_0@ >= old_result@ && (old_result@ > 1 + modifier || r->Ok_0@ >= 2),
    {
        let wild_die = self.roll_die(sides, 0);
        Self::keep_higher(old_result, modifier, wild_die)
    }

    /// The die rolled for a raise.
    pub fn roll_raise(&mut self) -> (r: Roll)
        ensures
            may_show(6, 0, r@),
            r@ >= 1,
    {
        self.roll_die(6, 0)
    }

    /// The die rolled for a raise with a weapon that wounds more on a raise.
    pub fn roll_raise_d10(&mut self) -> (r: Roll)
        ensures
            may_show(10, 0, r@),
            r@ >= 1,
    {
        self.roll_die(10, 0)
    }

    /// Two six-sided dice that do not explode, for the mishap table.
    pub fn roll_critical_fail_result(&mut self) -> (r: Roll)
        ensures
            2 <= r@ <= 12,
    {
        let first = self.roll_die_nonexploding(6);
        let second = self.roll_die_nonexploding(6);
        first + second
    }

    pub fn roll_attribute_without_wild_die(&mut self, attribute: Attribute) -> (r: Roll)
        ensures
            may_show(attribute.spec_die().0, attribute.spec_die().1, r@),
            r@ >= 1 + attribute.spec_die().1,
    {
        let (sides, modifier) = attribute.die();
        self.roll_die(sides, modifier)
    }

    /// Rolls an attribute with its wild die. A critical failure comes where
    /// both dice show their lowest face.
    pub fn roll_attribute(&mut self, attribute: Attribute) -> (r: Result<Roll, RollError>)
        ensures
            r is Err ==> r == Err::<Roll, RollError>(RollError::CriticalFail),
            r is Ok ==> r->Ok_0@ >= 2,
    {
        let roll = self.roll_attribute_without_wild_die(attribute);
        self.roll_additional_wild_die(roll, attribute.die().1, attribute.wild_die_sides())
    }

    /// Whether one of the rolls counts as a 1.
    pub fn any_shows_one(rolls: &Vec<Roll>) -> (r: bool)
        ensures
            r == shows_one(rolls@),
    {
        let mut i: usize = 0;
        while i < rolls.len()
            invariant
                i <= rolls.len(),
                forall|k: int| 0 <= k < i ==> (#[trigger] rolls[k])@ != 1,
            decreases rolls.len() - i,
        {
            if rolls[i].as_u8() == 1 {
                return true;
            }
            i = i + 1;
        }
        false
    }

    /// Where the lowest roll stands; of several equal ones, the first.
    pub fn lowest(rolls: &Vec<Roll>) -> (at: usize)
        requires
            rolls.len() > 0,
        ensures
            first_minimum(rolls@, at as int),
    {
        let mut at: usize = 0;
        let mut i: usize = 1;
        while i < rolls.len()
            invariant
                1 <= i <= rolls.len(),
                0 <= at < i,
                forall|k: int| 0 <= k < i ==> rolls[at as int]@ <= (#[trigger] rolls[k])@,
                forall|k: int| 0 <= k < at ==> rolls[at as int]@ < (#[trigger] rolls[k])@,
            decreases rolls.len() - i,
        {
            if rolls[i].0 < rolls[at].0 {
                at = i;
            }
            i = i + 1;
        }
        at
    }

    /// Lets the wild die stand in for the lowest of `rolls`, which were
    /// rolled with `modifier`, where it is higher. If the lowest roll and
    /// the wild die both show their lowest face, the whole roll is a
    /// critical failure.
    pub fn apply_wild_die(rolls: Vec<Roll>, modifier: i8, wild_die: Roll) -> (r: Result<
        Vec<Roll>,
        RollError,
    >)
        requires
            rolls.len() > 0,
        ensures
            match r {
                Ok(kept) => exists|at: int|
                    {
                        &&& #[trigger] first_minimum(rolls@, at)
                        &&& !(rolls@[at]@ <= 1 + modifier && wild_die@ <= 1)
                        &&& kept@ == rolls@.update(
                            at,
                            if wild_die@ >= rolls@[at]@ {
                                wild_die
                            } else {
                                rolls@[at]
                            },
                        )
                    },
                Err(e) => e == RollError::CriticalFail && exists|at: int|
                    #[trigger] first_minimum(rolls@, at) && rolls@[at]@ <= 1 + modifier
                        && wild_die@ <= 1,
            },
    {
        let at = Self::lowest(&rolls);
        let mut rolls = rolls;
        match Self::keep_higher(rolls[at], modifier, wild_die) {
            Ok(best) => {
                rolls.set(at, best);
                Ok(rolls)
            },
            Err(e) => Err(e),
        }
    }

    /// Whether the rolls are such as the skill die can show, none of them
    /// counting as 1 where that fails the roll; the one at place `at`
    /// excepted, for which the wild die may stand.
    pub open spec fn skill_rolls(
        rolls: Seq<Roll>,
        at: int,
        sides: u8,
        modifier: i8,
        fail_on_one: bool,
    ) -> bool {
        &&& 0 <= at < rolls.len()
        &&& forall|k: int|
            0 <= k < rolls.len() && k != at ==> may_show(sides, modifier, (#[trigger] rolls[k])@)
                && (fail_on_one ==> rolls[k]@ != 1)
    }

    /// Rolls the skill die `n` times and one wild die, which may stand in
    /// for the lowest of them. With `fail_on_one`, any die that counts as a
    /// 1 fails the whole roll. A critical failure comes where the lowest
    /// die and the wild die both show their lowest face.
    pub fn roll_skill_with_n_dice(&mut self, skill: Skill, n: usize, fail_on_one: bool) -> (r:
        Result<Vec<Roll>, RollError>)
        requires
            n > 0,
        ensures
            r is Ok ==> r->Ok_0.len() == n,
            r is Ok ==> forall|k: int|
                0 <= k < n ==> (#[trigger] r->Ok_0[k])@ >= 1 + skill.spec_die().1,
            r is Ok ==> exists|at: int| #[trigger]
                Self::skill_rolls(
                    r->Ok_0@,
                    at,
                    skill.spec_die().0,
                    skill.spec_die().1,
                    fail_on_one,
                ),
            r == Err::<Vec<Roll>, RollError>(RollError::Fail) ==> fail_on_one,
    {
        let (sides, modifier) = skill.die();
        let mut rolls: Vec<Roll> = Vec::new();
        let mut i: usize = 0;
        while i < n
            invariant
                i <= n,
                rolls.len() == i,
                (sides, modifier) == skill.spec_die(),
                sides >= 2,
                -2 <= modifier <= 2,
                forall|k: int| 0 <= k < i ==> (#[trigger] rolls[k])@ >= 1 + modifier,
                forall|k: int| 0 <= k < i ==> may_show(sides, modifier, (#[trigger] rolls[k])@),
            decreases n - i,
        {
            rolls.push(self.roll_die(sides, modifier));
            i = i + 1;
        }
        if fail_on_one && Self::any_shows_one(&rolls) {
            return Err(RollError::Fail);
        }
        let wild_die = self.roll_die(skill.wild_die_sides(), 0);
        let ghost rolled = rolls@;
        let r = Self::apply_wild_die(rolls, modifier, wild_die);
        proof {
            if r is Ok {
                let kept = r->Ok_0;
                {
                    let at = choose|at: int|
                        {
                            &&& #[trigger] first_minimum(rolled, at)
                            &&& !(rolled[at]@ <= 1 + modifier && wild_die@ <= 1)
                            &&& kept@ == rolled.update(
                                at,
                                if wild_die@ >= rolled[at]@ {
                                    wild_die
                                } else {
                                    rolled[at]
                                },
                            )
                        };
                    assert forall|k: int| 0 <= k < kept@.len() && k != at implies may_show(
                        sides,
                        modifier,
                        (#[trigger] kept@[k])@,
                    ) && (fail_on_one ==> kept@[k]@ != 1) by {
                        assert(kept@[k] == rolled[k]);
                    }
                    assert(Self::skill_rolls(kept@, at, sides, modifier, fail_on_one));
                }
            }
        }
        r
    }

    /// The die rolled for a weapon's damage: the weapon's own die, but no
    /// bigger than the wielder's strength die.
    pub open spec fn damage_sides<const SECONDARY: bool>(
        weapon: Weapon<SECONDARY>,
        strength: Attribute,
    ) -> u8 {
        if weapon.damage.spec_sides() <= strength.spec_sides() {
            weapon.damage.spec_sides()
        } else {
            strength.spec_sides()
        }
    }

    /// Rolls the damage of a weapon, with the weapon's bonus added.
    pub fn roll_weapon_damage<const SECONDARY: bool>(
        &mut self,
        weapon: &Weapon<SECONDARY>,
        strength: Attribute,
    ) -> (r: Roll)
        ensures
            may_show(
                Self::damage_sides(*weapon, strength),
                weapon.bonus_damage.value() as i8,
                r@,
            ),
            r@ >= -1,
    {
        let damage_sides = weapon.damage.sides();
        let strength_sides = strength.sides();
        let sides = if damage_sides <= strength_sides {
            damage_sides
        } else {
            strength_sides
        };
        let modifier = weapon.bonus_damage.get();
        self.roll_die(sides, modifier)
    }
}

/// Rolls add up, and stay within `i8`.
impl core::ops::Add<Roll> for Roll {
    type Output = Roll;

    fn add(self, rhs: Roll) -> (r: Roll) {
        Roll(saturating_i8(self.0 as i16 + rhs.0 as i16))
    }
}

impl AddSpecImpl<Roll> for Roll {
    open spec fn obeys_add_spec() -> bool {
        true
    }

    open spec fn add_req(self, rhs: Roll) -> bool {
        true
    }

    open spec fn add_spec(self, rhs: Roll) -> Roll {
        Roll(clamp_i8(self.0 + rhs.0) as i8)
    }
}

impl core::ops::AddAssign<Roll> for Roll {
    fn add_assign(&mut self, rhs: Roll)
        ensures
            final(self)@ == clamp_i8(old(self)@ + rhs.0),
    {
        self.0 = saturating_i8(self.0 as i16 + rhs.0 as i16);
    }
}

/// An unsigned bonus counts for at most `i8::MAX`.
impl core::ops::Add<u8> for Roll {
    type Output = Roll;

    fn add(self, rhs: u8) -> (r: Roll) {
        Roll(saturating_i8(self.0 as i16 + cap_u8(rhs) as i16))
    }
}

impl AddSpecImpl<u8> for Roll {
    open spec fn obeys_add_spec() -> bool {
        true
    }

    open spec fn add_req(self, rhs: u8) -> bool {
        true
    }

    open spec fn add_spec(self, rhs: u8) -> Roll {
        Roll(clamp_i8(self.0 + capped(rhs)) as i8)
    }
}

impl core::ops::AddAssign<u8> for Roll {
    fn add_assign(&mut self, rhs: u8)
        ensures
            final(self)@ == clamp_i8(old(self)@ + capped(rhs)),
    {
        self.0 = saturating_i8(self.0 as i16 + cap_u8(rhs) as i16);
    }
}

/// An unsigned penalty counts for at most `i8::MAX`.
impl core::ops::Sub<u8> for Roll {
    type Output = Roll;

    fn sub(self, rhs: u8) -> (r: Roll) {
        Roll(saturating_i8(self.0 as i16 - cap_u8(rhs) as i16))
    }
}

impl SubSpecImpl<u8> for Roll {
    open spec fn obeys_sub_spec() -> bool {
        true
    }

    open spec fn sub_req(self, rhs: u8) -> bool {
        true
    }

    open spec fn sub_spec(self, rhs: u8) -> Roll {
        Roll(clamp_i8(self.0 - capped(rhs)) as i8)
    }
}

impl core::ops::SubAssign<u8> for Roll {
    fn sub_assign(&mut self, rhs: u8)
        ensures
            final(self)@ == clamp_i8(old(self)@ - capped(rhs)),
    {
        self.0 = saturating_i8(self.0 as i16 - cap_u8(rhs) as i16);
    }
}

/// A roll times a factor, within `i8`.
impl core::ops::Mul<u8> for Roll {
    type Output = Roll;

    fn mul(self, rhs: u8) -> (r: Roll) {
        Roll(saturating_i8(product(self.0, cap_u8(rhs))))
    }
}

impl MulSpecImpl<u8> for Roll {
    open spec fn obeys_mul_spec() -> bool {
        true
    }

    open spec fn mul_req(self, rhs: u8) -> bool {
        true
    }

    open spec fn mul_spec(self, rhs: u8) -> Roll {
        Roll(clamp_i8(self.0 * capped(rhs)) as i8)
    }
}

impl core::ops::MulAssign<u8> for Roll {
    fn mul_assign(&mut self, rhs: u8)
        ensures
            final(self)@ == clamp_i8(old(self)@ * capped(rhs)),
    {
        self.0 = saturating_i8(product(self.0, cap_u8(rhs)));
    }
}

/// A signed modifier is added, within `i8`.
impl core::ops::Add<i8> for Roll {
    type Output = Roll;

    fn add(self, rhs: i8) -> (r: Roll) {
        Roll(saturating_i8(self.0 as i16 + rhs as i16))
    }
}

impl AddSpecImpl<i8> for Roll {
    open spec fn obeys_add_spec() -> bool {
        true
    }

    open spec fn add_req(self, rhs: i8) -> bool {
        true
    }

    open spec fn add_spec(self, rhs: i8) -> Roll {
        Roll(clamp_i8(self.0 + rhs) as i8)
    }
}

impl core::ops::AddAssign<i8> for Roll {
    fn add_assign(&mut self, rhs: i8)
        ensures
            final(self)@ == clamp_i8(old(self)@ + rhs),
    {
        self.0 = saturating_i8(self.0 as i16 + rhs as i16);
    }
}

/// A signed modifier is taken off, within `i8`.
impl core::ops::Sub<i8> for Roll {
    type Output = Roll;

    fn sub(self, rhs: i8) -> (r: Roll) {
        Roll(saturating_i8(self.0 as i16 - rhs as i16))
    }
}

impl SubSpecImpl<i8> for Roll {
    open spec fn obeys_sub_spec() -> bool {
        true
    }

    open spec fn sub_req(self, rhs: i8) -> bool {
        true
    }

    open spec fn sub_spec(self, rhs: i8) -> Roll {
        Roll(clamp_i8(self.0 - rhs) as i8)
    }
}

impl core::ops::SubAssign<i8> for Roll {
    fn sub_assign(&mut self, rhs: i8)
        ensures
            final(self)@ == clamp_i8(old(self)@ - rhs),
    {
        self.0 = saturating_i8(self.0 as i16 - rhs as i16);
    }
}

/// A roll taken off an unsigned value: the value never goes below 0, and a
/// negative roll takes nothing.
impl core::ops::Sub<Roll> for u8 {
    type Output = u8;

    fn sub(self, rhs: Roll) -> (r: u8) {
        let roll = rhs.as_u8();
        if roll >= self {
            0
        } else {
            self - roll
        }
    }
}

impl SubSpecImpl<Roll> for u8 {
    open spec fn obeys_sub_spec() -> bool {
        true
    }

    open spec fn sub_req(self, rhs: Roll) -> bool {
        true
    }

    open spec fn sub_spec(self, rhs: Roll) -> u8 {
        lowered(self, rhs@)
    }
}

impl core::ops::SubAssign<Roll> for u8 {
    fn sub_assign(&mut self, rhs: Roll)
        ensures
            *final(self) == lowered(*old(self), rhs@),
    {
        let roll = rhs.as_u8();
        if roll >= *self {
            *self = 0;
        } else {
            *self = *self - roll;
        }
    }
}

/// A roll as an unsigned number; a negative roll counts as 0.
impl From<Roll> for u8 {
    fn from(value: Roll) -> (r: u8) {
        value.as_u8()
    }
}

impl FromSpecImpl<Roll> for u8 {
    open spec fn obeys_from_spec() -> bool {
        true
    }

    open spec fn from_spec(value: Roll) -> u8 {
        value.unsigned()
    }
}

/// A roll as a signed number.
impl From<Roll> for i8 {
    fn from(value: Roll) -> (r: i8) {
        value.0
    }
}

impl FromSpecImpl<Roll> for i8 {
    open spec fn obeys_from_spec() -> bool {
        true
    }

    open spec fn from_spec(value: Roll) -> i8 {
        value.0
    }
}

} // verus!
