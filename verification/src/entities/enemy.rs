//! Enemies: what they are, how they fight and when they strike.

use vstd::prelude::*;
use vstd::string::*;
use rand::Rng;
use crate::action::{Action, ActionView};
use crate::room::RoomType;
use crate::sound::{AudioEvent, Effect};
use crate::state::{State, StateView};
use crate::timer::{Timer, TimerType, TimerView, timers_view};

verus! {

/// The kinds of enemy.
#[derive(Debug, Clone, Copy, PartialEq, Eq, Structural, Hash)]
pub enum EnemyType {
    Rat,
    Roomba,
}

/// The delay, in milliseconds, before an enemy's first attack.
pub const INITIAL_ATTACK_DELAY: u64 = 2000;

impl EnemyType {
    /// The kind's name as it appears in narration.
    pub open spec fn name(self) -> Seq<char> {
        match self {
            EnemyType::Rat => "Rat"@,
            EnemyType::Roomba => "Roomba"@,
        }
    }

    /// The kind's name as it appears in narration.
    pub fn display_name(&self) -> (r: &'static str)
        ensures
            r@ == self.name(),
    {
        match self {
            EnemyType::Rat => "Rat",
            EnemyType::Roomba => "Roomba",
        }
    }
}

/// An enemy: its kind, health and strength, the time between its attacks,
/// and the lines from which its fights are narrated.
#[derive(Debug)]
pub struct GenericEnemy {
    enemy_type: EnemyType,
    health: i32,
    attack_strength: i32,
    timer_length: u64,
    attack_messages: Vec<String>,
    enemy_attack_messages: Vec<String>,
}

/// An enemy as plain values.
pub struct GenericEnemyView {
    pub enemy_type: EnemyType,
    pub health: int,
    pub attack_strength: int,
    pub timer_length: u64,
    pub attack_messages: Seq<Seq<char>>,
    pub enemy_attack_messages: Seq<Seq<char>>,
}

/// The texts of a list of lines, in order.
pub open spec fn lines_view(lines: Seq<String>) -> Seq<Seq<char>> {
    lines.map_values(|s: String| s@)
}

/// The text of a line that may be absent.
pub open spec fn line_option_view(line: Option<String>) -> Option<Seq<char>> {
    match line {
        Some(s) => Some(s@),
        None => None,
    }
}

/// The sum of two durations, stopping at the largest value a duration holds.
pub open spec fn capped_sum(a: u64, b: u64) -> u64 {
    if a + b > u64::MAX {
        u64::MAX
    } else {
        (a + b) as u64
    }
}

/// A health value after a blow of `amount`, kept within what the field holds.
pub open spec fn health_after(health: int, amount: int) -> int {
    if health - amount < i32::MIN {
        i32::MIN as int
    } else if health - amount > i32::MAX {
        i32::MAX as int
    } else {
        health - amount
    }
}

impl GenericEnemyView {
    /// The line that says the player attacks, where no line was picked.
    pub open spec fn default_attack_message(self) -> Seq<char> {
        "You attack the "@ + self.enemy_type.name() + "."@
    }

    /// The line that says the enemy attacks, where no line was picked.
    pub open spec fn default_enemy_attack_message(self) -> Seq<char> {
        "The "@ + self.enemy_type.name() + " attacks!"@
    }

    /// The line that narrates a blow of the player, given what was picked.
    pub open spec fn attack_message(self, pick: Option<Seq<char>>) -> Seq<char> {
        match pick {
            Some(line) => line,
            None => self.default_attack_message(),
        }
    }

    /// The line that narrates a blow of the enemy, given what was picked.
    pub open spec fn enemy_attack_message(self, pick: Option<Seq<char>>) -> Seq<char> {
        match pick {
            Some(line) => line,
            None => self.default_enemy_attack_message(),
        }
    }

    /// The line that says the enemy is dead.
    pub open spec fn death_message(self) -> Seq<char> {
        "You have slain the "@ + self.enemy_type.name() + "."@
    }

    /// The enemy after a blow of `amount`.
    pub open spec fn hurt(self, amount: int) -> GenericEnemyView {
        GenericEnemyView { health: health_after(self.health, amount), ..self }
    }

    /// Whether the enemy is dead.
    pub open spec fn is_dead(self) -> bool {
        self.health <= 0
    }

    /// Whether health and strength are values that an enemy can hold.
    pub open spec fn in_range(self) -> bool {
        &&& i32::MIN <= self.health <= i32::MAX
        &&& i32::MIN <= self.attack_strength <= i32::MAX
    }

    /// The label of the visible attack timer.
    pub open spec fn attack_label(self) -> Seq<char> {
        "The "@ + self.enemy_type.name() + " is preparing to attack you."@
    }

    /// The two timers of the enemy's next attack, `delay` milliseconds
    /// later than usual: a visible one that releases the attack, and a
    /// hidden one that releases its sound.
    pub open spec fn attack_timers(self, delay: u64) -> Seq<TimerView> {
        seq![
            TimerView {
                timer_type: TimerType::EnemyAttack,
                label: self.attack_label(),
                elapsed: 0,
                duration: capped_sum(self.timer_length, delay),
                action: ActionView::EnemyAttack,
                is_visual: true,
            },
            TimerView {
                timer_type: TimerType::EnemyAttack,
                label: Seq::empty(),
                elapsed: 0,
                duration: capped_sum(self.timer_length, delay),
                action: ActionView::Audio(AudioEvent::Effect(Effect::EnemyAttack)),
                is_visual: false,
            },
        ]
    }

    /// Whether `pick` is what a draw among `lines` can give: one of the
    /// lines, or nothing where there is no line.
    pub open spec fn is_pick_among(lines: Seq<Seq<char>>, pick: Option<Seq<char>>) -> bool {
        match pick {
            Some(line) => lines.contains(line),
            None => lines.len() == 0,
        }
    }
}

impl View for GenericEnemy {
    type V = GenericEnemyView;

    closed spec fn view(&self) -> GenericEnemyView {
        GenericEnemyView {
            enemy_type: self.enemy_type,
            health: self.health as int,
            attack_strength: self.attack_strength as int,
            timer_length: self.timer_length,
            attack_messages: lines_view(self.attack_messages@),
            enemy_attack_messages: lines_view(self.enemy_attack_messages@),
        }
    }
}

/// What every enemy can do: say what it is and how it fares, take a
/// blow, narrate a fight, and set the timers of its attacks.
pub trait Enemy {
    /// The enemy as plain values.
    spec fn model(&self) -> GenericEnemyView;

    /// The enemy's kind.
    fn get_enemy_type(&self) -> (r: EnemyType)
        ensures
            r == self.model().enemy_type,
    ;

    /// The enemy's health.
    fn get_health(&self) -> (r: i32)
        ensures
            r == self.model().health,
    ;

    /// Takes `amount` off the enemy's health, which stops at the ends of
    /// its range, and says whether the enemy is dead now.
    fn reduce_health(&mut self, amount: i32) -> (dead: bool)
        ensures
            final(self).model() == old(self).model().hurt(amount as int),
            dead == final(self).model().is_dead(),
    ;

    /// How much health one blow of the enemy costs.
    fn get_attack_strength(&self) -> (r: i32)
        ensures
            r == self.model().attack_strength,
    ;

    /// The timers of the enemy's first attack in a room.
    fn get_initial_attack_timers(&self) -> (r: Vec<Timer>)
        ensures
            timers_view(r@) == self.model().attack_timers(INITIAL_ATTACK_DELAY),
    ;

    /// The timers of the enemy's next attack, `delay` milliseconds later
    /// than usual.
    fn get_attack_timers(&self, delay: u64) -> (r: Vec<Timer>)
        ensures
            timers_view(r@) == self.model().attack_timers(delay),
    ;

    /// A line that narrates a blow of the player: one of the enemy's
    /// lines, drawn at random, or a plain sentence if it has none.
    fn get_attack_message(&self) -> (r: String)
        ensures
            exists|pick: Option<Seq<char>>|
                GenericEnemyView::is_pick_among(self.model().attack_messages, pick) && r@
                    == self.model().attack_message(pick),
    ;

    /// A line that narrates a blow of the enemy: one of the enemy's
    /// lines, drawn at random, or a plain sentence if it has none.
    fn get_enemy_attack_message(&self) -> (r: String)
        ensures
            exists|pick: Option<Seq<char>>|
                GenericEnemyView::is_pick_among(self.model().enemy_attack_messages, pick) && r@
                    == self.model().enemy_attack_message(pick),
    ;

    /// The line that says the enemy is dead.
    fn get_death_message(&self) -> (r: String)
        ensures
            r@ == self.model().death_message(),
    ;
}

/// Draws one of `lines` at random with `rand::Rng::choose` on the thread's
/// generator, and copies it. The draw gives nothing if there is no line,
/// and otherwise one of the lines; which one is not stated. The generator
/// seeds itself from the system on first use.
#[verifier::external_body]
#[allow(deprecated)]
fn choose_line(lines: &Vec<String>) -> (r: Option<String>)
    ensures
        GenericEnemyView::is_pick_among(lines_view(lines@), line_option_view(r)),
{
    rand::thread_rng().choose(lines).cloned()
}

impl GenericEnemy {
    /// An enemy with the given values.
    pub fn new(
        enemy_type: EnemyType,
        health: i32,
        attack_strength: i32,
        timer_length: u64,
        attack_messages: Vec<String>,
        enemy_attack_messages: Vec<String>,
    ) -> (r: Self)
        ensures
            r@ == (GenericEnemyView {
                enemy_type,
                health: health as int,
                attack_strength: attack_strength as int,
                timer_length,
                attack_messages: lines_view(attack_messages@),
                enemy_attack_messages: lines_view(enemy_attack_messages@),
            }),
    {
        GenericEnemy {
            enemy_type,
            health,
            attack_strength,
            timer_length,
            attack_messages,
            enemy_attack_messages,
        }
    }

    /// What an enemy holds is in range.
    pub proof fn lemma_in_range(&self)
        ensures
            self@.in_range(),
    {
    }

    /// The line that narrates a blow of the player, given the line that
    /// was drawn: the drawn line, or a plain sentence where none was.
    pub fn attack_message_from(&self, pick: Option<String>) -> (r: String)
        ensures
            r@ == self@.attack_message(line_option_view(pick)),
    {
        match pick {
            Some(line) => line,
            None => {
                let mut r = String::from_str("You attack the ");
                r.append(self.enemy_type.display_name());
                r.append(".");
                r
            },
        }
    }

    /// The line that narrates a blow of the enemy, given the line that
    /// was drawn: the drawn line, or a plain sentence where none was.
    pub fn enemy_attack_message_from(&self, pick: Option<String>) -> (r: String)
        ensures
            r@ == self@.enemy_attack_message(line_option_view(pick)),
    {
        match pick {
            Some(line) => line,
            None => {
                let mut r = String::from_str("The ");
                r.append(self.enemy_type.display_name());
                r.append(" attacks!");
                r
            },
        }
    }

    /// Draws a line for a blow of the player.
    pub fn draw_attack_line(&self) -> (r: Option<String>)
        ensures
            GenericEnemyView::is_pick_among(self@.attack_messages, line_option_view(r)),
    {
        choose_line(&self.attack_messages)
    }

    /// Draws a line for a blow of the enemy.
    pub fn draw_enemy_attack_line(&self) -> (r: Option<String>)
        ensures
            GenericEnemyView::is_pick_among(self@.enemy_attack_messages, line_option_view(r)),
    {
        choose_line(&self.enemy_attack_messages)
    }
}

impl Enemy for GenericEnemy {
    open spec fn model(&self) -> GenericEnemyView {
        self@
    }

    fn get_enemy_type(&self) -> (r: EnemyType) {
        self.enemy_type
    }

    fn get_health(&self) -> (r: i32) {
        self.health
    }

    fn reduce_health(&mut self, amount: i32) -> (dead: bool) {
        let after: i64 = self.health as i64 - amount as i64;
        if after < i32::MIN as i64 {
            self.health = i32::MIN;
        } else if after > i32::MAX as i64 {
            self.health = i32::MAX;
        } else {
            self.health = after as i32;
        }
        self.health <= 0
    }

    fn get_attack_strength(&self) -> (r: i32) {
        self.attack_strength
    }

    fn get_attack_message(&self) -> (r: String) {
        let pick = self.draw_attack_line();
        let ghost drawn = line_option_view(pick);
        let r = self.attack_message_from(pick);
        assert(GenericEnemyView::is_pick_among(self.model().attack_messages, drawn) && r@
            == self.model().attack_message(drawn));
        r
    }

    fn get_enemy_attack_message(&self) -> (r: String) {
        let pick = self.draw_enemy_attack_line();
        let ghost drawn = line_option_view(pick);
        let r = self.enemy_attack_message_from(pick);
        assert(GenericEnemyView::is_pick_among(self.model().enemy_attack_messages, drawn) && r@
            == self.model().enemy_attack_message(drawn));
        r
    }

    fn get_death_message(&self) -> (r: String) {
        let mut r = String::from_str("You have slain the ");
        r.append(self.enemy_type.display_name());
        r.append(".");
        r
    }

    fn get_initial_attack_timers(&self) -> (r: Vec<Timer>) {
        self.get_attack_timers(INITIAL_ATTACK_DELAY)
    }

    fn get_attack_timers(&self, delay: u64) -> (r: Vec<Timer>) {
        let mut label = String::from_str("The ");
        label.append(self.enemy_type.display_name());
        label.append(" is preparing to attack you.");
        let duration = self.timer_length.saturating_add(delay);
        let r = vec![
            Timer::new(
                TimerType::EnemyAttack,
                label.as_str(),
                0,
                duration,
                Action::EnemyAttack,
                true,
            ),
            Timer::new(
                TimerType::EnemyAttack,
                "",
                0,
                duration,
                Action::Audio(AudioEvent::Effect(Effect::EnemyAttack)),
                false,
            ),
        ];
        proof {
            reveal_strlit("");
            assert(""@ =~= Seq::<char>::empty());
            assert(timers_view(r@) =~= self@.attack_timers(delay));
        }
        r
    }
}

impl Clone for GenericEnemy {
    /// A copy that reads the same.
    fn clone(&self) -> (r: Self)
        ensures
            r@ == self@,
    {
        let attack_messages = clone_lines(&self.attack_messages);
        let enemy_attack_messages = clone_lines(&self.enemy_attack_messages);
        GenericEnemy {
            enemy_type: self.enemy_type,
            health: self.health,
            attack_strength: self.attack_strength,
            timer_length: self.timer_length,
            attack_messages,
            enemy_attack_messages,
        }
    }
}

/// The rat that lives in the ventilation shaft.
pub open spec fn rat() -> GenericEnemyView {
    GenericEnemyView {
        enemy_type: EnemyType::Rat,
        health: 10,
        attack_strength: 5,
        timer_length: 8000,
        attack_messages: seq!["You stomp on the rat."@],
        enemy_attack_messages: seq![
            "The rat gnaws on your leg."@,
            "The rat runs around you in circles. You try to follow it, stumbling."@,
        ],
    }
}

/// The roomba that guards the cryo control room.
pub open spec fn roomba() -> GenericEnemyView {
    GenericEnemyView {
        enemy_type: EnemyType::Roomba,
        health: 40,
        attack_strength: 20,
        timer_length: 3000,
        attack_messages: seq![
            "You tackle the roomba. It topples over."@,
            "You smash in one of the roombas many visual sensors."@,
            "You kick the roomba, leaving a dent."@,
            "You rip out one of the roombas appendages. It produces a high-pitched beeping wail."@,
        ],
        enemy_attack_messages: seq![
            "The roomba vacuums your arm. Some of the skin comes off."@,
            "The roomba swings its broom and hits your head."@,
        ],
    }
}

/// Places the enemies of the game: the rat in the ventilation shaft and
/// the roomba in the cryo control room. An enemy that was there before is
/// replaced; the rest of the state stays.
pub fn initialize_enemies(state: &mut State)
    ensures
        final(state)@ == (StateView {
            enemies: old(state)@.enemies.insert(RoomType::Corridor, rat()).insert(
                RoomType::Cryocontrol,
                roomba(),
            ),
            ..old(state)@
        }),
{
    let rat_attack_messages = vec![String::from_str("You stomp on the rat.")];
    let rat_enemy_attack_messages = vec![
        String::from_str("The rat gnaws on your leg."),
        String::from_str("The rat runs around you in circles. You try to follow it, stumbling."),
    ];
    proof {
        assert(lines_view(rat_attack_messages@) =~= rat().attack_messages);
        assert(lines_view(rat_enemy_attack_messages@) =~= rat().enemy_attack_messages);
    }
    let the_rat = GenericEnemy::new(
        EnemyType::Rat,
        10,
        5,
        8 * 1000,
        rat_attack_messages,
        rat_enemy_attack_messages,
    );
    state.enemies.insert(RoomType::Corridor, the_rat);

    let roomba_attack_messages = vec![
        String::from_str("You tackle the roomba. It topples over."),
        String::from_str("You smash in one of the roombas many visual sensors."),
        String::from_str("You kick the roomba, leaving a dent."),
        String::from_str(
            "You rip out one of the roombas appendages. It produces a high-pitched beeping wail.",
        ),
    ];
    let roomba_enemy_attack_messages = vec![
        String::from_str("The roomba vacuums your arm. Some of the skin comes off."),
        String::from_str("The roomba swings its broom and hits your head."),
    ];
    proof {
        assert(lines_view(roomba_attack_messages@) =~= roomba().attack_messages);
        assert(lines_view(roomba_enemy_attack_messages@) =~= roomba().enemy_attack_messages);
    }
    let the_roomba = GenericEnemy::new(
        EnemyType::Roomba,
        40,
        20,
        3 * 1000,
        roomba_attack_messages,
        roomba_enemy_attack_messages,
    );
    state.enemies.insert(RoomType::Cryocontrol, the_roomba);
}

/// Copies a list of lines.
fn clone_lines(lines: &Vec<String>) -> (r: Vec<String>)
    ensures
        lines_view(r@) == lines_view(lines@),
{
    let mut r: Vec<String> = Vec::new();
    let mut i: usize = 0;
    while i < lines.len()
        invariant
            i <= lines.len(),
            r@.len() == i,
            forall|j: int| 0 <= j < i ==> r@[j]@ == lines@[j]@,
        decreases lines.len() - i,
    {
        r.push(lines[i].clone());
        i += 1;
    }
    assert(lines_view(r@) =~= lines_view(lines@));
    r
}

} // verus!
