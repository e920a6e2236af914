//! Behaviour of a hostile actor: perception, pursuit, melee timing, damage
//! and death.
//!
//! The enemy is a state machine that the host steps once per physics tick.
//! The host measures the distance to the tracked target and hands it in; the
//! enemy changes state and answers with what the host has to carry out.

use vstd::prelude::*;

verus! {

/// Time between two attacks, and from closing in to the first one, in
/// milliseconds.
pub const ATTACK_COOLDOWN: u32 = 1000;

/// Time between death and removal from the world, in milliseconds.
pub const REMOVAL_DELAY: u32 = 2000;

/// Share of its horizontal velocity, in percent, that an enemy keeps per tick
/// while it is not pursuing.
pub const FRICTION_PERCENT: u32 = 80;

/// A pursuit is given up beyond `PURSUIT_MARGIN_NUM / PURSUIT_MARGIN_DEN` of
/// the detection range, which is further out than where it began, so that a
/// target at the edge of the detection range does not make the enemy waver.
pub const PURSUIT_MARGIN_NUM: u64 = 6;

/// See [`PURSUIT_MARGIN_NUM`].
pub const PURSUIT_MARGIN_DEN: u64 = 5;

/// The behaviour states. Exactly one is active at a time.
#[derive(Clone, Copy, Debug, PartialEq, Eq, Structural)]
pub enum EnemyState {
    /// Waiting for a target to come into detection range.
    Idle,
    /// Moving towards the target.
    Chasing,
    /// Within attack range, striking whenever the attack timer runs out.
    Attacking,
    /// Terminal: nothing changes a dead enemy.
    Dead,
}

/// What the host carries out after the enemy has thought for a tick.
#[derive(Clone, Copy, Debug, PartialEq, Eq, Structural)]
pub enum AiAction {
    /// Nothing to do.
    Nothing,
    /// Point the path seeker at the target's present position.
    SeekTarget,
    /// Strike the target: see [`Enemy::perform_attack`].
    Attack,
}

/// What a call of [`Enemy::take_damage`] did, and so what the host emits.
#[derive(Clone, Copy, Debug, PartialEq, Eq, Structural)]
pub enum DamageOutcome {
    /// The enemy was dead already: nothing changed, nothing is emitted.
    Ignored,
    /// The enemy lives on with `health` of `max_health`, and is now chasing.
    /// The host emits the health-changed event with these two values.
    Wounded { health: i32, max_health: i32 },
    /// The enemy died of it. The host switches its collision off, emits the
    /// death event and schedules its removal `removal_delay` milliseconds from
    /// now; after that it emits the health-changed event with zero and
    /// `max_health`.
    Killed { max_health: i32, removal_delay: u32 },
}

/// How the host moves the enemy's body in a tick that was not skipped.
#[derive(Clone, Copy, Debug, PartialEq, Eq, Structural)]
pub struct TickPlan {
    /// What the enemy decided; the host carries it out before it moves the
    /// body.
    pub action: AiAction,
    /// The body is in the air: gravity is added to its vertical velocity.
    pub apply_gravity: bool,
}

/// What becomes of the body's horizontal velocity in a tick.
#[derive(Clone, Copy, Debug, PartialEq, Eq, Structural)]
pub enum Steering {
    /// Head for the next waypoint at `speed`, and face it.
    Toward { speed: u32 },
    /// Leave the velocity as it is.
    Keep,
    /// Keep `percent` hundredths of the velocity.
    Damp { percent: u32 },
}

/// The settings an enemy is made with. Distances are in thousandths of a
/// world unit, the speed in thousandths of a world unit per second.
#[derive(Clone, Copy, Debug, PartialEq, Eq, Structural)]
pub struct EnemySettings {
    /// Health the enemy starts with.
    pub health: i32,
    /// Full health.
    pub max_health: i32,
    /// Speed of pursuit.
    pub speed: u32,
    /// Damage one strike delivers.
    pub attack_damage: i32,
    /// Distance within which an idle enemy notices its target.
    pub detection_range: u32,
    /// Distance within which the enemy strikes. It is meant to be no more
    /// than the detection range, which nothing enforces.
    pub attack_range: u32,
}

impl EnemySettings {
    /// The settings an enemy is accepted with: it starts alive, with no more
    /// than full health, and deals no negative damage.
    pub open spec fn valid(self) -> bool {
        &&& 0 < self.health <= self.max_health
        &&& 0 <= self.attack_damage
    }
}

/// The distance at which a pursuit is given up: beyond six fifths of the
/// detection range.
pub open spec fn out_of_pursuit(distance: nat, detection_range: nat) -> bool {
    PURSUIT_MARGIN_DEN * distance > PURSUIT_MARGIN_NUM * detection_range
}

/// A measured distance as the number it stands for; `None` where the enemy
/// has no target to measure to.
pub open spec fn sighted(target: Option<u32>) -> Option<nat> {
    match target {
        Some(distance) => Some(distance as nat),
        None => None,
    }
}

/// `value` held between `low` and `high`.
pub open spec fn clamped(value: int, low: int, high: int) -> int {
    if value < low {
        low
    } else if value > high {
        high
    } else {
        value
    }
}

/// Mathematical state of an enemy. Times are in milliseconds, distances in
/// thousandths of a world unit.
pub struct EnemyModel {
    pub health: int,
    pub max_health: int,
    pub speed: nat,
    pub attack_damage: int,
    pub detection_range: nat,
    pub attack_range: nat,
    pub state: EnemyState,
    /// Time until the next attack. It runs only while the enemy is attacking.
    pub attack_timer: nat,
}

impl EnemyModel {
    /// The invariant of an enemy: its health lies between zero and full
    /// health, it is dead exactly when its health is zero, and while it is
    /// attacking its timer is running.
    pub open spec fn wf(self) -> bool {
        &&& 0 < self.max_health
        &&& 0 <= self.health <= self.max_health
        &&& 0 <= self.attack_damage
        &&& (self.state == EnemyState::Dead <==> self.health == 0)
        &&& self.attack_timer <= ATTACK_COOLDOWN
        &&& (self.state == EnemyState::Attacking ==> self.attack_timer > 0)
    }

    /// The enemy as it is made from `settings`: idle, its timer at rest.
    pub open spec fn spawned(settings: EnemySettings) -> EnemyModel {
        EnemyModel {
            health: settings.health as int,
            max_health: settings.max_health as int,
            speed: settings.speed as nat,
            attack_damage: settings.attack_damage as int,
            detection_range: settings.detection_range as nat,
            attack_range: settings.attack_range as nat,
            state: EnemyState::Idle,
            attack_timer: 0,
        }
    }

    /// The enemy after its death: no health left, in the terminal state.
    pub open spec fn killed(self) -> EnemyModel {
        EnemyModel { health: 0, state: EnemyState::Dead, ..self }
    }

    /// The health that is left once `amount` is taken from it, never below
    /// zero and never above full health.
    pub open spec fn health_after(self, amount: int) -> int {
        clamped(self.health - amount, 0, self.max_health)
    }

    /// The enemy after `amount` of damage. A dead enemy stays as it is. A
    /// living one loses the amount; it dies where nothing is left, and is
    /// chasing otherwise, whatever it was doing.
    pub open spec fn damaged(self, amount: int) -> EnemyModel {
        if self.state == EnemyState::Dead {
            self
        } else if self.health_after(amount) == 0 {
            self.killed()
        } else {
            EnemyModel { health: self.health_after(amount), state: EnemyState::Chasing, ..self }
        }
    }

    /// What `amount` of damage reports back.
    pub open spec fn damage_outcome(self, amount: int) -> DamageOutcome {
        if self.state == EnemyState::Dead {
            DamageOutcome::Ignored
        } else if self.health_after(amount) == 0 {
            DamageOutcome::Killed {
                max_health: self.max_health as i32,
                removal_delay: REMOVAL_DELAY,
            }
        } else {
            DamageOutcome::Wounded {
                health: self.health_after(amount) as i32,
                max_health: self.max_health as i32,
            }
        }
    }

    /// The attack timer after `delta` milliseconds; it stops at zero.
    pub open spec fn timer_after(self, delta: nat) -> nat {
        if self.attack_timer > delta {
            (self.attack_timer - delta) as nat
        } else {
            0
        }
    }

    /// The enemy after it has thought for a tick of `delta` milliseconds with
    /// its target at the distance `target`, or with no target.
    ///
    /// Without a target nothing changes. An idle enemy starts chasing a
    /// target within detection range. A chasing enemy gives up beyond six
    /// fifths of the detection range, and starts attacking, with a full timer,
    /// within attack range. An attacking enemy runs its timer down; when it
    /// has run out the enemy strikes, and then attacks on with a full timer if
    /// the target is still within attack range, and chases it otherwise.
    pub open spec fn ticked(self, delta: nat, target: Option<nat>) -> EnemyModel {
        match target {
            None => self,
            Some(distance) => match self.state {
                EnemyState::Idle => if distance <= self.detection_range {
                    EnemyModel { state: EnemyState::Chasing, ..self }
                } else {
                    self
                },
                EnemyState::Chasing => if out_of_pursuit(distance, self.detection_range) {
                    EnemyModel { state: EnemyState::Idle, ..self }
                } else if distance <= self.attack_range {
                    EnemyModel {
                        state: EnemyState::Attacking,
                        attack_timer: ATTACK_COOLDOWN as nat,
                        ..self
                    }
                } else {
                    self
                },
                EnemyState::Attacking => if self.timer_after(delta) > 0 {
                    EnemyModel { attack_timer: self.timer_after(delta), ..self }
                } else if distance > self.attack_range {
                    EnemyModel { state: EnemyState::Chasing, attack_timer: 0, ..self }
                } else {
                    EnemyModel { attack_timer: ATTACK_COOLDOWN as nat, ..self }
                },
                EnemyState::Dead => self,
            },
        }
    }

    /// What the enemy asks of the host in that tick: to seek the target when
    /// it starts or goes on chasing, to strike when its timer has run out.
    pub open spec fn tick_action(self, delta: nat, target: Option<nat>) -> AiAction {
        match target {
            None => AiAction::Nothing,
            Some(distance) => match self.state {
                EnemyState::Idle => if distance <= self.detection_range {
                    AiAction::SeekTarget
                } else {
                    AiAction::Nothing
                },
                EnemyState::Chasing => if !out_of_pursuit(distance, self.detection_range)
                    && distance > self.attack_range {
                    AiAction::SeekTarget
                } else {
                    AiAction::Nothing
                },
                EnemyState::Attacking => if self.timer_after(delta) == 0 {
                    AiAction::Attack
                } else {
                    AiAction::Nothing
                },
                EnemyState::Dead => AiAction::Nothing,
            },
        }
    }

    /// What becomes of the horizontal velocity, given whether the path seeker
    /// has a next waypoint. A chasing enemy heads for the waypoint, and keeps
    /// its velocity where there is none; an idle or attacking one slows down;
    /// a dead one is not moved at all.
    pub open spec fn steering(self, waypoint: bool) -> Steering {
        match self.state {
            EnemyState::Chasing => if waypoint {
                Steering::Toward { speed: self.speed as u32 }
            } else {
                Steering::Keep
            },
            EnemyState::Dead => Steering::Keep,
            _ => Steering::Damp { percent: FRICTION_PERCENT },
        }
    }
}

/// An enemy: its settings, its health and its behaviour state.
#[derive(Clone, Copy, Debug)]
pub struct Enemy {
    health: i32,
    max_health: i32,
    speed: u32,
    attack_damage: i32,
    detection_range: u32,
    attack_range: u32,
    state: EnemyState,
    attack_timer: u32,
}

impl View for Enemy {
    type V = EnemyModel;

    closed spec fn view(&self) -> EnemyModel {
        EnemyModel {
            health: self.health as int,
            max_health: self.max_health as int,
            speed: self.speed as nat,
            attack_damage: self.attack_damage as int,
            detection_range: self.detection_range as nat,
            attack_range: self.attack_range as nat,
            state: self.state,
            attack_timer: self.attack_timer as nat,
        }
    }
}

impl Enemy {
    #[verifier::type_invariant]
    spec fn inv(self) -> bool {
        self@.wf()
    }

    /// The standard enemy: 100 health, 20 damage per strike, a speed of 3,
    /// a detection range of 15 and an attack range of 2 world units. It is
    /// idle.
    pub fn init() -> (enemy: Self)
        ensures
            enemy@ == (EnemyModel {
                health: 100,
                max_health: 100,
                speed: 3000,
                attack_damage: 20,
                detection_range: 15000,
                attack_range: 2000,
                state: EnemyState::Idle,
                attack_timer: 0,
            }),
            enemy@.wf(),
    {
        Enemy {
            health: 100,
            max_health: 100,
            speed: 3000,
            attack_damage: 20,
            detection_range: 15000,
            attack_range: 2000,
            state: EnemyState::Idle,
            attack_timer: 0,
        }
    }

    /// An idle enemy with the given settings, or `None` where the settings
    /// are not valid.
    pub fn new(settings: EnemySettings) -> (made: Option<Self>)
        ensures
            made is Some <==> settings.valid(),
            made matches Some(enemy) ==> enemy@ == EnemyModel::spawned(settings) && enemy@.wf(),
    {
        if settings.health > 0 && settings.health <= settings.max_health
            && settings.attack_damage >= 0 {
            Some(
                Enemy {
                    health: settings.health,
                    max_health: settings.max_health,
                    speed: settings.speed,
                    attack_damage: settings.attack_damage,
                    detection_range: settings.detection_range,
                    attack_range: settings.attack_range,
                    state: EnemyState::Idle,
                    attack_timer: 0,
                },
            )
        } else {
            None
        }
    }

    /// Lets the enemy think for a tick of `delta` milliseconds. `target` is
    /// the distance to the tracked target as the host measured it, `None`
    /// where there is no target, in which case nothing happens. The enemy
    /// changes state as [`EnemyModel::ticked`] says; the result is what the
    /// host carries out.
    pub fn update_ai(&mut self, delta: u32, target: Option<u32>) -> (action: AiAction)
        ensures
            final(self)@ == old(self)@.ticked(delta as nat, sighted(target)),
            action == old(self)@.tick_action(delta as nat, sighted(target)),
            final(self)@.wf(),
    {
        proof {
            use_type_invariant(&*self);
        }
        let distance: u32 = match target {
            Some(distance) => distance,
            None => {
                return AiAction::Nothing;
            },
        };
        match self.state {
            EnemyState::Idle => {
                if distance <= self.detection_range {
                    self.state = EnemyState::Chasing;
                    AiAction::SeekTarget
                } else {
                    AiAction::Nothing
                }
            },
            EnemyState::Chasing => {
                let reach: u64 = PURSUIT_MARGIN_NUM * (self.detection_range as u64);
                if PURSUIT_MARGIN_DEN * (distance as u64) > reach {
                    self.state = EnemyState::Idle;
                    AiAction::Nothing
                } else if distance <= self.attack_range {
                    *self = Enemy {
                        state: EnemyState::Attacking,
                        attack_timer: ATTACK_COOLDOWN,
                        ..*self
                    };
                    AiAction::Nothing
                } else {
                    AiAction::SeekTarget
                }
            },
            EnemyState::Attacking => {
                let left: u32 = self.attack_timer.saturating_sub(delta);
                if left > 0 {
                    self.attack_timer = left;
                    AiAction::Nothing
                } else if distance > self.attack_range {
                    *self = Enemy { state: EnemyState::Chasing, attack_timer: 0, ..*self };
                    AiAction::Attack
                } else {
                    self.attack_timer = ATTACK_COOLDOWN;
                    AiAction::Attack
                }
            },
            EnemyState::Dead => AiAction::Nothing,
        }
    }

    /// One physics tick of `delta` milliseconds. A dead enemy skips it
    /// altogether: nothing changes and the result is `None`. A living one
    /// thinks as in [`Enemy::update_ai`]; the plan holds what it decided and
    /// whether gravity pulls on it, which it does whenever the body is not on
    /// the floor. Once the host has carried out the action it asks
    /// [`Enemy::steering`] how to move.
    pub fn physics_process(
        &mut self,
        delta: u32,
        target: Option<u32>,
        on_floor: bool,
    ) -> (plan: Option<TickPlan>)
        ensures
            final(self)@ == old(self)@.ticked(delta as nat, sighted(target)),
            final(self)@.wf(),
            plan is None <==> old(self)@.state == EnemyState::Dead,
            plan is None ==> final(self)@ == old(self)@,
            plan matches Some(tick) ==> tick == (TickPlan {
                action: old(self)@.tick_action(delta as nat, sighted(target)),
                apply_gravity: !on_floor,
            }),
    {
        proof {
            use_type_invariant(&*self);
        }
        if self.state == EnemyState::Dead {
            return None;
        }
        let action = self.update_ai(delta, target);
        Some(TickPlan { action, apply_gravity: !on_floor })
    }

    /// What becomes of the body's horizontal velocity in this tick, given
    /// whether the path seeker has a next waypoint: see
    /// [`EnemyModel::steering`].
    pub fn steering(&self, waypoint: bool) -> (steering: Steering)
        ensures
            steering == self@.steering(waypoint),
    {
        match self.state {
            EnemyState::Chasing => {
                if waypoint {
                    Steering::Toward { speed: self.speed }
                } else {
                    Steering::Keep
                }
            },
            EnemyState::Dead => Steering::Keep,
            _ => Steering::Damp { percent: FRICTION_PERCENT },
        }
    }

    /// The damage a strike delivers to the tracked target: the enemy's attack
    /// damage where the host still finds the target, `None` where it is gone,
    /// which is no error. The enemy itself is not changed by striking.
    pub fn perform_attack(&self, target_present: bool) -> (strike: Option<i32>)
        ensures
            strike == if target_present {
                Some(self@.attack_damage as i32)
            } else {
                None
            },
            strike matches Some(damage) ==> damage >= 0,
    {
        proof {
            use_type_invariant(self);
        }
        if target_present {
            Some(self.attack_damage)
        } else {
            None
        }
    }

    /// Takes `damage` from the enemy's health. A dead enemy ignores it. A
    /// living one dies where no health is left, and otherwise turns on its
    /// attacker: it is chasing from this call on, whatever it was doing. The
    /// result says which, and with it what the host emits.
    pub fn take_damage(&mut self, damage: i32) -> (outcome: DamageOutcome)
        ensures
            final(self)@ == old(self)@.damaged(damage as int),
            outcome == old(self)@.damage_outcome(damage as int),
            final(self)@.wf(),
            0 <= final(self)@.health <= final(self)@.max_health,
            old(self)@.state == EnemyState::Dead ==> final(self)@ == old(self)@
                && outcome is Ignored,
            old(self)@.state != EnemyState::Dead ==> (outcome is Killed <==> damage
                >= old(self)@.health),
            old(self)@.state != EnemyState::Dead && damage < old(self)@.health
                ==> final(self)@.state == EnemyState::Chasing,
            final(self)@.health < old(self)@.health
                ==> damage > 0 && old(self)@.health - final(self)@.health <= damage,
    {
        proof {
            use_type_invariant(&*self);
        }
        if self.state == EnemyState::Dead {
            return DamageOutcome::Ignored;
        }
        let rest: i64 = self.health as i64 - damage as i64;
        if rest <= 0 {
            self.die();
            DamageOutcome::Killed { max_health: self.max_health, removal_delay: REMOVAL_DELAY }
        } else {
            let health: i32 = if rest > self.max_health as i64 {
                self.max_health
            } else {
                rest as i32
            };
            *self = Enemy { health, state: EnemyState::Chasing, ..*self };
            DamageOutcome::Wounded { health, max_health: self.max_health }
        }
    }

    /// Kills the enemy: no health is left and it is dead for good. The result
    /// is the delay, in milliseconds, after which the host removes it from the
    /// world, having switched its collision off and emitted the death event.
    /// On an enemy that is dead already nothing changes and the result is
    /// `None`: it dies once.
    pub fn die(&mut self) -> (removal: Option<u32>)
        ensures
            final(self)@ == old(self)@.killed(),
            final(self)@.wf(),
            removal == if old(self)@.state == EnemyState::Dead {
                None
            } else {
                Some(REMOVAL_DELAY)
            },
            old(self)@.state == EnemyState::Dead ==> final(self)@ == old(self)@,
    {
        proof {
            use_type_invariant(&*self);
        }
        if self.state == EnemyState::Dead {
            return None;
        }
        *self = Enemy { health: 0, state: EnemyState::Dead, ..*self };
        Some(REMOVAL_DELAY)
    }

    /// Health left.
    pub fn get_health(&self) -> (health: i32)
        ensures
            health == self@.health,
            0 <= health <= self@.max_health,
    {
        proof {
            use_type_invariant(self);
        }
        self.health
    }

    /// Full health.
    pub fn get_max_health(&self) -> (max_health: i32)
        ensures
            max_health == self@.max_health,
            max_health > 0,
    {
        proof {
            use_type_invariant(self);
        }
        self.max_health
    }

    /// The behaviour state the enemy is in.
    pub fn state(&self) -> (state: EnemyState)
        ensures
            state == self@.state,
            state == EnemyState::Dead <==> self@.health == 0,
    {
        proof {
            use_type_invariant(self);
        }
        self.state
    }

    /// Time until the next attack, in milliseconds.
    pub fn attack_timer(&self) -> (attack_timer: u32)
        ensures
            attack_timer == self@.attack_timer,
            attack_timer <= ATTACK_COOLDOWN,
    {
        proof {
            use_type_invariant(self);
        }
        self.attack_timer
    }

    /// Speed of pursuit, in thousandths of a world unit per second.
    pub fn speed(&self) -> (speed: u32)
        ensures
            speed == self@.speed,
    {
        self.speed
    }

    /// Damage one strike delivers.
    pub fn attack_damage(&self) -> (attack_damage: i32)
        ensures
            attack_damage == self@.attack_damage,
            attack_damage >= 0,
    {
        proof {
            use_type_invariant(self);
        }
        self.attack_damage
    }

    /// Distance within which an idle enemy notices its target, in thousandths
    /// of a world unit.
    pub fn detection_range(&self) -> (detection_range: u32)
        ensures
            detection_range == self@.detection_range,
    {
        self.detection_range
    }

    /// Distance within which the enemy strikes, in thousandths of a world
    /// unit.
    pub fn attack_range(&self) -> (attack_range: u32)
        ensures
            attack_range == self@.attack_range,
    {
        self.attack_range
    }
}

/// Something that happens to an enemy: it takes damage, a tick passes, or it
/// strikes.
pub enum EnemyEvent {
    /// `amount` of damage is applied.
    Damage { amount: int },
    /// The enemy thinks for `delta` milliseconds with its target at the
    /// distance `target`, or with none.
    Tick { delta: nat, target: Option<nat> },
    /// The enemy strikes at its target, which leaves the enemy as it is.
    Attack,
}

impl EnemyModel {
    /// The enemy after one event.
    pub open spec fn after(self, event: EnemyEvent) -> EnemyModel {
        match event {
            EnemyEvent::Damage { amount } => self.damaged(amount),
            EnemyEvent::Tick { delta, target } => self.ticked(delta, target),
            EnemyEvent::Attack => self,
        }
    }

    /// The enemy after a run of events, the first of them first.
    pub open spec fn after_all(self, events: Seq<EnemyEvent>) -> EnemyModel
        decreases events.len(),
    {
        if events.len() == 0 {
            self
        } else {
            self.after(events.first()).after_all(events.drop_first())
        }
    }

    /// One event keeps the invariant, and with it the health between zero and
    /// full health; the settings stay as they were.
    pub proof fn lemma_event_keeps_invariant(self, event: EnemyEvent)
        requires
            self.wf(),
        ensures
            self.after(event).wf(),
            0 <= self.after(event).health <= self.after(event).max_health,
            self.after(event).max_health == self.max_health,
            self.after(event).speed == self.speed,
            self.after(event).attack_damage == self.attack_damage,
            self.after(event).detection_range == self.detection_range,
            self.after(event).attack_range == self.attack_range,
    {
    }

    /// Whatever damage, ticks and strikes follow one another, in whatever
    /// order, the health stays between zero and full health, and the enemy is
    /// dead exactly when none is left.
    pub proof fn lemma_events_keep_invariant(self, events: Seq<EnemyEvent>)
        requires
            self.wf(),
        ensures
            self.after_all(events).wf(),
            0 <= self.after_all(events).health <= self.max_health,
            self.after_all(events).max_health == self.max_health,
        decreases events.len(),
    {
        if events.len() > 0 {
            self.lemma_event_keeps_invariant(events.first());
            self.after(events.first()).lemma_events_keep_invariant(events.drop_first());
        }
    }

    /// Health falls only by damage of a positive amount, and then by no more
    /// than that amount. A tick or a strike never changes it, and damage of no
    /// positive amount never lowers it.
    pub proof fn lemma_health_falls_only_by_damage(self, event: EnemyEvent)
        requires
            self.wf(),
        ensures
            self.after(event).health < self.health ==> (event matches EnemyEvent::Damage { amount }
                && amount > 0 && self.health - self.after(event).health <= amount),
            event is Tick || event is Attack ==> self.after(event).health == self.health,
            event matches EnemyEvent::Damage { amount } ==> (amount <= 0
                ==> self.after(event).health >= self.health),
    {
    }

    /// Death is final: damage, a tick or a strike leaves a dead enemy as it
    /// is, its damage is reported as ignored, its tick asks nothing of the
    /// host, and killing it again changes nothing.
    pub proof fn lemma_dead_ignores_event(self, event: EnemyEvent)
        requires
            self.state == EnemyState::Dead,
        ensures
            self.after(event) == self,
            event matches EnemyEvent::Damage { amount } ==> self.damage_outcome(amount)
                == DamageOutcome::Ignored,
            event matches EnemyEvent::Tick { delta, target } ==> self.tick_action(delta, target)
                == AiAction::Nothing,
            self.killed().state == EnemyState::Dead,
            self.wf() ==> self.killed() == self,
    {
    }

    /// Death is final over any run of damage, ticks and strikes: state and
    /// health, and everything else, stay as they were.
    pub proof fn lemma_dead_is_absorbing(self, events: Seq<EnemyEvent>)
        requires
            self.state == EnemyState::Dead,
        ensures
            self.after_all(events) == self,
        decreases events.len(),
    {
        if events.len() > 0 {
            self.lemma_dead_ignores_event(events.first());
            self.lemma_dead_is_absorbing(events.drop_first());
        }
    }

    /// Damage that a living enemy survives makes it chase in the same call,
    /// whatever it was doing; damage that it does not survive kills it.
    pub proof fn lemma_damage_provokes_chase(self, amount: int)
        requires
            self.wf(),
            self.state != EnemyState::Dead,
        ensures
            amount < self.health ==> self.damaged(amount).state == EnemyState::Chasing,
            amount >= self.health ==> self.damaged(amount).state == EnemyState::Dead
                && self.damaged(amount).health == 0,
    {
    }

    /// An idle enemy whose target stands at exactly the detection range
    /// starts chasing.
    pub proof fn lemma_idle_detects_at_range(self, delta: nat)
        requires
            self.state == EnemyState::Idle,
        ensures
            self.ticked(delta, Some(self.detection_range)).state == EnemyState::Chasing,
    {
    }

    /// A chasing enemy goes back to idle exactly when the target is beyond
    /// six fifths of the detection range: never at the detection range
    /// itself, nor anywhere within it.
    pub proof fn lemma_chase_ends_beyond_margin(self, delta: nat, distance: nat)
        requires
            self.state == EnemyState::Chasing,
        ensures
            self.ticked(delta, Some(distance)).state == EnemyState::Idle <==> 5 * distance > 6
                * self.detection_range,
            distance <= self.detection_range ==> self.ticked(delta, Some(distance)).state
                != EnemyState::Idle,
            self.ticked(delta, Some(self.detection_range)).state != EnemyState::Idle,
    {
    }

    /// No flapping at the boundary: an idle enemy that picks up a target at
    /// exactly the detection range is not idle again after the next tick, as
    /// long as the target is no further than six fifths of that range.
    pub proof fn lemma_no_flapping_at_boundary(self, first: nat, second: nat, distance: nat)
        requires
            self.state == EnemyState::Idle,
            5 * distance <= 6 * self.detection_range,
        ensures
            self.ticked(first, Some(self.detection_range)).ticked(second, Some(distance)).state
                != EnemyState::Idle,
    {
    }
}

} // verus!
