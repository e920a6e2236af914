//! Fire control of a hitscan weapon: cooldown, ammunition and hit resolution.

use vstd::prelude::*;

verus! {

/// What the ray of a shot met, as the host's hitscan reports it.
#[derive(Clone, Copy, Debug, PartialEq, Eq, Structural)]
pub enum RayHit {
    /// The ray met nothing, or the host had nothing to cast it with.
    Miss,
    /// The ray met something that cannot take damage.
    Obstacle,
    /// The ray met something that can take damage.
    Target,
}

/// What the host does about a resolved shot.
#[derive(Clone, Copy, Debug, PartialEq, Eq, Structural)]
pub enum HitEffect {
    /// Nothing was hit: there is nothing to do.
    Nothing,
    /// Show the impact at the point that was hit.
    Impact,
    /// Deliver `damage` to what was hit, then show the impact.
    Damage { damage: i32 },
}

/// Mathematical state of a weapon. Times are in milliseconds.
pub struct WeaponModel {
    /// Damage one shot delivers to a target that can take it.
    pub damage: int,
    /// Least time between two shots.
    pub fire_rate: nat,
    /// Rounds left.
    pub ammo: int,
    /// Rounds after a reload.
    pub max_ammo: int,
    /// Time until the next shot is allowed.
    pub fire_timer: nat,
}

impl WeaponModel {
    /// The invariant of a weapon.
    pub open spec fn wf(self) -> bool {
        &&& 0 <= self.damage
        &&& 0 < self.fire_rate
        &&& 0 < self.max_ammo
        &&& 0 <= self.ammo <= self.max_ammo
        &&& self.fire_timer <= self.fire_rate
    }

    /// A shot is allowed: the cooldown has run out and a round is left.
    pub open spec fn can_fire(self) -> bool {
        self.fire_timer == 0 && self.ammo > 0
    }

    /// The weapon after a fire request: one round less and the cooldown
    /// started, or the same weapon where no shot is allowed.
    pub open spec fn fired(self) -> WeaponModel {
        if self.can_fire() {
            WeaponModel { ammo: self.ammo - 1, fire_timer: self.fire_rate, ..self }
        } else {
            self
        }
    }

    /// The weapon after a reload: the magazine is full, whatever it held.
    pub open spec fn reloaded(self) -> WeaponModel {
        WeaponModel { ammo: self.max_ammo, ..self }
    }

    /// The weapon after `delta` milliseconds: the cooldown has run down by
    /// `delta`, and stops at zero.
    pub open spec fn cooled(self, delta: nat) -> WeaponModel {
        WeaponModel {
            fire_timer: if self.fire_timer > delta {
                (self.fire_timer - delta) as nat
            } else {
                0
            },
            ..self
        }
    }

    /// The weapon after one step of `delta` milliseconds during which the
    /// trigger was or was not held.
    pub open spec fn processed(self, delta: nat, fire_requested: bool) -> WeaponModel {
        if fire_requested {
            self.cooled(delta).fired()
        } else {
            self.cooled(delta)
        }
    }

    /// What a shot of this weapon does about what its ray met.
    pub open spec fn hit_effect(self, hit: RayHit) -> HitEffect {
        match hit {
            RayHit::Miss => HitEffect::Nothing,
            RayHit::Obstacle => HitEffect::Impact,
            RayHit::Target => HitEffect::Damage { damage: self.damage as i32 },
        }
    }

    /// A fire request that finds the weapon not ready changes nothing:
    /// neither the rounds nor the cooldown.
    pub proof fn lemma_blocked_fire_changes_nothing(self)
        requires
            !self.can_fire(),
        ensures
            self.fired() == self,
            self.fired().ammo == self.ammo,
            self.fired().fire_timer == self.fire_timer,
    {
    }

    /// A fire request that finds the weapon ready takes exactly one round and
    /// leaves it not ready until the cooldown has run out.
    pub proof fn lemma_fire_starts_cooldown(self)
        requires
            self.wf(),
            self.can_fire(),
        ensures
            self.fired().wf(),
            self.fired().ammo == self.ammo - 1,
            self.fired().fire_timer == self.fire_rate,
            !self.fired().can_fire(),
            forall|delta: nat|
                delta < self.fire_rate ==> !(#[trigger] self.fired().cooled(delta)).can_fire(),
    {
    }

    /// A reload fills the magazine whatever it held, an empty one too, and
    /// touches nothing else.
    pub proof fn lemma_reload_fills_magazine(self)
        ensures
            self.reloaded().ammo == self.max_ammo,
            self.reloaded() == (WeaponModel { ammo: self.max_ammo, ..self }),
            self.wf() ==> self.reloaded().wf(),
    {
    }
}

/// A weapon: its settings, its magazine and its cooldown.
#[derive(Clone, Copy, Debug)]
pub struct Weapon {
    damage: i32,
    fire_rate: u32,
    ammo: i32,
    max_ammo: i32,
    fire_timer: u32,
}

impl View for Weapon {
    type V = WeaponModel;

    closed spec fn view(&self) -> WeaponModel {
        WeaponModel {
            damage: self.damage as int,
            fire_rate: self.fire_rate as nat,
            ammo: self.ammo as int,
            max_ammo: self.max_ammo as int,
            fire_timer: self.fire_timer as nat,
        }
    }
}

impl Weapon {
    #[verifier::type_invariant]
    spec fn inv(self) -> bool {
        self@.wf()
    }

    /// The settings a weapon is accepted with.
    pub open spec fn valid_settings(damage: i32, fire_rate: u32, ammo: i32, max_ammo: i32) -> bool {
        &&& 0 <= damage
        &&& 0 < fire_rate
        &&& 0 < max_ammo
        &&& 0 <= ammo <= max_ammo
    }

    /// The standard weapon: 25 damage, a tenth of a second between shots and
    /// a full magazine of 30 rounds.
    pub fn init() -> (weapon: Self)
        ensures
            weapon@ == (WeaponModel {
                damage: 25,
                fire_rate: 100,
                ammo: 30,
                max_ammo: 30,
                fire_timer: 0,
            }),
            weapon@.wf(),
    {
        Weapon { damage: 25, fire_rate: 100, ammo: 30, max_ammo: 30, fire_timer: 0 }
    }

    /// A weapon with the given settings, ready to fire, or `None` where the
    /// settings break the invariant of a weapon.
    pub fn new(damage: i32, fire_rate: u32, ammo: i32, max_ammo: i32) -> (made: Option<Self>)
        ensures
            made is Some <==> Self::valid_settings(damage, fire_rate, ammo, max_ammo),
            made matches Some(weapon) ==> weapon@.wf() && weapon@ == (WeaponModel {
                damage: damage as int,
                fire_rate: fire_rate as nat,
                ammo: ammo as int,
                max_ammo: max_ammo as int,
                fire_timer: 0,
            }),
    {
        if damage >= 0 && fire_rate > 0 && max_ammo > 0 && ammo >= 0 && ammo <= max_ammo {
            Some(Weapon { damage, fire_rate, ammo, max_ammo, fire_timer: 0 })
        } else {
            None
        }
    }

    /// Whether a shot is allowed now: the cooldown has run out and a round is
    /// left.
    pub fn can_fire(&self) -> (ready: bool)
        ensures
            ready == self@.can_fire(),
            ready <==> self@.fire_timer == 0 && self@.ammo > 0,
    {
        self.fire_timer == 0 && self.ammo > 0
    }

    /// Fires one shot if one is allowed. A shot takes one round and starts the
    /// cooldown; the result is then the number of rounds left, which the
    /// fired event carries, and the host casts the ray and hands what it met
    /// to [`Weapon::raycast_shot`]. Where no shot is allowed nothing changes
    /// and nothing is to be emitted.
    pub fn fire(&mut self) -> (shot: Option<i32>)
        ensures
            final(self)@ == old(self)@.fired(),
            final(self)@.wf(),
            shot is Some <==> old(self)@.can_fire(),
            shot matches Some(left) ==> left == old(self)@.ammo - 1 && left == final(self)@.ammo,
            !old(self)@.can_fire() ==> final(self)@ == old(self)@,
            old(self)@.can_fire() ==> final(self)@.fire_timer == old(self)@.fire_rate,
    {
        proof {
            use_type_invariant(&*self);
        }
        if !self.can_fire() {
            return None;
        }
        *self = Weapon { ammo: self.ammo - 1, fire_timer: self.fire_rate, ..*self };
        Some(self.ammo)
    }

    /// Fills the magazine, whatever it held. The result is the number of
    /// rounds now in it, which the reloaded event carries.
    pub fn reload(&mut self) -> (ammo: i32)
        ensures
            final(self)@ == old(self)@.reloaded(),
            final(self)@.wf(),
            final(self)@.ammo == old(self)@.max_ammo,
            ammo == old(self)@.max_ammo,
    {
        proof {
            use_type_invariant(&*self);
        }
        self.ammo = self.max_ammo;
        self.ammo
    }

    /// One step of `delta` milliseconds. The cooldown runs down towards zero;
    /// then, if the trigger is held and a shot is allowed, the weapon fires as
    /// [`Weapon::fire`] does. The result is that of the fire request, `None`
    /// where none was made.
    pub fn process(&mut self, delta: u32, fire_requested: bool) -> (shot: Option<i32>)
        ensures
            final(self)@ == old(self)@.processed(delta as nat, fire_requested),
            final(self)@.wf(),
            shot is Some <==> fire_requested && old(self)@.cooled(delta as nat).can_fire(),
            shot matches Some(left) ==> left == old(self)@.ammo - 1 && left == final(self)@.ammo,
    {
        proof {
            use_type_invariant(&*self);
        }
        self.fire_timer = self.fire_timer.saturating_sub(delta);
        if fire_requested && self.can_fire() {
            self.fire()
        } else {
            None
        }
    }

    /// Resolves a shot that was fired: what the host does about what the ray
    /// met. Only a target that can take damage receives any, and it receives
    /// the weapon's damage; anything that was hit shows an impact. A miss is
    /// no error.
    pub fn raycast_shot(&self, hit: RayHit) -> (effect: HitEffect)
        ensures
            effect == self@.hit_effect(hit),
            effect is Damage <==> hit is Target,
            effect is Nothing <==> hit is Miss,
            effect matches HitEffect::Damage { damage } ==> damage == self@.damage,
    {
        match hit {
            RayHit::Miss => HitEffect::Nothing,
            RayHit::Obstacle => HitEffect::Impact,
            RayHit::Target => HitEffect::Damage { damage: self.damage },
        }
    }

    /// Damage one shot delivers.
    pub fn damage(&self) -> (damage: i32)
        ensures
            damage == self@.damage,
    {
        self.damage
    }

    /// Least time between two shots, in milliseconds.
    pub fn fire_rate(&self) -> (fire_rate: u32)
        ensures
            fire_rate == self@.fire_rate,
    {
        self.fire_rate
    }

    /// Rounds left.
    pub fn ammo(&self) -> (ammo: i32)
        ensures
            ammo == self@.ammo,
    {
        self.ammo
    }

    /// Rounds after a reload.
    pub fn max_ammo(&self) -> (max_ammo: i32)
        ensures
            max_ammo == self@.max_ammo,
    {
        self.max_ammo
    }

    /// Time until the next shot is allowed, in milliseconds.
    pub fn fire_timer(&self) -> (fire_timer: u32)
        ensures
            fire_timer == self@.fire_timer,
    {
        self.fire_timer
    }
}

} // verus!
