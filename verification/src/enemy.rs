//! The enemy entity the interpreter drives.
//!
//! The entity owns position, life, timers, difficulty, the bullet-attribute
//! template and assorted flags. Runners mutate it through the narrow
//! methods here; its lifecycle (creation, iteration, garbage collection of
//! removed entities) belongs to the surrounding container, which holds
//! entities in an arena and passes one by mutable reference into each tick.

use vstd::prelude::*;

verus! {

use crate::fx32::Fx32;

/// A point in the play field, as float bit patterns.
#[derive(Clone, Copy, PartialEq, Eq, Structural, Debug)]
pub struct Position {
    pub x: Fx32,
    pub y: Fx32,
}

impl Position {
    pub fn new(x: Fx32, y: Fx32) -> (r: Position)
        ensures
            r.x == x && r.y == y,
    {
        Position { x, y }
    }
}

/// Offset bullets are launched from, relative to the entity.
#[derive(Clone, Copy, PartialEq, Eq, Structural, Debug)]
pub struct Offset {
    pub dx: Fx32,
    pub dy: Fx32,
}

/// Opaque payload of the extended-attributes instruction: four integers
/// and four floats handed through to the engine-side bullet variant.
#[derive(Clone, Copy, PartialEq, Eq, Structural, Debug)]
pub struct ExtendedAttributes {
    pub i0: i32,
    pub i1: i32,
    pub i2: i32,
    pub i3: i32,
    pub f0: Fx32,
    pub f1: Fx32,
    pub f2: Fx32,
    pub f3: Fx32,
}

/// The bullet-attribute template. The "set bullet attributes" family of
/// instructions fills it in; firing — turning the template into live
/// bullets — is the game context's job, reached through a host request.
#[derive(Clone, Copy, PartialEq, Eq, Structural, Debug)]
pub struct BulletAttributes {
    /// Launch position, filled in by the context when firing.
    pub pos: Position,
    /// Launch z coordinate.
    pub z: Fx32,
    pub anim: i16,
    pub sprite_index_offset: i16,
    pub bullets_per_shot: i16,
    pub number_of_shots: i16,
    pub speed: Fx32,
    pub speed2: Fx32,
    pub launch_angle: Fx32,
    pub angle: Fx32,
    pub flags: u32,
    /// The raw opcode (67 to 75) that wrote the template, which selects
    /// the engine-side bullet variant.
    pub bullet_type: u16,
    /// Opaque payload of the extended-attributes instruction.
    pub extended_attributes: ExtendedAttributes,
    /// Launch sound index, if any.
    pub sound: Option<u8>,
}

impl BulletAttributes {
    /// The all-zero template a fresh entity starts with.
    pub fn empty() -> (r: BulletAttributes)
        ensures
            r == empty_attributes(),
    {
        BulletAttributes {
            pos: Position { x: Fx32 { bits: 0 }, y: Fx32 { bits: 0 } },
            z: Fx32 { bits: 0 },
            anim: 0,
            sprite_index_offset: 0,
            bullets_per_shot: 0,
            number_of_shots: 0,
            speed: Fx32 { bits: 0 },
            speed2: Fx32 { bits: 0 },
            launch_angle: Fx32 { bits: 0 },
            angle: Fx32 { bits: 0 },
            flags: 0,
            bullet_type: 0,
            extended_attributes: ExtendedAttributes {
                i0: 0,
                i1: 0,
                i2: 0,
                i3: 0,
                f0: Fx32 { bits: 0 },
                f1: Fx32 { bits: 0 },
                f2: Fx32 { bits: 0 },
                f3: Fx32 { bits: 0 },
            },
            sound: None,
        }
    }
}

/// The all-zero bullet-attribute template.
pub open spec fn empty_attributes() -> BulletAttributes {
    BulletAttributes {
        pos: Position { x: Fx32 { bits: 0 }, y: Fx32 { bits: 0 } },
        z: Fx32 { bits: 0 },
        anim: 0,
        sprite_index_offset: 0,
        bullets_per_shot: 0,
        number_of_shots: 0,
        speed: Fx32 { bits: 0 },
        speed2: Fx32 { bits: 0 },
        launch_angle: Fx32 { bits: 0 },
        angle: Fx32 { bits: 0 },
        flags: 0,
        bullet_type: 0,
        extended_attributes: ExtendedAttributes {
            i0: 0,
            i1: 0,
            i2: 0,
            i3: 0,
            f0: Fx32 { bits: 0 },
            f1: Fx32 { bits: 0 },
            f2: Fx32 { bits: 0 },
            f3: Fx32 { bits: 0 },
        },
        sound: None,
    }
}

/// Screen clipping box for the entity's movement.
#[derive(Clone, Copy, PartialEq, Eq, Structural, Debug)]
pub struct ScreenBox {
    pub xmin: Fx32,
    pub ymin: Fx32,
    pub xmax: Fx32,
    pub ymax: Fx32,
}

/// Collision hitbox.
#[derive(Clone, Copy, PartialEq, Eq, Structural, Debug)]
pub struct Hitbox {
    pub width: Fx32,
    pub height: Fx32,
}

/// Movement-dependent sprite set.
#[derive(Clone, Copy, PartialEq, Eq, Structural, Debug)]
pub struct SpriteSet {
    pub end_left: u8,
    pub end_right: u8,
    pub left: u8,
    pub right: u8,
}

/// One enemy entity.
#[derive(Clone, Debug)]
pub struct Enemy {
    pub pos: Position,
    pub z: Fx32,
    pub life: u32,
    /// Elapsed-frame counter.
    pub frame: u32,
    /// The single difficulty bit this run plays at (see [`crate::prog::Rank`]).
    pub rank: u8,
    /// The numeric difficulty the redirection layer exposes read-only.
    pub difficulty: i32,
    /// Set by the destroy instruction; the container collects the entity.
    pub removed: bool,
    /// Movement interpolation mode; the speed and angle setters reset it.
    pub update_mode: u32,
    pub angle: Fx32,
    pub speed: Fx32,
    pub rotation_speed: Fx32,
    pub acceleration: Fx32,
    /// Clipping box, when set.
    pub screen_box: Option<ScreenBox>,
    pub delay_attack: bool,
    pub bullet_attributes: BulletAttributes,
    pub bullet_offset: Offset,
    pub bullet_launch_interval: i32,
    /// Initial phase of the launch timer, set by the randomised interval
    /// instruction.
    pub bullet_launch_timer: u32,
    /// The laser id the next laser instructions address.
    pub current_laser_id: i32,
    /// Ids of this entity's live lasers; the laser objects themselves live
    /// with the game context.
    pub lasers: Vec<i32>,
    /// Current animation script.
    pub anim: u8,
    /// Sprite set keyed on movement, when enabled.
    pub movement_dependant_sprites: Option<SpriteSet>,
    /// Animation scripts attached to the eight auxiliary slots.
    pub aux_anms: Vec<Option<i32>>,
    pub death_anim: i32,
    pub death_flags: u32,
    /// Subroutine run when the entity dies, when registered.
    pub death_callback: Option<i32>,
    pub boss: bool,
    /// Collision hitbox.
    pub hitbox: Hitbox,
    pub collidable: bool,
    pub damageable: bool,
    pub touchable: bool,
    /// Special function registered as a per-tick callback, when any.
    pub special_callback: Option<i32>,
    /// Score bonus state carried for the container.
    pub bonus: i32,
    pub score: u32,
}

/// Mathematical view of an entity: the same record with the two
/// collections abstracted to sequences. The interpreter's step function
/// is stated over this view.
pub ghost struct EnemyV {
    pub pos: Position,
    pub z: Fx32,
    pub life: u32,
    pub frame: u32,
    pub rank: u8,
    pub difficulty: i32,
    pub removed: bool,
    pub update_mode: u32,
    pub angle: Fx32,
    pub speed: Fx32,
    pub rotation_speed: Fx32,
    pub acceleration: Fx32,
    pub screen_box: Option<ScreenBox>,
    pub delay_attack: bool,
    pub bullet_attributes: BulletAttributes,
    pub bullet_offset: Offset,
    pub bullet_launch_interval: i32,
    pub bullet_launch_timer: u32,
    pub current_laser_id: i32,
    pub lasers: Seq<i32>,
    pub anim: u8,
    pub movement_dependant_sprites: Option<SpriteSet>,
    pub aux_anms: Seq<Option<i32>>,
    pub death_anim: i32,
    pub death_flags: u32,
    pub death_callback: Option<i32>,
    pub boss: bool,
    pub hitbox: Hitbox,
    pub collidable: bool,
    pub damageable: bool,
    pub touchable: bool,
    pub special_callback: Option<i32>,
    pub bonus: i32,
    pub score: u32,
}

impl View for Enemy {
    type V = EnemyV;

    open spec fn view(&self) -> EnemyV {
        EnemyV {
            pos: self.pos,
            z: self.z,
            life: self.life,
            frame: self.frame,
            rank: self.rank,
            difficulty: self.difficulty,
            removed: self.removed,
            update_mode: self.update_mode,
            angle: self.angle,
            speed: self.speed,
            rotation_speed: self.rotation_speed,
            acceleration: self.acceleration,
            screen_box: self.screen_box,
            delay_attack: self.delay_attack,
            bullet_attributes: self.bullet_attributes,
            bullet_offset: self.bullet_offset,
            bullet_launch_interval: self.bullet_launch_interval,
            bullet_launch_timer: self.bullet_launch_timer,
            current_laser_id: self.current_laser_id,
            lasers: self.lasers@,
            anim: self.anim,
            movement_dependant_sprites: self.movement_dependant_sprites,
            aux_anms: self.aux_anms@,
            death_anim: self.death_anim,
            death_flags: self.death_flags,
            death_callback: self.death_callback,
            boss: self.boss,
            hitbox: self.hitbox,
            collidable: self.collidable,
            damageable: self.damageable,
            touchable: self.touchable,
            special_callback: self.special_callback,
            bonus: self.bonus,
            score: self.score,
        }
    }
}

/// A well-formed entity keeps all eight auxiliary animation slots.
pub open spec fn enemy_wf(e: EnemyV) -> bool {
    e.aux_anms.len() == 8
}

impl Enemy {
    /// A fresh entity at `pos` with everything else zeroed, as the spawn
    /// instruction and the container create them.
    pub fn new(pos: Position, life: u32, bonus: i32, score: u32, rank: u8, difficulty: i32) -> (r:
        Enemy)
        ensures
            enemy_wf(r@),
            r.pos == pos,
            r.z.bits == 0,
            r.life == life,
            r.bonus == bonus,
            r.score == score,
            r.rank == rank,
            r.difficulty == difficulty,
            r.frame == 0,
            !r.removed,
            r.update_mode == 0,
            r.angle.bits == 0 && r.speed.bits == 0,
            r.rotation_speed.bits == 0 && r.acceleration.bits == 0,
            r.screen_box is None,
            !r.delay_attack,
            r.bullet_attributes == empty_attributes(),
            r.bullet_offset == (Offset { dx: Fx32 { bits: 0 }, dy: Fx32 { bits: 0 } }),
            r.bullet_launch_interval == 0 && r.bullet_launch_timer == 0,
            r.current_laser_id == 0,
            r.lasers@.len() == 0,
            r.anim == 0,
            r.movement_dependant_sprites is None,
            forall|i: int| 0 <= i < 8 ==> r.aux_anms@[i] is None,
            r.death_anim == 0 && r.death_flags == 0,
            r.death_callback is None,
            !r.boss,
            r.hitbox == (Hitbox { width: Fx32 { bits: 0 }, height: Fx32 { bits: 0 } }),
            r.collidable && r.damageable && r.touchable,
            r.special_callback is None,
    {
        let mut aux: Vec<Option<i32>> = Vec::new();
        let mut i: usize = 0;
        while i < 8
            invariant
                aux@.len() == i,
                i <= 8,
                forall|j: int| 0 <= j < i ==> aux@[j] is None,
            decreases 8 - i,
        {
            aux.push(None);
            i = i + 1;
        }
        Enemy {
            pos,
            z: Fx32 { bits: 0 },
            life,
            frame: 0,
            rank,
            difficulty,
            removed: false,
            update_mode: 0,
            angle: Fx32 { bits: 0 },
            speed: Fx32 { bits: 0 },
            rotation_speed: Fx32 { bits: 0 },
            acceleration: Fx32 { bits: 0 },
            screen_box: None,
            delay_attack: false,
            bullet_attributes: BulletAttributes::empty(),
            bullet_offset: Offset { dx: Fx32 { bits: 0 }, dy: Fx32 { bits: 0 } },
            bullet_launch_interval: 0,
            bullet_launch_timer: 0,
            current_laser_id: 0,
            lasers: Vec::new(),
            anim: 0,
            movement_dependant_sprites: None,
            aux_anms: aux,
            death_anim: 0,
            death_flags: 0,
            death_callback: None,
            boss: false,
            hitbox: Hitbox { width: Fx32 { bits: 0 }, height: Fx32 { bits: 0 } },
            collidable: true,
            damageable: true,
            touchable: true,
            special_callback: None,
            bonus,
            score,
        }
    }

    /// Whether a laser with this id is alive on the entity.
    pub fn has_laser(&self, id: i32) -> (r: bool)
        ensures
            r == self.lasers@.contains(id),
    {
        let mut i: usize = 0;
        while i < self.lasers.len()
            invariant
                i <= self.lasers@.len(),
                forall|j: int| 0 <= j < i ==> self.lasers@[j] != id,
            decreases self.lasers@.len() - i,
        {
            if self.lasers[i] == id {
                return true;
            }
            i = i + 1;
        }
        false
    }
}

} // verus!
