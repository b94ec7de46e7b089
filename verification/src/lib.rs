use vstd::prelude::*;

mod direction;
mod food;
mod grid;
mod render;
mod snake;
mod timer;

pub use direction::desired_direction_spec;
pub use direction::lemma_steer_rejects_only_reversal;
pub use direction::steer;
pub use direction::steer_spec;
pub use direction::Direction;
pub use food::centered_offset;
pub use food::food_spawner;
pub use food::in_centered_bounds;
pub use food::random_food_position;
pub use food::Food;
pub use grid::in_wrap_band;
pub use grid::lemma_step_stays_in_band;
pub use grid::step;
pub use grid::step_spec;
pub use grid::trunc_mod;
pub use grid::Position;
pub use render::lemma_translate_affine;
pub use render::position_translation;
pub use render::scale_spec;
pub use render::size_scaling;
pub use render::translate_spec;
pub use render::Size;
pub use snake::snake_movement;
pub use snake::snake_movement_input;
pub use snake::spawn_snake;
pub use snake::SnakeHead;
pub use timer::spawn_food_timer;
pub use timer::spawn_movement_timer;
pub use timer::FoodSpawnTimer;
pub use timer::MovementTimer;
pub use timer::RepeatingTimer;
pub use timer::FOOD_SPAWN_PERIOD_MICROS;
pub use timer::MOVEMENT_PERIOD_MICROS;

verus! {

/// Width of the logical arena grid, in tiles.
pub const ARENA_WIDTH: u32 = 10;

/// Height of the logical arena grid, in tiles.
pub const ARENA_HEIGHT: u32 = 10;

} // verus!
