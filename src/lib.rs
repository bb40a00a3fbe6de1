pub mod animation;
pub mod input;
pub mod player;
