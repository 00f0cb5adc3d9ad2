pub mod actors;
pub mod fill;
pub mod filler_item;
pub mod game;
pub mod ghosts;
pub mod goal;
pub mod hint_color;
pub mod item;
pub mod logic;
pub mod oracle;
pub mod portal;
pub mod rng;
pub mod settings;
pub mod spheres;
pub mod text;
pub mod vane;
pub mod world;
