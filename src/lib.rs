pub mod codec;
pub mod daile;
pub mod graphics;
pub mod render;
pub mod ui;
pub mod util;
