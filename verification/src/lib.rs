pub mod common_traits;
pub mod console;
pub mod coords;
pub mod graph;
pub mod input;
pub mod node;
pub mod text_scroller;
pub mod wire;
