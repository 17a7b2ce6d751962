pub mod boot;
pub mod duration;
pub mod pacman;
pub mod random;
pub mod sentences;
pub mod statline;
pub mod text;
