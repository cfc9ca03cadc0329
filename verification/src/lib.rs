pub mod digits;
pub mod pick;
pub mod player;
