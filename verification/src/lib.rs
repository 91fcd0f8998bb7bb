//! Process control for a native-code debugger, with the small containers and
//! text utilities that accompany it.
pub mod hangman;
pub mod inferior;
pub mod linked_list;
pub mod rwc;
pub mod sys;
pub mod text;
