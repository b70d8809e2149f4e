pub mod hook;
