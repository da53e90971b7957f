pub mod bot;
pub mod db;
pub mod decimal;
pub mod outside;
pub mod spreaker;
pub mod transcript;
