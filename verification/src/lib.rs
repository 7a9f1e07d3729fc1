pub mod bot;
pub mod calendar;
pub mod calendar_bot;
pub mod entities;
pub mod errors;
pub mod state;
pub mod text;
pub mod time;
pub mod web;
