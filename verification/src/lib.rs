//! Moderation, case-keeping and music helpers of the Valeriyya Discord bot,
//! with their behaviour stated and proved.

pub mod bot;
pub mod database;
pub mod duration;
pub mod guild;
pub mod info;
pub mod moderation;
pub mod music;
pub mod pattern;
pub mod permissions;
pub mod text;
