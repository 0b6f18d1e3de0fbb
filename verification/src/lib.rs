//! Moderation records of a chat-community bot: punishment histories per
//! community and user, the decisions of the actor that owns them, and the
//! bookkeeping of the timers that lift temporary punishments.

pub mod actor;
pub mod actor_laws;
pub mod commands;
pub mod decimal;
pub mod duration;
pub mod options;
pub mod punishment;
pub mod record;
pub mod record_laws;
pub mod request;
pub mod routing;
pub mod timestamp;
