//! Request construction for the NetEase Cloud Music web API.

pub mod text;
pub mod query;
pub mod user_agent;
pub mod request;
pub mod crypto;
pub mod params;
pub mod calls;
pub mod album;
pub mod account;
pub mod comment;
pub mod dj;
pub mod social;
pub mod playlist;
pub mod music;
pub mod json;
pub mod user;
pub mod video;
pub mod laws;
pub mod endpoint_laws;
