//! Request construction and retrieval decisions for a music-listening collage tool.
mod text;
pub mod params;
pub mod url;
pub mod stamp;
pub mod naming;
pub mod session;
pub mod request;
