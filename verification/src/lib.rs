//! Picks a random image out of a directory listing and renders the HTML
//! fragment that embeds it.
//!
//! The library works on plain values: a [`Listing`] describes what a directory
//! read produced, a [`Config`] carries host, port and directory, and the
//! handler turns both into an [`HtmlResponse`]. Reading the directory and
//! serving HTTP are left to the caller.

pub mod decimal;
pub mod listing;
pub mod image;
pub mod config;
pub mod handler;

pub use config::Config;
pub use handler::{image_url, random_image, render, static_serve_error, HtmlResponse};
pub use image::{regular_files, Image, NotFoundError};
pub use listing::{Item, Listing};
