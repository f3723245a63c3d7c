//! Site generation core of a personal homepage: page records and the manifest,
//! file types and their content types, the icon registry with its referential
//! integrity checks, blog listing order, and the static route table served over
//! HTTP. Rendering, file I/O and the HTTP server itself live outside this library.

pub mod text;
pub mod file_type;
pub mod manifest;
pub mod path;
pub mod icon;
pub mod route;
pub mod blog;
pub mod data;
pub mod pages;
pub mod site;
