//! Version metadata of dynamically loadable native libraries: which shared
//! object and which exported symbols belong to a library name, how the native
//! strings they return become text, and how the selected fields are laid out
//! on one line.

pub mod library;
pub mod output;
pub mod text;
pub mod version;
