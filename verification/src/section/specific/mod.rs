pub mod binaries;
pub mod buildoptions;
pub mod defines;
pub mod depex;
pub mod libraryclasses;
pub mod patchpcd;
pub mod sources;
