//! A dual-pane directory browser core: two independently rooted directory
//! listings, a focus selector, and a transfer engine that copies the selected
//! item of one pane into a destination resolved from the other pane's state.
//!
//! The crate holds the navigation and transfer logic only; reading
//! directories, invoking the copy engine and drawing the screen are left to
//! the surrounding program, which hands listings and copy outcomes in as
//! plain values.

pub mod controller;
pub mod focus;
pub mod listing;
pub mod path;
pub mod status;
pub mod transfer;

pub use controller::App;
pub use controller::AppState;
pub use controller::Command;
pub use controller::CommandAction;
pub use controller::Config;
pub use focus::Focus;
pub use listing::FileItem;
pub use listing::FileList;
pub use path::DirPath;
pub use status::StatusMessage;
pub use transfer::TransferOutcome;
pub use transfer::TransferRequest;
