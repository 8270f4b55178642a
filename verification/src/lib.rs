//! The logic of the C-Shop interface that does not need a window: the user
//! operations as `Action`s and the one place they are applied (`shell::run`),
//! the menus that queue them, the canvas's pointer handling (`canvas`), brush
//! strokes (`strokes`) and typing (`text_edit`), the texts the status bar and
//! dialogs show, and the bookkeeping behind document tabs, layer dragging and
//! thumbnails.

pub mod text;
pub mod units;
pub mod commands;
pub mod profile;
pub mod dialogs;
pub mod jobs;
pub mod icons;
pub mod documents;
pub mod layers;
pub mod thumbs;
pub mod status;
pub mod clipboard;
pub mod filters;
pub mod input;
pub mod menus;
pub mod order;
pub mod listing;
pub mod masks;
pub mod brush;
pub mod shell;
pub mod menu_bar;
pub mod canvas;
pub mod strokes;
pub mod text_edit;

pub use units::format_bytes;
