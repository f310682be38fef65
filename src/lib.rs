//! Page switching, progress reporting and background-result handles for an
//! immediate-mode user interface.

mod app;
pub mod ext;
pub mod lifecycle;
mod options;
mod page;
pub mod progress;
mod repaint;
mod task;
pub mod utils;
mod view;

pub use app::{Application, Phase};
pub use options::{WindowOptions, DEFAULT_TITLE};
pub use page::{App, Page, Switch, UpdateContext};
pub use repaint::Repainter;
pub use task::{Receive, TaskHandle};
pub use view::{Theme, View};
