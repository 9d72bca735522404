//! Session core of a terminal newsletter dashboard: the tip-source parser,
//! the bounded selection, the navigation state machine, the publish
//! workflow's decisions, and the issue document.

pub mod app;
pub mod config;
pub mod html;
pub mod publish;
pub mod selection;
pub mod session;
pub mod text;
pub mod tips;
pub mod waitlist;

pub use app::{App, Category, Tab};
pub use config::Config;
pub use html::generate_newsletter_html;
pub use text::truncate;
pub use tips::Tip;
pub use waitlist::Stats;
