//! Windows 10 styled notification popups for Windows 7: the layout, stacking,
//! hit-testing and expiry rules, verified.

pub mod icon;
pub mod layout;
pub mod notification;
pub mod registry;
pub mod timeout;
pub mod util;
pub mod window;

pub use crate::notification::Notification;
pub use crate::timeout::Timeout;
