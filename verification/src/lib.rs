//! Verified core of the Clay component kit: the shared data client that backs
//! a tree of components, and the values the components are configured with,
//! with the class names they give.

pub mod classes;
pub mod alert;
pub mod badge;
pub mod breadcrumb;
pub mod button;
pub mod card;
pub mod date_picker;
pub mod icon;
pub mod layout;
pub mod link;
pub mod provider;
pub mod shared;
pub mod text;
