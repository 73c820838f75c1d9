//! The decision logic of the reusable page components.

pub mod loading;
pub mod pagination;
pub mod search;
pub mod sidebar;
