//! Startup decisions of a desktop application that runs on an outside
//! application framework: which capability plugins it registers, in what
//! order the builder is assembled, what the setup hook does, and how the
//! process ends once the framework's run loop has returned.

pub mod bootstrap;
pub mod hook;
pub mod lifecycle;
pub mod model;
pub mod plan;
pub mod plugin;
