//! Browser-session automation: the decisions of a login-and-select-tab run,
//! kept apart from the browser that carries them out.
pub mod text;
pub mod options;
pub mod caps;
pub mod flow;
