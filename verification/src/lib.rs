//! Diagnostics for code generators: collect location-tagged errors during one
//! generation pass, abort the pass cleanly, and render everything collected as
//! `compile_error!` invocations followed by an optional stand-in fragment.

pub mod context;
pub mod diagnostic;
pub mod dummy;
pub mod entry;
pub mod ext;
pub mod laws;
pub mod recover;
pub mod render;
pub mod settings;
pub mod span;
pub mod text;
pub mod tokens;

pub use crate::context::{abort_if_dirty, Backend, Context, Signal};
pub use crate::diagnostic::{Diagnostic, Level};
pub use crate::dummy::{append_dummy, set_dummy};
pub use crate::entry::{entry_point, Outcome};
pub use crate::ext::{OptionExt, ResultExt};
