//! Building blocks of a shell prompt: the state of the shell and of the Git
//! repository around it, the widgets that turn that state into text, and the
//! renderer that lays the widgets out.
pub mod background;
pub mod context;
pub mod formatting;
pub mod git;
pub mod number;
pub mod path;
pub mod renderer;
pub mod shell;
pub mod text;
pub mod widgets;

pub use context::Context;
pub use renderer::render_prompt;
pub use shell::Shell;
pub use widgets::default_widgets;
