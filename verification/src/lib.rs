//! A minimal output-redirection abstraction: application code emits text
//! through a single swappable output channel without knowing which device
//! receives it. A registry holds at most one installed sink together with
//! an always-present no-op fallback; installing a new sink displaces and
//! tears down the previous one, and emission forwards text to whichever
//! sink is currently active.

mod console;
mod sink;

pub use console::ActiveConsole;
pub use console::Console;
pub use console::concat_all;
pub use console::emitted;
pub use console::emitted_all;
pub use console::lemma_displacement_teardown;
pub use console::lemma_emission_order;
pub use console::lemma_fallback_safety;
pub use console::lemma_installation_takes_effect;
pub use console::print;
pub use console::replaced;
pub use sink::BufferConsole;
pub use sink::ConsoleImpl;
pub use sink::DefaultConsole;
