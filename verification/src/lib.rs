//! Compiles a declarative isolation profile into an invocation of a
//! namespace-sandboxing launcher and supervises the optional bus-filtering
//! proxy that accompanies it.
//!
//! The library decides and never acts: it reads no file, starts no process
//! and consults no environment. A caller hands it a profile, a snapshot of
//! the ambient environment and a command, and gets back the arguments and
//! environment to start the launcher with. For a run with a bus proxy the
//! caller then feeds the supervision state machine the events it observes
//! and performs the actions it is asked for.
//!
//! - [`profile`]: the profile model.
//! - [`ambient`]: the snapshot of the ambient environment.
//! - [`display`]: what sharing a Wayland or X11 display adds.
//! - [`sections`]: the sections of an invocation and their tokens.
//! - [`variables`]: environment variables as an ordered mapping.
//! - [`proxy`]: the command line and the paths of the bus proxy.
//! - [`compiler`]: the compiler itself.
//! - [`guarantees`]: what holds of every compiled invocation.
//! - [`supervisor`]: the supervision state machine.
//! - [`protocol`]: what holds of every run of the state machine.
//! - [`error`]: failures, outcomes and exit codes.
//! - [`cli`]: the command line of the supervisor.
//! - [`text`]: decimal numerals and concatenation.

pub mod ambient;
pub mod cli;
pub mod compiler;
pub mod display;
pub mod error;
pub mod guarantees;
pub mod profile;
pub mod protocol;
pub mod proxy;
pub mod sections;
pub mod supervisor;
pub mod text;
pub mod variables;

pub use ambient::{Ambient, AmbientVar};
pub use compiler::{compile, Invocation, LaunchPlan};
pub use error::{LaunchError, Outcome};
pub use profile::{default_false, BindConfig, Config, DBusProxyConfig};
pub use supervisor::{Action, Event, ProxyStatus, Supervisor};
