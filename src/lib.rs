//! GPU rendering objects (shaders, programs, buffers, vertex arrays and
//! uniforms) described as verified plans of driver calls.
//!
//! Every operation records the driver calls it needs in a [`Context`], which
//! also mirrors the context-wide binding registers. A host that owns the real
//! rendering context drains the queued commands and performs them in order,
//! answering the queries of a [`Build`] as they come.

pub mod buffer;
pub mod context;
pub mod layout;
pub mod link;
pub mod program;
pub mod uniform;
pub mod vao;

pub use buffer::{BufferModel, Ibo, Vbo};
pub use context::{Bindings, Command, ComponentType, Context, Stage, Target};
pub use layout::{Attribute, Layout};
pub use link::{Build, Event, ObjectKind, ObjectRef, Request};
pub use program::{CompileError, LinkError, Program, Shader};
pub use uniform::{LookupError, Uniform, NOT_FOUND};
pub use vao::{LayoutError, Vao};
