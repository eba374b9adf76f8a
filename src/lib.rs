//! A rendering core over a graphics device: buffers, textures and programs
//! whose device objects are created and released exactly once, meshes and
//! materials that are matched to a program before a draw, and level-of-detail
//! imposters. Every device call is recorded, in order, in the context's
//! command log, which the embedding application replays on the driver.

pub mod buffer;
pub mod context;
pub mod error;
pub mod headless;
pub mod imposters;
pub mod mesh;
pub mod program;
pub mod shader;
pub mod texture;
pub mod uniform_buffer;

pub use buffer::{ElementBuffer, Indices, VertexBuffer};
pub use context::{Binding, Blending, Command, Context, Cull, DrawCall, IndexWidth, ObjectKind, Viewport};
pub use error::{Error, HeadlessError, MeshAttribute};
pub use headless::{BringUp, Strategy};
pub use imposters::{Imposters, TextureBake, NO_VIEW_ANGLES};
pub use mesh::{CpuMesh, Mesh};
pub use program::{Program, ProgramCache};
pub use texture::{Format, Interpolation, Texture, TextureDesc, Wrapping};
pub use uniform_buffer::UniformBuffer;
