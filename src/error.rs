use vstd::prelude::*;

verus! {

/// The per-vertex inputs that a mesh can supply to a program.
#[derive(Clone, Copy, Debug, PartialEq, Eq, Structural)]
pub enum MeshAttribute {
    Position,
    UvCoordinates,
    Normal,
    Tangent,
    Color,
}

/// Failures of the rendering core.
#[derive(Debug)]
pub enum Error {
    /// The device could not create an object (no object name was left, or the
    /// driver refused it); carries a diagnostic.
    DeviceError { message: String },
    /// A uniform buffer region index at or past the number of regions.
    IndexOutOfRange { index: u32, count: usize },
    /// Data for a uniform buffer region whose length differs from the region's.
    SizeMismatch { index: u32, expected: usize, actual: usize },
    /// The program reads a per-vertex input that the mesh never supplied.
    MissingMeshBuffer { attribute: MeshAttribute },
    /// The program requires a named attribute, uniform or texture that the
    /// draw did not bind.
    MissingBinding { name: String },
    /// No program was linked yet for the pair of stages a draw needs.
    ProgramNotLinked,
    /// A fragment shader reads tangents but declares no bitangent input.
    MissingBitangent,
    /// Compiling or linking a shader program failed; carries the driver's log.
    ShaderCompileError { message: String },
}

/// Failures of bringing up a context without a window.
#[derive(Debug)]
pub enum HeadlessError {
    GlNotInitialized,
    /// Every way of bringing up a context failed; one message per way tried,
    /// in the order tried.
    InitFailed { errors: Vec<String> },
}

} // verus!
