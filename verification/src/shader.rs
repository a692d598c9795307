//! Shader compilation and linking: the decision logic of a thin
//! error-checked wrapper over the driver's compiler.
//!
//! The driver calls themselves (create, compile, link, query status, read
//! the info log) happen outside this crate; given their observable results,
//! the functions here decide exactly which value or error the wrapper
//! reports.

use vstd::prelude::*;

verus! {

/// `GL_VERTEX_SHADER`
pub const GL_VERTEX_SHADER: u32 = 0x8B31;
/// `GL_FRAGMENT_SHADER`
pub const GL_FRAGMENT_SHADER: u32 = 0x8B30;

/// The two shader stages this toolkit uses.
#[derive(Clone, Copy, PartialEq, Eq, Structural, Debug)]
pub enum ShaderType {
    Vertex,
    Fragment,
}

impl ShaderType {
    /// The driver's enumerant for this stage.
    pub fn gl_type(&self) -> (r: u32)
        ensures
            *self is Vertex ==> r == GL_VERTEX_SHADER,
            *self is Fragment ==> r == GL_FRAGMENT_SHADER,
    {
        match self {
            ShaderType::Vertex => GL_VERTEX_SHADER,
            ShaderType::Fragment => GL_FRAGMENT_SHADER,
        }
    }
}

/// A compiled shader object: its stage and its driver handle.
pub struct Shader {
    pub ty: ShaderType,
    pub shader_object: u32,
}

/// A linked shader program's driver handle.
pub struct ShaderProgram {
    pub program_object: u32,
}

/// Why compiling a shader failed.
#[derive(Clone, Debug)]
pub enum ShaderCompileError {
    /// The driver returned the null handle from shader creation.
    CouldNotCreate,
    /// Compilation failed; carries the driver's diagnostic log.
    Compile(String),
}

impl ShaderCompileError {
    /// The driver log attached to a compilation failure, if any.
    pub fn driver_log(&self) -> (r: Option<&String>)
        ensures
            match *self {
                ShaderCompileError::Compile(ref log) => r == Some(log),
                ShaderCompileError::CouldNotCreate => r is None,
            },
    {
        match self {
            ShaderCompileError::Compile(log) => Some(log),
            ShaderCompileError::CouldNotCreate => None,
        }
    }
}

/// Why linking a program failed.
#[derive(Clone, Debug)]
pub enum ShaderLinkError {
    /// The pair handed in was not one vertex shader and one fragment shader.
    InvalidShader,
    /// The driver returned the null handle from program creation.
    CouldNotCreate,
    /// Linking failed; carries the driver's diagnostic log.
    Link(String),
}

impl ShaderLinkError {
    /// The driver log attached to a link failure, if any.
    pub fn driver_log(&self) -> (r: Option<&String>)
        ensures
            match *self {
                ShaderLinkError::Link(ref log) => r == Some(log),
                _ => r is None,
            },
    {
        match self {
            ShaderLinkError::Link(log) => Some(log),
            _ => None,
        }
    }
}

impl Shader {
    /// Decide the outcome of one compilation attempt from the driver's
    /// observable results: the handle it created, whether it reported the
    /// compile as successful, and its info log.
    ///
    /// A null handle means creation itself failed; an unsuccessful status
    /// surfaces the log; otherwise the shader object is ready for linking.
    pub fn compile_outcome(ty: ShaderType, shader_object: u32, compile_ok: bool, log: String)
        -> (r: Result<Shader, ShaderCompileError>)
        ensures
            shader_object == 0 ==> r == Err::<Shader, ShaderCompileError>(
                ShaderCompileError::CouldNotCreate,
            ),
            shader_object != 0 && !compile_ok ==> r == Err::<Shader, ShaderCompileError>(
                ShaderCompileError::Compile(log),
            ),
            shader_object != 0 && compile_ok ==> match r {
                Ok(s) => s.ty == ty && s.shader_object == shader_object,
                Err(_) => false,
            },
    {
        if shader_object == 0 {
            Err(ShaderCompileError::CouldNotCreate)
        } else if !compile_ok {
            Err(ShaderCompileError::Compile(log))
        } else {
            Ok(Shader { ty, shader_object })
        }
    }
}

impl ShaderProgram {
    /// Whether a pair of shaders may be linked at all: exactly one vertex
    /// shader first and one fragment shader second.
    pub fn link_check(vertex_shader: &Shader, fragment_shader: &Shader)
        -> (r: Result<(), ShaderLinkError>)
        ensures
            (vertex_shader.ty is Vertex && fragment_shader.ty is Fragment) <==> r is Ok,
            r is Err ==> r == Err::<(), ShaderLinkError>(ShaderLinkError::InvalidShader),
    {
        match (&vertex_shader.ty, &fragment_shader.ty) {
            (ShaderType::Vertex, ShaderType::Fragment) => Ok(()),
            _ => Err(ShaderLinkError::InvalidShader),
        }
    }

    /// Decide the outcome of one link attempt from the driver's observable
    /// results, after `link_check` has accepted the shader pair.
    pub fn link_outcome(program_object: u32, link_ok: bool, log: String)
        -> (r: Result<ShaderProgram, ShaderLinkError>)
        ensures
            program_object == 0 ==> r == Err::<ShaderProgram, ShaderLinkError>(
                ShaderLinkError::CouldNotCreate,
            ),
            program_object != 0 && !link_ok ==> r == Err::<ShaderProgram, ShaderLinkError>(
                ShaderLinkError::Link(log),
            ),
            program_object != 0 && link_ok ==> match r {
                Ok(p) => p.program_object == program_object,
                Err(_) => false,
            },
    {
        if program_object == 0 {
            Err(ShaderLinkError::CouldNotCreate)
        } else if !link_ok {
            Err(ShaderLinkError::Link(log))
        } else {
            Ok(ShaderProgram { program_object })
        }
    }
}

} // verus!
