use vstd::prelude::*;

verus! {

/// The text of one shader stage and the kind of stage it is (vertex,
/// fragment, ...), as the graphics driver names it. The text holds no NUL
/// character, so it can be handed to the driver as a C string.
pub struct ShaderSource {
    pub source: String,
    pub shader_type: u32,
}

impl ShaderSource {
    /// The shader stage of kind `shader_type` written in `source`.
    pub fn new(source: String, shader_type: u32) -> (shader_source: ShaderSource)
        requires
            !source@.contains('\0'),
        ensures
            shader_source.source@ == source@,
            shader_source.shader_type == shader_type,
    {
        ShaderSource { source, shader_type }
    }
}

/// A linked shader program of the graphics driver, named by `id`.
#[derive(Clone, Copy, PartialEq, Eq, Structural, Debug)]
pub struct Shader {
    pub id: u32,
}

} // verus!
