//! The sprite shader's attribute and uniform bindings.
//!
//! The shader itself (source text, compilation, reflection) is an external
//! collaborator. The batch engine only needs the locations of the
//! `"position"` attribute and of the `"color"` and `"sprite"` uniforms;
//! whichever of them the active shader lacks makes a draw fail.

use vstd::prelude::*;

verus! {

/// The reflected locations the sprite batch needs from the active shader:
/// absent fields mean the shader does not expose that name.
#[derive(Debug, Copy, Clone, Eq, PartialEq, Structural)]
pub struct ShaderBindings {
    /// Location of the `"position"` vertex attribute.
    pub position_attribute: Option<u32>,
    /// Location of the `"color"` uniform.
    pub color_uniform: Option<u32>,
    /// Location of the `"sprite"` sampler uniform.
    pub sprite_uniform: Option<u32>,
}

impl ShaderBindings {
    /// Bundles the three reflected locations.
    pub fn new(
        position_attribute: Option<u32>,
        color_uniform: Option<u32>,
        sprite_uniform: Option<u32>,
    ) -> (bindings: ShaderBindings)
        ensures
            bindings == (ShaderBindings { position_attribute, color_uniform, sprite_uniform }),
    {
        ShaderBindings { position_attribute, color_uniform, sprite_uniform }
    }

    /// True when every location the sprite batch needs is present.
    pub open spec fn spec_complete(self) -> bool {
        &&& self.position_attribute is Some
        &&& self.color_uniform is Some
        &&& self.sprite_uniform is Some
    }
}

} // verus!
