pub mod catalogue;
pub mod cyber_grid;
pub mod gravitational_nebula;
pub mod mobile_filaments;
pub mod mobile_nebula;
pub mod mobile_pulsar;
pub mod quantum_core;
pub mod registry;

pub use registry::{EffectRegistry, RegistryView};

use vstd::prelude::*;

verus! {

/// The common vertex shader for full-screen quad rendering in WebGL2 (GLSL 300 es)
pub const COMMON_VERTEX_SHADER: &'static str = r#"#version 300 es
in vec2 a_position;
out vec2 v_uv;

void main() {
    v_uv = (a_position + 1.0) * 0.5;
    gl_Position = vec4(a_position, 0.0, 1.0);
}
"#;

/// A shader preset: its display name, its description and its GLSL sources.
///
/// Each text is pinned by a spec function of the implementing type, so that a
/// caller knows exactly which text a call hands back.
pub trait ShaderEffect {
    /// The display name, as a sequence of characters.
    spec fn spec_name(&self) -> Seq<char>;

    /// The one-line description, as a sequence of characters.
    spec fn spec_description(&self) -> Seq<char>;

    /// The GLSL source of the fragment shader.
    spec fn spec_fragment_source(&self) -> Seq<char>;

    /// The GLSL source of the vertex shader; unless a type says otherwise, the
    /// full-screen quad shader.
    open spec fn spec_vertex_source(&self) -> Seq<char> {
        COMMON_VERTEX_SHADER@
    }

    fn name(&self) -> (r: &'static str)
        ensures
            r@ == self.spec_name(),
    ;

    fn description(&self) -> (r: &'static str)
        ensures
            r@ == self.spec_description(),
    ;

    /// The vertex shader; the presets share the full-screen quad shader.
    fn vertex_source(&self) -> (r: &'static str)
        ensures
            r@ == self.spec_vertex_source(),
    ;

    fn fragment_source(&self) -> (r: &'static str)
        ensures
            r@ == self.spec_fragment_source(),
    ;
}

impl<T: ShaderEffect + ?Sized> ShaderEffect for Box<T> {
    open spec fn spec_name(&self) -> Seq<char> {
        (**self).spec_name()
    }

    open spec fn spec_description(&self) -> Seq<char> {
        (**self).spec_description()
    }

    open spec fn spec_fragment_source(&self) -> Seq<char> {
        (**self).spec_fragment_source()
    }

    open spec fn spec_vertex_source(&self) -> Seq<char> {
        (**self).spec_vertex_source()
    }

    fn name(&self) -> (r: &'static str) {
        (**self).name()
    }

    fn description(&self) -> (r: &'static str) {
        (**self).description()
    }

    fn vertex_source(&self) -> (r: &'static str) {
        (**self).vertex_source()
    }

    fn fragment_source(&self) -> (r: &'static str) {
        (**self).fragment_source()
    }
}

} // verus!
