//! The full-screen geometry that every post-processing pass draws: two
//! triangles over the unit square, made from the vertex index alone.
use vstd::prelude::*;

verus! {

/// Number of vertices to draw: two triangles, with no vertex data.
pub const VERTEX_COUNT: usize = 6;

/// The vertex stage shared by every post-processing pass.
pub const VS: &'static str = r#"
out vec2 v_pos;

const vec2[6] POS = vec2[](
  vec2(0.0, 1.0),
  vec2(0.0, 0.0),
  vec2(1.0, 1.0),
  vec2(0.0, 0.0),
  vec2(1.0, 1.0),
  vec2(1.0, 0.0)
);

void main() {
  vec2 pos = POS[gl_VertexID];
  gl_Position = vec4((pos * 2.0) - vec2(1.0), 0.0, 1.0);
  v_pos = pos;
}
"#;

} // verus!
