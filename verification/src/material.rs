//! The texture-set decision used when loading material descriptions.
//!
//! Material descriptions themselves carry floating-point color factors
//! and device texture handles, so they live with the renderer; the one
//! decision worth pinning down is how a texture reference maps to the
//! texture-coordinate set index handed to the shader.

use vstd::prelude::*;

verus! {

/// The texture-coordinate set index for a texture reference: the
/// reference's own set when one is present, `-1` (meaning "no texture")
/// when absent. A set index beyond the signed range wraps, exactly as the
/// narrowing conversion does.
pub fn get_texture_set(tex_coord: Option<u32>) -> (r: i32)
    ensures
        r == (match tex_coord {
            Some(t) => t as i32,
            None => -1i32,
        }),
{
    match tex_coord {
        Some(t) => #[verifier::truncate] (t as i32),
        None => -1,
    }
}

} // verus!
