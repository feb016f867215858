//! Range facts about masked and shifted machine words, shared by the MMU and
//! the interpreter.

use vstd::prelude::*;

verus! {

/// Bounds of masked 64-bit values: a value masked to its low bits is no
/// larger than the mask.
pub proof fn lemma_u64_mask_bounds()
    by (bit_vector)
    ensures
        forall|x: u64| #[trigger] (x & 0x3f) < 64,
        forall|x: u64| #[trigger] (x & 0x1f) < 32,
        forall|x: u64| #[trigger] (x & 0xfff) < 4096,
        forall|x: u64| ((#[trigger] (x >> 12)) & 0x1ff) < 512,
        forall|x: u64| ((#[trigger] (x >> 21)) & 0x1ff) < 512,
        forall|x: u64| ((#[trigger] (x >> 30)) & 0x1ff) < 512,
        forall|x: u64| ((#[trigger] (x >> 10)) & 0x0fff_ffff_ffff) <= 0x0fff_ffff_ffff,
        forall|x: u64| #[trigger] (x & 0x0fff_ffff_ffff) <= 0x0fff_ffff_ffff,
        forall|x: u64| ((#[trigger] (x >> 60)) <= 0xf),
{
}

/// Bounds of decoded 32-bit instruction fields: register indices are below
/// 32 and a CSR address is below 4096.
pub proof fn lemma_inst_field_bounds()
    by (bit_vector)
    ensures
        forall|x: u32| ((#[trigger] (x & 0x00000f80)) >> 7) < 32,
        forall|x: u32| ((#[trigger] (x & 0x000f8000)) >> 15) < 32,
        forall|x: u32| ((#[trigger] (x & 0x01f00000)) >> 20) < 32,
        forall|x: u32| ((#[trigger] (x & 0xfff00000)) >> 20) < 4096,
{
}

} // verus!
