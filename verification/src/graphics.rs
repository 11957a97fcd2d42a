//! Recognising software OpenGL renderers by the name that the driver reports.
use vstd::prelude::*;

use crate::text::{ascii_lower_seq, ascii_lowercase_chars, chars_of, seq_contains, seq_find};

verus! {

/// The renderer-name fragments of known software rasterisers.
pub open spec fn software_markers() -> Seq<Seq<char>> {
    seq!["llvmpipe"@, "softpipe"@, "swrast"@, "software rasterizer"@, "swiftshader"@]
}

/// The fragments that the capability probe reports as a software renderer.
pub open spec fn probe_software_markers() -> Seq<Seq<char>> {
    seq!["llvmpipe"@, "software"@, "swiftshader"@, "softpipe"@]
}

/// Some marker occurs in the ASCII lower-cased name.
pub open spec fn names_any(name: Seq<char>, markers: Seq<Seq<char>>) -> bool {
    exists|i: int| 0 <= i < markers.len() && seq_contains(ascii_lower_seq(name), #[trigger] markers[i])
}

/// Whether some marker of `markers` occurs in the lower-cased name.
fn contains_any(lower: &Vec<char>, markers: &[&str]) -> (r: bool)
    ensures
        r == exists|i: int| 0 <= i < markers@.len() && seq_contains(lower@, #[trigger] markers@[i]@),
{
    let mut i: usize = 0;
    while i < markers.len()
        invariant
            i <= markers@.len(),
            forall|k: int| 0 <= k < i ==> !seq_contains(lower@, #[trigger] markers@[k]@),
        decreases markers@.len() - i,
    {
        let m = chars_of(markers[i]);
        if seq_find(lower, &m) {
            return true;
        }
        i = i + 1;
    }
    false
}

/// Whether the renderer named `name` is a software rasteriser.
pub fn is_software_renderer(name: &str) -> (r: bool)
    ensures
        r == names_any(name@, software_markers()),
{
    let lower = ascii_lowercase_chars(name);
    let markers: [&str; 5] = ["llvmpipe", "softpipe", "swrast", "software rasterizer", "swiftshader"];
    let r = contains_any(&lower, &markers);
    assert(markers@.map_values(|m: &str| m@) =~= software_markers());
    assert(r == names_any(name@, software_markers())) by {
        if r {
            let i = choose|i: int| 0 <= i < markers@.len() && seq_contains(lower@, #[trigger] markers@[i]@);
            assert(software_markers()[i] == markers@[i]@);
        }
        if names_any(name@, software_markers()) {
            let i = choose|i: int| 0 <= i < software_markers().len() && seq_contains(ascii_lower_seq(name@), #[trigger] software_markers()[i]);
            assert(software_markers()[i] == markers@[i]@);
        }
    }
    r
}

/// Whether the capability probe reports the renderer named `name` as software.
pub fn probe_reports_software(name: &str) -> (r: bool)
    ensures
        r == names_any(name@, probe_software_markers()),
{
    let lower = ascii_lowercase_chars(name);
    let markers: [&str; 4] = ["llvmpipe", "software", "swiftshader", "softpipe"];
    let r = contains_any(&lower, &markers);
    assert(markers@.map_values(|m: &str| m@) =~= probe_software_markers());
    assert(r == names_any(name@, probe_software_markers())) by {
        if r {
            let i = choose|i: int| 0 <= i < markers@.len() && seq_contains(lower@, #[trigger] markers@[i]@);
            assert(probe_software_markers()[i] == markers@[i]@);
        }
        if names_any(name@, probe_software_markers()) {
            let i = choose|i: int| 0 <= i < probe_software_markers().len() && seq_contains(ascii_lower_seq(name@), #[trigger] probe_software_markers()[i]);
            assert(probe_software_markers()[i] == markers@[i]@);
        }
    }
    r
}

} // verus!
