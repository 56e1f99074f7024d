//! What the engine decides of the graphics drivers.

use vstd::prelude::*;

verus! {

/// The drivers' names as text.
pub open spec fn driver_names(names: Seq<String>) -> Seq<Seq<char>> {
    names.map_values(|name: String| name@)
}

/// Whether `found` is the place of the first of `names` that is `wanted`.
pub open spec fn is_first(names: Seq<Seq<char>>, wanted: Seq<char>, found: Option<u32>) -> bool {
    match found {
        Some(index) => {
            &&& index < names.len()
            &&& names[index as int] == wanted
            &&& forall|earlier: int| 0 <= earlier < index ==> names[earlier] != wanted
        },
        None => forall|index: int| 0 <= index < names.len() && index <= u32::MAX ==> names[index]
            != wanted,
    }
}

/// The index of the first render driver named `opengl` among the drivers
/// with the names `names`, as far as a `u32` counts.
pub fn find_sdl_gl_driver(names: &Vec<String>) -> (found: Option<u32>)
    ensures
        is_first(driver_names(names@), "opengl"@, found),
{
    let wanted = "opengl".to_owned();
    let mut index: usize = 0;
    while index < names.len() && index <= 0xffff_ffff
        invariant
            index <= names@.len(),
            wanted@ == "opengl"@,
            forall|earlier: int| 0 <= earlier < index ==> driver_names(names@)[earlier] != "opengl"@,
        decreases names@.len() - index,
    {
        if names[index] == wanted {
            return Some(index as u32);
        }
        index += 1;
    }
    None
}

} // verus!
