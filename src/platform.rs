//! Choosing the compute platform by its name.

use crate::error::{ErrorKind, GenError, GenResult};
use vstd::prelude::*;

verus! {

/// A platform whose name could be read and equals `wanted`.
pub open spec fn name_matches(name: Option<String>, wanted: Seq<char>) -> bool {
    name matches Some(s) && s@ == wanted
}

/// The index of the first platform named exactly `wanted`, among the names
/// the platforms reported (`None` where a name could not be read).
pub fn find_platform(names: &Vec<Option<String>>, wanted: &str) -> (r: GenResult<usize>)
    ensures
        r matches Ok(i) ==> i < names@.len() && name_matches(names@[i as int], wanted@) && forall|
            j: int,
        | 0 <= j < i ==> !name_matches(#[trigger] names@[j], wanted@),
        r is Err <==> forall|j: int|
            0 <= j < names@.len() ==> !name_matches(#[trigger] names@[j], wanted@),
        r matches Err(e) ==> e.kind == ErrorKind::PlatformNotFound && e.message@
            == "The requested platform could not be found"@,
{
    let target = wanted.to_owned();
    let mut i: usize = 0;
    while i < names.len()
        invariant
            target@ == wanted@,
            0 <= i <= names@.len(),
            forall|j: int| 0 <= j < i ==> !name_matches(#[trigger] names@[j], wanted@),
        decreases names@.len() - i,
    {
        match &names[i] {
            Some(name) => {
                if name.eq(&target) {
                    return Ok(i);
                }
            },
            None => {},
        }
        i = i + 1;
    }
    Err(
        GenError::with_text(
            ErrorKind::PlatformNotFound,
            "The requested platform could not be found",
        ),
    )
}

} // verus!
