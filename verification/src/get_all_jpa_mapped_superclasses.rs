//! Discovers the mapped-superclass files among a set of source files.

use vstd::prelude::*;

use crate::classify::collect_marked_descriptors;
use crate::classify::spec_mapped_superclass_marker;
use crate::classify::spec_marked_complete;
use crate::classify::spec_marked_count;
use crate::classify::spec_marked_sound;
use crate::responses::JpaTypeDescriptor;
use crate::responses::SourceFile;
use crate::text::str_bytes;

verus! {

/// Classifies each file independently and keeps exactly the ones whose
/// single named type declaration carries the mapped-superclass marker: as
/// many descriptors come back as files are marked, every descriptor is
/// read from its own file's parse, and every marked file is listed by its
/// path.
pub fn execute(files: &Vec<SourceFile>) -> (r: Vec<JpaTypeDescriptor>)
    ensures
        r@.len() == spec_marked_count(
            files@,
            spec_mapped_superclass_marker(),
            files@.len() as int,
        ),
        spec_marked_sound(files@, spec_mapped_superclass_marker(), r@),
        spec_marked_complete(files@, spec_mapped_superclass_marker(), files@.len() as int, r@),
{
    let marker = str_bytes("MappedSuperclass");
    collect_marked_descriptors(files, &marker)
}

} // verus!
