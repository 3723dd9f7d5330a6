//! Projection of byte ranges from the coordinate space of the extracted
//! text onto absolute byte positions in the original source.

use vstd::prelude::*;

use crate::outcome::ViolationModel;

verus! {

/// Whether a finding's relative range survives projection: the range must
/// be non-inverted, must lie inside the extracted text, and the projected
/// end must still fit a source position. Anything else is dropped, since
/// the external linter's offsets are not trusted.
pub open spec fn kept(content_start: u32, text_len: nat, v: ViolationModel) -> bool {
    &&& v.start <= v.end
    &&& v.end <= text_len
    &&& content_start + v.end <= u32::MAX
}

/// Projects a half-open byte range relative to the extracted text onto the
/// absolute source range starting at `content_start`. Returns `None`
/// exactly for ranges that must be dropped.
pub fn project_range(content_start: u32, text_len: usize, rel_start: usize, rel_end: usize) -> (r:
    Option<(u32, u32)>)
    ensures
        match r {
            Some(abs) => {
                &&& rel_start <= rel_end
                &&& rel_end <= text_len
                &&& content_start + rel_end <= u32::MAX
                &&& abs.0 == content_start + rel_start
                &&& abs.1 == content_start + rel_end
            },
            None => !(rel_start <= rel_end && rel_end <= text_len && content_start + rel_end
                <= u32::MAX),
        },
{
    if rel_start > rel_end || rel_end > text_len {
        return None;
    }
    let headroom: usize = (u32::MAX - content_start) as usize;
    if rel_end > headroom {
        return None;
    }
    Some((content_start + rel_start as u32, content_start + rel_end as u32))
}

} // verus!
