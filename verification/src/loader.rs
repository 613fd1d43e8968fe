//! Where the applications linked into the kernel lie.

use vstd::prelude::*;
use crate::batch::AppImage;

verus! {

/// The image of application `app_id`, given the table `app_start` that the
/// kernel's image holds after the number of applications: the start of each
/// image, and after the last the end of the last image.
pub fn get_app_data(app_start: &[usize], app_id: usize) -> (r: AppImage)
    requires
        app_id + 1 < app_start@.len(),
        app_start@[app_id as int] <= app_start@[app_id + 1],
    ensures
        r.start == app_start@[app_id as int],
        r.len == app_start@[app_id + 1] - app_start@[app_id as int],
{
    let start = app_start[app_id];
    let end = app_start[app_id + 1];
    AppImage { start, len: end - start }
}

} // verus!
