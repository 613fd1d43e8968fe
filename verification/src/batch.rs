//! The batch loader's bookkeeping: where each application's image lies and
//! which one runs next.

use vstd::prelude::*;
use crate::config::MAX_APP_NUM;

verus! {

/// Where an application's image lies: `len` bytes from address `start`.
#[derive(Clone, Copy, Debug, PartialEq, Eq, Structural)]
pub struct AppImage {
    pub start: usize,
    pub len: usize,
}

/// The loader's state, as plain values.
pub struct AppManagerView {
    pub num_app: usize,
    pub current_app: usize,
    /// Start of each image, and after the last the end of the last image.
    pub app_start: Seq<usize>,
}

impl AppManagerView {
    /// At most `MAX_APP_NUM` applications, and a table entry for each and
    /// one past the last.
    pub open spec fn wf(self) -> bool {
        &&& self.num_app <= MAX_APP_NUM
        &&& self.app_start.len() == MAX_APP_NUM + 1
    }

    /// Whether the image of application `app_id`, if there is one, does not
    /// end before it starts.
    pub open spec fn image_ordered(self, app_id: int) -> bool {
        0 <= app_id < self.num_app ==> self.app_start[app_id] <= self.app_start[app_id + 1]
    }

    /// The image of application `app_id`, or `None` past the last one.
    pub open spec fn image(self, app_id: int) -> Option<AppImage> {
        if 0 <= app_id < self.num_app {
            Some(
                AppImage {
                    start: self.app_start[app_id],
                    len: (self.app_start[app_id + 1] - self.app_start[app_id]) as usize,
                },
            )
        } else {
            None
        }
    }
}

/// The batch loader: the applications' images and the next one to run.
pub struct AppManager {
    num_app: usize,
    current_app: usize,
    app_start: [usize; 17],
}

impl View for AppManager {
    type V = AppManagerView;

    closed spec fn view(&self) -> AppManagerView {
        AppManagerView { num_app: self.num_app, current_app: self.current_app, app_start: self.app_start@ }
    }
}

impl AppManager {
    /// A loader for `num_app` applications whose images start at
    /// `app_start_raw[0..num_app]` and end where the next one starts, the
    /// last at `app_start_raw[num_app]`; the first application runs first.
    pub fn new(num_app: usize, app_start_raw: &[usize]) -> (r: Self)
        requires
            num_app <= MAX_APP_NUM,
            app_start_raw@.len() == num_app + 1,
        ensures
            r@.wf(),
            r@.num_app == num_app,
            r@.current_app == 0,
            r@.app_start.subrange(0, num_app + 1) == app_start_raw@,
            forall|i: int| num_app < i <= MAX_APP_NUM ==> #[trigger] r@.app_start[i] == 0,
    {
        let mut app_start: [usize; 17] = [0, 0, 0, 0, 0, 0, 0, 0, 0, 0, 0, 0, 0, 0, 0, 0, 0];
        let mut i: usize = 0;
        while i <= num_app
            invariant
                num_app <= MAX_APP_NUM,
                app_start_raw@.len() == num_app + 1,
                i <= num_app + 1,
                forall|k: int| 0 <= k < i ==> #[trigger] app_start@[k] == app_start_raw@[k],
                forall|k: int| i <= k <= MAX_APP_NUM ==> #[trigger] app_start@[k] == 0,
            decreases num_app + 1 - i,
        {
            app_start[i] = app_start_raw[i];
            i += 1;
        }
        let r = AppManager { num_app, current_app: 0, app_start };
        assert(r@.app_start.subrange(0, num_app + 1) =~= app_start_raw@);
        r
    }

    /// The index of the application that runs next.
    pub fn get_current_app(&self) -> (r: usize)
        ensures
            r == self@.current_app,
    {
        self.current_app
    }

    /// Moves on to the following application.
    pub fn move_to_next_app(&mut self)
        requires
            old(self)@.current_app < usize::MAX,
        ensures
            final(self)@ == (AppManagerView { current_app: (old(self)@.current_app + 1) as usize, ..old(self)@ }),
    {
        self.current_app += 1;
    }

    /// The image to copy to the load address for application `app_id`, or
    /// `None` when every application has been loaded. An image that ends
    /// before it starts stops the kernel, so it is left out here.
    pub fn load_app(&self, app_id: usize) -> (r: Option<AppImage>)
        requires
            self@.wf(),
            self@.image_ordered(app_id as int),
        ensures
            r == self@.image(app_id as int),
    {
        if app_id >= self.num_app {
            None
        } else {
            let start = self.app_start[app_id];
            let end = self.app_start[app_id + 1];
            Some(AppImage { start, len: end - start })
        }
    }
}

/// The image of the application to run next, moving on past it; `None`
/// when every application has run, and then nothing changes.
pub fn run_next_app(manager: &mut AppManager) -> (r: Option<AppImage>)
    requires
        old(manager)@.wf(),
        old(manager)@.image_ordered(old(manager)@.current_app as int),
    ensures
        r == old(manager)@.image(old(manager)@.current_app as int),
        final(manager)@ == (if r is Some {
            AppManagerView { current_app: (old(manager)@.current_app + 1) as usize, ..old(manager)@ }
        } else {
            old(manager)@
        }),
        final(manager)@.wf(),
{
    let current_app = manager.get_current_app();
    let image = manager.load_app(current_app);
    if image.is_some() {
        manager.move_to_next_app();
    }
    image
}

/// Application `i` has an image exactly when `i < num_app`; the image
/// starts at the table's entry `i` and ends exactly at entry `i + 1`, where
/// the next application's image starts.
pub proof fn images_follow_the_table(s: AppManagerView, i: int)
    requires
        s.wf(),
    ensures
        (s.image(i) is Some) <==> 0 <= i < s.num_app,
        s.image_ordered(i) && s.image(i) is Some ==> s.image(i).unwrap().start == s.app_start[i]
            && s.image(i).unwrap().start + s.image(i).unwrap().len == s.app_start[i + 1],
        0 <= i && s.image_ordered(i) && s.image(i + 1) is Some ==> s.image(
            i,
        ).unwrap().start + s.image(i).unwrap().len == s.image(i + 1).unwrap().start,
{
}

} // verus!
