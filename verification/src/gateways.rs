use vstd::prelude::*;

use crate::capture::RasterImage;
use crate::capture::RasterModel;
use crate::errors::ErrorReport;
use crate::results::ResultType;
use crate::walker::text_views;

verus! {

/// What the find and capture calls of a window-system gateway yield, as
/// mathematical values: for each search string the handle of the first match,
/// absence, or a failure text; for each capturable handle a raster or a
/// failure text.
pub ghost struct ScreenShotView {
    pub find_results: Map<Seq<char>, Result<Option<u64>, Seq<char>>>,
    pub shot_results: Map<u64, Result<RasterModel, Seq<char>>>,
}

/// Whether an executable find reply matches the modeled outcome.
pub open spec fn outcome_matches_find(
    r: Result<Option<u64>, ErrorReport>,
    o: Result<Option<u64>, Seq<char>>,
) -> bool {
    match o {
        Ok(opt) => r matches Ok(x) && x == opt,
        Err(msg) => r matches Err(e) && e@ == msg,
    }
}

/// Whether an executable capture reply matches the modeled outcome.
pub open spec fn outcome_matches_shot(
    r: Result<RasterImage, ErrorReport>,
    o: Result<RasterModel, Seq<char>>,
) -> bool {
    match o {
        Ok(m) => r matches Ok(img) && img@ == m,
        Err(msg) => r matches Err(e) && e@ == msg,
    }
}

/// Whether an executable enumeration reply matches the modeled outcome.
pub open spec fn outcome_matches_list(
    r: Result<Vec<String>, ErrorReport>,
    o: Result<Seq<Seq<char>>, Seq<char>>,
) -> bool {
    match o {
        Ok(titles) => r matches Ok(v) && text_views(v@) == titles,
        Err(msg) => r matches Err(e) && e@ == msg,
    }
}

/// Whether an executable save reply matches the modeled outcome.
pub open spec fn outcome_matches_save(
    r: Result<(), ErrorReport>,
    o: Result<(), Seq<char>>,
) -> bool {
    match o {
        Ok(_) => r is Ok,
        Err(msg) => r matches Err(e) && e@ == msg,
    }
}

/// The window-system capability the screenshot use case needs: locating a
/// window by exact title and capturing its pixels.
pub trait ScreenShotWindowSystemGateway: Sized {
    open spec fn inv(&self) -> bool {
        vstd::pervasive::arbitrary()
    }

    open spec fn ss_view(&self) -> ScreenShotView {
        vstd::pervasive::arbitrary()
    }

    /// The first window, in pre-order, whose resolved title equals the
    /// search string exactly; absence where none matches.
    fn find_window(&mut self, searched_window_name: &String) -> (r: Result<
        Option<u64>,
        ErrorReport,
    >)
        requires
            old(self).inv(),
        ensures
            final(self).inv(),
            final(self).ss_view() == old(self).ss_view(),
            old(self).ss_view().find_results.dom().contains(searched_window_name@),
            outcome_matches_find(r, old(self).ss_view().find_results[searched_window_name@]),
            r matches Ok(Some(w)) ==> old(self).ss_view().shot_results.dom().contains(w),
    ;

    /// A portable RGB raster of the window's current contents.
    fn take_screen_shot(&mut self, window_id: u64) -> (r: Result<RasterImage, ErrorReport>)
        requires
            old(self).inv(),
            old(self).ss_view().shot_results.dom().contains(window_id),
        ensures
            final(self).inv(),
            final(self).ss_view() == old(self).ss_view(),
            outcome_matches_shot(r, old(self).ss_view().shot_results[window_id]),
    ;
}

/// The window-system capability the enumeration use case needs.
pub trait ListWindowsWindowSystemGateway: Sized {
    open spec fn inv(&self) -> bool {
        vstd::pervasive::arbitrary()
    }

    open spec fn list_view(&self) -> Result<Seq<Seq<char>>, Seq<char>> {
        vstd::pervasive::arbitrary()
    }

    /// The titles of all titled windows, in traversal order.
    fn list_windows(&mut self) -> (r: Result<Vec<String>, ErrorReport>)
        requires
            old(self).inv(),
        ensures
            final(self).inv(),
            final(self).list_view() == old(self).list_view(),
            outcome_matches_list(r, old(self).list_view()),
    ;
}

/// The persistence capability: saving a raster at a destination path.
pub trait FileSystemGateway: Sized {
    open spec fn inv(&self) -> bool {
        vstd::pervasive::arbitrary()
    }

    open spec fn save_view(&self) -> Result<(), Seq<char>> {
        vstd::pervasive::arbitrary()
    }

    /// Persist the raster at the destination path.
    fn save_image(&mut self, image_buffer: RasterImage, path: &String) -> (r: Result<
        (),
        ErrorReport,
    >)
        requires
            old(self).inv(),
        ensures
            final(self).inv(),
            final(self).save_view() == old(self).save_view(),
            outcome_matches_save(r, old(self).save_view()),
    ;
}

/// The presentation capability: rendering a result or a failure text.
pub trait PresenterGateway: Sized {
    open spec fn inv(&self) -> bool {
        vstd::pervasive::arbitrary()
    }

    /// Whether presentations on this gateway succeed.
    open spec fn presents_ok(&self) -> bool {
        vstd::pervasive::arbitrary()
    }

    fn present_error(&self, cause: String) -> (r: Result<(), ErrorReport>)
        requires
            self.inv(),
        ensures
            r is Ok <==> self.presents_ok(),
    ;

    fn present_result(&self, result: &ResultType) -> (r: Result<(), ErrorReport>)
        requires
            self.inv(),
        ensures
            r is Ok <==> self.presents_ok(),
    ;
}

} // verus!
