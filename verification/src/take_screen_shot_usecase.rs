use vstd::prelude::*;
use vstd::string::*;

use crate::errors::ErrorReport;
use crate::gateways::FileSystemGateway;
use crate::gateways::ScreenShotWindowSystemGateway;
use crate::gateways::ScreenShotView;
use crate::results::ResultType;

verus! {

/// The domain-level text raised where no window carries the searched title.
pub open spec fn not_found_text(name: Seq<char>) -> Seq<char> {
    "Unable to find the window with title \""@ + name + "\""@
}

/// What the capture use case yields, over the gateways' modeled outcomes:
/// the find failure, absence of the window, the capture failure, the save
/// failure, or success, in that order, fail-fast.
pub open spec fn screenshot_outcome(
    v: ScreenShotView,
    save: Result<(), Seq<char>>,
    name: Seq<char>,
) -> Result<(), Seq<char>> {
    match v.find_results[name] {
        Err(msg) => Err(msg),
        Ok(None) => Err(not_found_text(name)),
        Ok(Some(w)) => match v.shot_results[w] {
            Err(msg) => Err(msg),
            Ok(_) => match save {
                Err(msg) => Err(msg),
                Ok(_) => Ok(()),
            },
        },
    }
}

/// Whether an executed capture matches the modeled outcome.
pub open spec fn shot_usecase_matches(
    r: Result<ResultType, ErrorReport>,
    o: Result<(), Seq<char>>,
) -> bool {
    match o {
        Ok(_) => r matches Ok(ResultType::TakeScreenShotResult(_)),
        Err(msg) => r matches Err(e) && e@ == msg,
    }
}

fn not_found_message(name: &String) -> (s: String)
    ensures
        s@ == not_found_text(name@),
{
    let mut s = String::from_str("Unable to find the window with title \"");
    s.append(name.as_str());
    s.append("\"");
    proof {
        assert(s@ =~= not_found_text(name@));
    }
    s
}

/// Capture a window located by its exact title and persist the raster: pure
/// sequencing of the locate, capture and save capabilities, zero retries,
/// fail-fast on the first error, each failure propagated unchanged.
pub struct TakeScreenShotUseCase<W: ScreenShotWindowSystemGateway, F: FileSystemGateway> {
    pub window_system_gateway: W,
    pub fs_gateway: F,
}

impl<W: ScreenShotWindowSystemGateway, F: FileSystemGateway> TakeScreenShotUseCase<W, F> {
    pub fn new(window_system_gateway: W, fs_gateway: F) -> (r: TakeScreenShotUseCase<W, F>)
        ensures
            r.window_system_gateway == window_system_gateway,
            r.fs_gateway == fs_gateway,
    {
        TakeScreenShotUseCase { window_system_gateway, fs_gateway }
    }

    /// Locate the window by title, capture it, hand the raster to the
    /// persistence collaborator.
    pub fn take_screenshot(&mut self, searched_window_name: String, output_path: String) -> (r:
        Result<ResultType, ErrorReport>)
        requires
            old(self).window_system_gateway.inv(),
            old(self).fs_gateway.inv(),
        ensures
            final(self).window_system_gateway.inv(),
            final(self).fs_gateway.inv(),
            final(self).window_system_gateway.ss_view()
                == old(self).window_system_gateway.ss_view(),
            final(self).fs_gateway.save_view() == old(self).fs_gateway.save_view(),
            shot_usecase_matches(
                r,
                screenshot_outcome(
                    old(self).window_system_gateway.ss_view(),
                    old(self).fs_gateway.save_view(),
                    searched_window_name@,
                ),
            ),
    {
        let target = match self.window_system_gateway.find_window(&searched_window_name) {
            Ok(Some(w)) => w,
            Ok(None) => {
                return Err(ErrorReport::new(not_found_message(&searched_window_name)));
            },
            Err(e) => {
                return Err(e);
            },
        };
        let image_buffer = match self.window_system_gateway.take_screen_shot(target) {
            Ok(img) => img,
            Err(e) => {
                return Err(e);
            },
        };
        match self.fs_gateway.save_image(image_buffer, &output_path) {
            Ok(_) => Ok(ResultType::TakeScreenShotResult(())),
            Err(e) => Err(e),
        }
    }
}

} // verus!
