use vstd::prelude::*;

use crate::capture::RasterImage;
use crate::capture::RasterModel;
use crate::errors::ErrorReport;
use crate::gateways::ListWindowsWindowSystemGateway;
use crate::gateways::ScreenShotWindowSystemGateway;
use crate::gateways::ScreenShotView;
use crate::walker::text_views;

verus! {

/// A window-system test double: each gateway call answers with a configured
/// result, ignoring its arguments. Fresh doubles fail every call.
pub struct FakeWindowSystemAdapter {
    find_window_result: Result<Option<u64>, ErrorReport>,
    take_screen_shot_result: Result<RasterImage, ErrorReport>,
    list_windows_result: Result<Vec<String>, ErrorReport>,
}

impl FakeWindowSystemAdapter {
    /// The configured find outcome, as a mathematical value.
    pub closed spec fn spec_find_result(&self) -> Result<Option<u64>, Seq<char>> {
        match self.find_window_result {
            Ok(o) => Ok(o),
            Err(e) => Err(e@),
        }
    }

    /// The configured capture outcome, as a mathematical value.
    pub closed spec fn spec_shot_result(&self) -> Result<RasterModel, Seq<char>> {
        match self.take_screen_shot_result {
            Ok(img) => Ok(img@),
            Err(e) => Err(e@),
        }
    }

    /// The configured enumeration outcome, as a mathematical value.
    pub closed spec fn spec_list_result(&self) -> Result<Seq<Seq<char>>, Seq<char>> {
        match self.list_windows_result {
            Ok(v) => Ok(text_views(v@)),
            Err(e) => Err(e@),
        }
    }

    pub fn new() -> (r: FakeWindowSystemAdapter)
        ensures
            r.spec_find_result() == Err::<Option<u64>, Seq<char>>("Unable to list windows."@),
            r.spec_shot_result() == Err::<RasterModel, Seq<char>>("Unable to take screenshot."@),
            r.spec_list_result() == Err::<Seq<Seq<char>>, Seq<char>>("Unable to list windows."@),
    {
        FakeWindowSystemAdapter {
            find_window_result: Err(ErrorReport::from_text("Unable to list windows.")),
            take_screen_shot_result: Err(ErrorReport::from_text("Unable to take screenshot.")),
            list_windows_result: Err(ErrorReport::from_text("Unable to list windows.")),
        }
    }

    pub fn with_find_window_result(self, result: Result<Option<u64>, ErrorReport>) -> (r:
        FakeWindowSystemAdapter)
        ensures
            r.spec_find_result() == (match result {
                Ok(o) => Ok::<Option<u64>, Seq<char>>(o),
                Err(e) => Err::<Option<u64>, Seq<char>>(e@),
            }),
            r.spec_shot_result() == self.spec_shot_result(),
            r.spec_list_result() == self.spec_list_result(),
    {
        FakeWindowSystemAdapter { find_window_result: result, ..self }
    }

    pub fn with_take_screen_shot_result(self, result: Result<RasterImage, ErrorReport>) -> (r:
        FakeWindowSystemAdapter)
        ensures
            r.spec_shot_result() == (match result {
                Ok(img) => Ok::<RasterModel, Seq<char>>(img@),
                Err(e) => Err::<RasterModel, Seq<char>>(e@),
            }),
            r.spec_find_result() == self.spec_find_result(),
            r.spec_list_result() == self.spec_list_result(),
    {
        FakeWindowSystemAdapter { take_screen_shot_result: result, ..self }
    }

    pub fn with_list_windows_result(self, result: Result<Vec<String>, ErrorReport>) -> (r:
        FakeWindowSystemAdapter)
        ensures
            r.spec_list_result() == (match result {
                Ok(v) => Ok::<Seq<Seq<char>>, Seq<char>>(text_views(v@)),
                Err(e) => Err::<Seq<Seq<char>>, Seq<char>>(e@),
            }),
            r.spec_find_result() == self.spec_find_result(),
            r.spec_shot_result() == self.spec_shot_result(),
    {
        FakeWindowSystemAdapter { list_windows_result: result, ..self }
    }
}

fn copy_strings(v: &Vec<String>) -> (r: Vec<String>)
    ensures
        r@.len() == v@.len(),
        forall|i: int| 0 <= i < v@.len() ==> r@[i]@ == v@[i]@,
{
    let mut r: Vec<String> = Vec::new();
    let mut i: usize = 0;
    while i < v.len()
        invariant
            i <= v@.len(),
            r@.len() == i,
            forall|j: int| 0 <= j < i ==> r@[j]@ == v@[j]@,
        decreases v@.len() - i,
    {
        r.push(v[i].clone());
        i = i + 1;
    }
    r
}

impl ScreenShotWindowSystemGateway for FakeWindowSystemAdapter {
    open spec fn inv(&self) -> bool {
        true
    }

    open spec fn ss_view(&self) -> ScreenShotView {
        ScreenShotView {
            find_results: Map::new(|q: Seq<char>| true, |q: Seq<char>| self.spec_find_result()),
            shot_results: Map::new(|w: u64| true, |w: u64| self.spec_shot_result()),
        }
    }

    fn find_window(&mut self, searched_window_name: &String) -> (r: Result<
        Option<u64>,
        ErrorReport,
    >) {
        match &self.find_window_result {
            Ok(o) => Ok(*o),
            Err(e) => Err(e.duplicate()),
        }
    }

    fn take_screen_shot(&mut self, window_id: u64) -> (r: Result<RasterImage, ErrorReport>) {
        match &self.take_screen_shot_result {
            Ok(img) => Ok(img.duplicate()),
            Err(e) => Err(e.duplicate()),
        }
    }
}

impl ListWindowsWindowSystemGateway for FakeWindowSystemAdapter {
    open spec fn inv(&self) -> bool {
        true
    }

    open spec fn list_view(&self) -> Result<Seq<Seq<char>>, Seq<char>> {
        self.spec_list_result()
    }

    fn list_windows(&mut self) -> (r: Result<Vec<String>, ErrorReport>) {
        match &self.list_windows_result {
            Ok(v) => {
                let copied = copy_strings(v);
                proof {
                    assert(text_views(copied@) =~= text_views(v@));
                }
                Ok(copied)
            },
            Err(e) => Err(e.duplicate()),
        }
    }
}

} // verus!
