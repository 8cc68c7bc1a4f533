use vstd::prelude::*;

use crate::capture::RasterImage;
use crate::errors::ErrorReport;
use crate::gateways::FileSystemGateway;

verus! {

/// A persistence test double: it records every raster and path handed to it
/// and answers with a configured result. A fresh double fails every save.
pub struct FakeFileSystemAdapter {
    pub vec: Vec<(RasterImage, String)>,
    pub result: Result<(), ErrorReport>,
}

impl FakeFileSystemAdapter {
    /// The configured save outcome, as a mathematical value.
    pub closed spec fn spec_save_result(&self) -> Result<(), Seq<char>> {
        match self.result {
            Ok(_) => Ok(()),
            Err(e) => Err(e@),
        }
    }

    pub fn new() -> (r: FakeFileSystemAdapter)
        ensures
            r.spec_save_result() == Err::<(), Seq<char>>("Unable to save file"@),
            r.vec@.len() == 0,
    {
        FakeFileSystemAdapter {
            vec: Vec::new(),
            result: Err(ErrorReport::from_text("Unable to save file")),
        }
    }

    pub fn with_result(self, result: Result<(), ErrorReport>) -> (r: FakeFileSystemAdapter)
        ensures
            r.spec_save_result() == (match result {
                Ok(_) => Ok::<(), Seq<char>>(()),
                Err(e) => Err::<(), Seq<char>>(e@),
            }),
            r.vec@ == self.vec@,
    {
        FakeFileSystemAdapter { result, ..self }
    }
}

impl FileSystemGateway for FakeFileSystemAdapter {
    open spec fn inv(&self) -> bool {
        true
    }

    open spec fn save_view(&self) -> Result<(), Seq<char>> {
        self.spec_save_result()
    }

    fn save_image(&mut self, image_buffer: RasterImage, path: &String) -> (r: Result<
        (),
        ErrorReport,
    >)
        ensures
            final(self).vec@.len() == old(self).vec@.len() + 1,
    {
        self.vec.push((image_buffer, path.clone()));
        match &self.result {
            Ok(_) => Ok(()),
            Err(e) => Err(e.duplicate()),
        }
    }
}

} // verus!
