use vstd::prelude::*;

use crate::model::TitleLookup;
use crate::model::WindowModel;
use crate::model::child_handles;
use crate::model::has_window;
use crate::model::node_at;

verus! {

/// The children query failed on the window it was made for.
pub struct QueryFault;

/// The primary title lookup met a hard protocol error distinct from
/// "property not set".
pub struct PropertyFault;

/// The geometry read failed.
pub struct GeometryFault;

/// The pixel read failed.
pub struct PixelFault;

/// A window's reported geometry.
pub struct Geometry {
    pub width: u32,
    pub height: u32,
}

/// A server-allocated list of child window handles. The session that handed
/// it out must be given it back exactly once, through
/// `WindowSession::release_children`.
pub struct ChildList {
    handles: Vec<u64>,
    native: usize,
}

impl View for ChildList {
    type V = Seq<u64>;

    closed spec fn view(&self) -> Seq<u64> {
        self.handles@
    }
}

impl ChildList {
    /// Wrap handles copied out of a native buffer; `native` is an
    /// impl-defined token standing for that buffer (zero where none exists).
    pub fn new(handles: Vec<u64>, native: usize) -> (r: ChildList)
        ensures
            r@ == handles@,
    {
        ChildList { handles, native }
    }

    /// The handles, copied out of the buffer. Traversal copies them before it
    /// releases the buffer, so no handle is read from released memory.
    pub fn copy_handles(&self) -> (v: Vec<u64>)
        ensures
            v@ == self@,
    {
        let mut v: Vec<u64> = Vec::new();
        let mut i: usize = 0;
        while i < self.handles.len()
            invariant
                i <= self.handles.len(),
                v@ == self.handles@.take(i as int),
            decreases self.handles.len() - i,
        {
            v.push(self.handles[i]);
            i = i + 1;
            proof {
                assert(v@ =~= self.handles@.take(i as int));
            }
        }
        proof {
            assert(v@ =~= self@);
        }
        v
    }

    /// The impl-defined token of the native buffer behind this list.
    pub fn native_token(&self) -> usize {
        self.native
    }
}

/// Whether an executable primary-lookup reply matches the modeled outcome.
pub open spec fn title_read_matches(t: TitleLookup, r: Result<Option<String>, PropertyFault>) -> bool {
    match t {
        TitleLookup::Present(text) => r matches Ok(Some(s)) && s@ == text,
        TitleLookup::Absent => r matches Ok(None),
        TitleLookup::Failed => r is Err,
    }
}

/// Whether an executable legacy-lookup reply matches the modeled outcome.
pub open spec fn opt_text_matches(t: Option<Seq<char>>, r: Option<String>) -> bool {
    match t {
        Some(text) => r matches Some(s) && s@ == text,
        None => r is None,
    }
}

/// A connection to a display server exposing a retained-mode window
/// hierarchy: a root window, a parent/child tree, per-window named
/// properties, and per-window geometry and pixels.
///
/// `model()` is the hierarchy snapshot the session answers queries from;
/// `acquires()` and `releases()` count the server-allocated child-list
/// buffers handed out and given back. The in-memory session of this crate
/// implements the contract under verification; a native adapter implements
/// the same trait outside it.
pub trait WindowSession: Sized {
    open spec fn model(&self) -> WindowModel {
        vstd::pervasive::arbitrary()
    }

    open spec fn acquires(&self) -> nat {
        vstd::pervasive::arbitrary()
    }

    open spec fn releases(&self) -> nat {
        vstd::pervasive::arbitrary()
    }

    /// The root window of the hierarchy.
    fn root_window(&self) -> (w: u64)
        ensures
            w == self.model().handle,
    ;

    /// Query the direct children of `w`, in server-reported order. On
    /// success a server-allocated buffer is acquired and must be released
    /// exactly once.
    fn query_children(&mut self, w: u64) -> (r: Result<ChildList, QueryFault>)
        requires
            has_window(old(self).model(), w),
        ensures
            final(self).model() == old(self).model(),
            final(self).releases() == old(self).releases(),
            match r {
                Ok(buf) => {
                    &&& node_at(old(self).model(), w).query_ok
                    &&& buf@ == child_handles(node_at(old(self).model(), w))
                    &&& final(self).acquires() == old(self).acquires() + 1
                },
                Err(_) => {
                    &&& !node_at(old(self).model(), w).query_ok
                    &&& final(self).acquires() == old(self).acquires()
                },
            },
    ;

    /// Release a child-list buffer back to the server.
    fn release_children(&mut self, buf: ChildList)
        ensures
            final(self).model() == old(self).model(),
            final(self).acquires() == old(self).acquires(),
            final(self).releases() == old(self).releases() + 1,
    ;

    /// Primary title lookup: read the modern, typed name property of `w`.
    fn read_wm_name(&mut self, w: u64) -> (r: Result<Option<String>, PropertyFault>)
        requires
            has_window(old(self).model(), w),
        ensures
            final(self).model() == old(self).model(),
            final(self).acquires() == old(self).acquires(),
            final(self).releases() == old(self).releases(),
            title_read_matches(node_at(old(self).model(), w).wm_name, r),
    ;

    /// Legacy title lookup: the older single-purpose window-name call.
    fn fetch_name(&mut self, w: u64) -> (r: Option<String>)
        requires
            has_window(old(self).model(), w),
        ensures
            final(self).model() == old(self).model(),
            final(self).acquires() == old(self).acquires(),
            final(self).releases() == old(self).releases(),
            opt_text_matches(node_at(old(self).model(), w).fetch_name, r),
    ;

    /// Read the geometry of `w`.
    fn get_geometry(&mut self, w: u64) -> (r: Result<Geometry, GeometryFault>)
        requires
            has_window(old(self).model(), w),
        ensures
            final(self).model() == old(self).model(),
            final(self).acquires() == old(self).acquires(),
            final(self).releases() == old(self).releases(),
            match r {
                Ok(g) => {
                    &&& node_at(old(self).model(), w).geom_ok
                    &&& g.width == node_at(old(self).model(), w).width
                    &&& g.height == node_at(old(self).model(), w).height
                },
                Err(_) => !node_at(old(self).model(), w).geom_ok,
            },
    ;

    /// Read the raw image of the full window rectangle at native depth,
    /// together with the channel masks of this capture.
    fn get_image(&mut self, w: u64, width: u32, height: u32) -> (r: Result<PixelGrab, PixelFault>)
        requires
            has_window(old(self).model(), w),
            width == node_at(old(self).model(), w).width,
            height == node_at(old(self).model(), w).height,
        ensures
            final(self).model() == old(self).model(),
            final(self).acquires() == old(self).acquires(),
            final(self).releases() == old(self).releases(),
            match r {
                Ok(g) => {
                    &&& node_at(old(self).model(), w).image_ok
                    &&& g.pixels@ == node_at(old(self).model(), w).pixels
                    &&& g.red_mask == node_at(old(self).model(), w).red_mask
                    &&& g.green_mask == node_at(old(self).model(), w).green_mask
                    &&& g.blue_mask == node_at(old(self).model(), w).blue_mask
                },
                Err(_) => !node_at(old(self).model(), w).image_ok,
            },
    ;
}

/// A raw captured image: native packed pixel words, row-major, and the three
/// channel masks the display server reports for this capture.
pub struct PixelGrab {
    pub pixels: Vec<u64>,
    pub red_mask: u64,
    pub green_mask: u64,
    pub blue_mask: u64,
}

} // verus!
