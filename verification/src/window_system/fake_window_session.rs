use vstd::prelude::*;

use crate::model::TitleLookup;
use crate::model::WindowModel;
use crate::model::capture_sized;
use crate::model::capture_sized_all;
use crate::model::child_handles;
use crate::model::handle_resolves;
use crate::model::handles_all;
use crate::model::handles_of;
use crate::model::lemma_unique_handle_resolves;
use crate::model::lookup;
use crate::model::lookup_all;
use crate::model::node_at;
use crate::model::unique_handles;
use crate::session::ChildList;
use crate::session::Geometry;
use crate::session::GeometryFault;
use crate::session::PixelFault;
use crate::session::PixelGrab;
use crate::session::PropertyFault;
use crate::session::QueryFault;
use crate::session::WindowSession;

verus! {

/// What the primary title lookup on a window of the in-memory hierarchy
/// yields.
pub enum TitleReply {
    /// The property is set to this text.
    Present(String),
    /// The property is not set.
    Absent,
    /// The read fails with a hard protocol error.
    Failed,
}

impl View for TitleReply {
    type V = TitleLookup;

    open spec fn view(&self) -> TitleLookup {
        match self {
            TitleReply::Present(s) => TitleLookup::Present(s@),
            TitleReply::Absent => TitleLookup::Absent,
            TitleReply::Failed => TitleLookup::Failed,
        }
    }
}

/// One window of an in-memory hierarchy: what each display-server call on it
/// yields, and its children in order.
pub struct FakeWindow {
    pub handle: u64,
    pub wm_name: TitleReply,
    pub fetch_name: Option<String>,
    pub query_ok: bool,
    pub geom_ok: bool,
    pub image_ok: bool,
    pub width: u32,
    pub height: u32,
    pub red_mask: u64,
    pub green_mask: u64,
    pub blue_mask: u64,
    pub pixels: Vec<u64>,
    pub children: Vec<FakeWindow>,
}

pub open spec fn windows_view(s: Seq<FakeWindow>) -> Seq<WindowModel>
    decreases s,
{
    if s.len() == 0 {
        Seq::empty()
    } else {
        seq![s[0]@] + windows_view(s.subrange(1, s.len() as int))
    }
}

impl View for FakeWindow {
    type V = WindowModel;

    open spec fn view(&self) -> WindowModel
        decreases self,
    {
        WindowModel {
            handle: self.handle,
            wm_name: self.wm_name@,
            fetch_name: match self.fetch_name {
                Some(s) => Some(s@),
                None => None,
            },
            query_ok: self.query_ok,
            geom_ok: self.geom_ok,
            image_ok: self.image_ok,
            width: self.width,
            height: self.height,
            red_mask: self.red_mask,
            green_mask: self.green_mask,
            blue_mask: self.blue_mask,
            pixels: self.pixels@,
            children: windows_view(self.children@),
        }
    }
}

pub proof fn lemma_windows_view_props(s: Seq<FakeWindow>)
    ensures
        windows_view(s).len() == s.len(),
        forall|i: int| 0 <= i < s.len() ==> windows_view(s)[i] == s[i]@,
    decreases s,
{
    if s.len() > 0 {
        let rest = s.subrange(1, s.len() as int);
        lemma_windows_view_props(rest);
        assert(windows_view(s) == seq![s[0]@] + windows_view(rest));
        assert(windows_view(s).len() == 1 + windows_view(rest).len());
        assert forall|i: int| 0 <= i < s.len() implies windows_view(s)[i] == s[i]@ by {
            if i > 0 {
                assert(rest[i - 1] == s[i]);
                assert((seq![s[0]@] + windows_view(rest))[i] == windows_view(rest)[i - 1]);
            } else {
                assert((seq![s[0]@] + windows_view(rest))[0] == s[0]@);
            }
        }
    }
}

/// The pre-order first window of the in-memory subtree carrying this handle.
#[verifier::loop_isolation(false)]
fn find_node<'a>(n: &'a FakeWindow, w: u64) -> (r: Option<&'a FakeWindow>)
    ensures
        match r {
            Some(f) => lookup(n@, w) == Some(f@),
            None => lookup(n@, w) is None,
        },
    decreases n@,
{
    if n.handle == w {
        return Some(n);
    }
    let ghost ms = n@.children;
    proof {
        lemma_windows_view_props(n.children@);
        assert(ms.skip(0) =~= ms);
    }
    let mut i: usize = 0;
    while i < n.children.len()
        invariant
            i <= n.children@.len(),
            lookup_all(ms, w) == lookup_all(ms.skip(i as int), w),
        decreases n.children@.len() - i,
    {
        let c = &n.children[i];
        proof {
            assert(c@ == ms[i as int]);
            assert(decreases_to!(n@ => n@.children[i as int]));
            assert(ms.skip(i as int)[0] == ms[i as int]);
            assert(ms.skip(i as int).subrange(1, ms.skip(i as int).len() as int) =~= ms.skip(
                i as int + 1,
            ));
        }
        let found = find_node(c, w);
        if found.is_some() {
            return found;
        }
        i = i + 1;
    }
    proof {
        assert(ms.skip(ms.len() as int) =~= Seq::<WindowModel>::empty());
    }
    None
}

/// Append all handles of the subtree, in pre-order.
#[verifier::loop_isolation(false)]
fn collect_handles(n: &FakeWindow, out: &mut Vec<u64>)
    ensures
        final(out)@ == old(out)@ + handles_of(n@),
    decreases n@,
{
    let ghost base = old(out)@;
    out.push(n.handle);
    let ghost ms = n@.children;
    proof {
        lemma_windows_view_props(n.children@);
        assert(ms.skip(0) =~= ms);
        assert(out@ + handles_all(ms.skip(0)) =~= base + handles_of(n@));
    }
    let mut i: usize = 0;
    while i < n.children.len()
        invariant
            i <= n.children@.len(),
            out@ + handles_all(ms.skip(i as int)) == base + handles_of(n@),
        decreases n.children@.len() - i,
    {
        let c = &n.children[i];
        proof {
            assert(c@ == ms[i as int]);
            assert(decreases_to!(n@ => n@.children[i as int]));
            assert(ms.skip(i as int)[0] == ms[i as int]);
            assert(ms.skip(i as int).subrange(1, ms.skip(i as int).len() as int) =~= ms.skip(
                i as int + 1,
            ));
        }
        let ghost before = out@;
        collect_handles(c, out);
        proof {
            assert(out@ + handles_all(ms.skip(i as int + 1)) =~= base + handles_of(n@)) by {
                assert(handles_all(ms.skip(i as int)) =~= handles_of(ms[i as int]) + handles_all(
                    ms.skip(i as int + 1),
                ));
            }
        }
        i = i + 1;
    }
    proof {
        assert(ms.skip(ms.len() as int) =~= Seq::<WindowModel>::empty());
        assert(out@ =~= base + handles_of(n@));
    }
}

/// Whether no handle occurs twice.
#[verifier::loop_isolation(false)]
fn distinct_handles(v: &Vec<u64>) -> (r: bool)
    ensures
        r == v@.no_duplicates(),
{
    let mut i: usize = 0;
    while i < v.len()
        invariant
            i <= v@.len(),
            forall|a: int, b: int| 0 <= a < b < i ==> v@[a] != v@[b],
        decreases v@.len() - i,
    {
        let mut j: usize = 0;
        while j < i
            invariant
                j <= i <= v@.len(),
                forall|a: int, b: int| 0 <= a < b < i ==> v@[a] != v@[b],
                forall|b: int| 0 <= b < j ==> v@[b] != v@[i as int],
            decreases i - j,
        {
            if v[j] == v[i] {
                proof {
                    assert(v@[j as int] == v@[i as int]);
                    assert(!v@.no_duplicates());
                }
                return false;
            }
            j = j + 1;
        }
        i = i + 1;
    }
    proof {
        assert forall|a: int, b: int|
            0 <= a < v@.len() && 0 <= b < v@.len() && a != b implies v@[a] != v@[b] by {
            if a < b {
            } else {
            }
        }
    }
    true
}

/// Whether every window of the subtree carries exactly width * height pixel
/// words.
#[verifier::loop_isolation(false)]
fn capture_sizes_ok(n: &FakeWindow) -> (r: bool)
    ensures
        r == capture_sized(n@),
    decreases n@,
{
    proof {
        assert((n.width as int) * (n.height as int) <= 0xffffffff * 0xffffffff)
            by (nonlinear_arith)
            requires
                n.width <= 0xffffffffu32,
                n.height <= 0xffffffffu32,
        ;
    }
    let want = (n.width as u64) * (n.height as u64);
    let have = n.pixels.len() as u64;
    if have != want {
        return false;
    }
    let ghost ms = n@.children;
    proof {
        lemma_windows_view_props(n.children@);
        assert(ms.skip(0) =~= ms);
    }
    let mut i: usize = 0;
    while i < n.children.len()
        invariant
            i <= n.children@.len(),
            n@.pixels.len() == (n@.width as int) * (n@.height as int),
            capture_sized(n@) == capture_sized_all(ms.skip(i as int)),
        decreases n.children@.len() - i,
    {
        let c = &n.children[i];
        proof {
            assert(c@ == ms[i as int]);
            assert(decreases_to!(n@ => n@.children[i as int]));
            assert(ms.skip(i as int)[0] == ms[i as int]);
            assert(ms.skip(i as int).subrange(1, ms.skip(i as int).len() as int) =~= ms.skip(
                i as int + 1,
            ));
        }
        if !capture_sizes_ok(c) {
            return false;
        }
        i = i + 1;
    }
    proof {
        assert(ms.skip(ms.len() as int) =~= Seq::<WindowModel>::empty());
    }
    true
}

#[verifier::loop_isolation(false)]
fn copy_words(v: &Vec<u64>) -> (r: Vec<u64>)
    ensures
        r@ == v@,
{
    let mut r: Vec<u64> = Vec::new();
    let mut i: usize = 0;
    while i < v.len()
        invariant
            i <= v@.len(),
            r@ == v@.take(i as int),
        decreases v@.len() - i,
    {
        r.push(v[i]);
        i = i + 1;
        proof {
            assert(r@ =~= v@.take(i as int));
        }
    }
    proof {
        assert(r@ =~= v@);
    }
    r
}

/// An in-memory display-server session: it answers every query of the
/// session interface from a fixed hierarchy, and its buffer accounting is
/// checked by the verifier rather than by a server.
pub struct FakeWindowSession {
    root: FakeWindow,
    acq: Ghost<nat>,
    rel: Ghost<nat>,
}

impl FakeWindowSession {
    /// Build a session over the given hierarchy. The hierarchy is accepted
    /// only where no two windows share a handle and every window carries
    /// exactly width * height pixel words; otherwise nothing is built.
    pub fn new(root: FakeWindow) -> (r: Option<FakeWindowSession>)
        ensures
            match r {
                Some(s) => {
                    &&& s.model() == root@
                    &&& unique_handles(root@)
                    &&& handle_resolves(root@)
                    &&& capture_sized(root@)
                    &&& s.acquires() == 0
                    &&& s.releases() == 0
                },
                None => !(unique_handles(root@) && capture_sized(root@)),
            },
    {
        let mut hs: Vec<u64> = Vec::new();
        collect_handles(&root, &mut hs);
        proof {
            assert(hs@ =~= handles_of(root@));
        }
        if !distinct_handles(&hs) {
            return None;
        }
        if !capture_sizes_ok(&root) {
            return None;
        }
        proof {
            lemma_unique_handle_resolves(root@);
        }
        Some(FakeWindowSession { root, acq: Ghost(0), rel: Ghost(0) })
    }
}

impl WindowSession for FakeWindowSession {
    closed spec fn model(&self) -> WindowModel {
        self.root@
    }

    closed spec fn acquires(&self) -> nat {
        self.acq@
    }

    closed spec fn releases(&self) -> nat {
        self.rel@
    }

    fn root_window(&self) -> (w: u64) {
        self.root.handle
    }

    #[verifier::loop_isolation(false)]
    fn query_children(&mut self, w: u64) -> (r: Result<ChildList, QueryFault>) {
        match find_node(&self.root, w) {
            Some(f) => {
                if f.query_ok {
                    let ghost ms = f@.children;
                    proof {
                        lemma_windows_view_props(f.children@);
                    }
                    let mut hs: Vec<u64> = Vec::new();
                    let mut i: usize = 0;
                    while i < f.children.len()
                        invariant
                            i <= f.children@.len(),
                            ms == windows_view(f.children@),
                            ms.len() == f.children@.len(),
                            forall|k: int| 0 <= k < ms.len() ==> ms[k] == f.children@[k]@,
                            hs@ == child_handles(
                                WindowModel { children: ms, ..node_at(self.model(), w) },
                            ).take(i as int),
                        decreases f.children@.len() - i,
                    {
                        hs.push(f.children[i].handle);
                        i = i + 1;
                        proof {
                            assert(hs@ =~= child_handles(
                                WindowModel { children: ms, ..node_at(self.model(), w) },
                            ).take(i as int));
                        }
                    }
                    let cl = ChildList::new(hs, 0);
                    self.acq = Ghost(self.acq@ + 1);
                    proof {
                        assert(cl@ =~= child_handles(node_at(self.model(), w)));
                    }
                    Ok(cl)
                } else {
                    Err(QueryFault)
                }
            },
            None => {
                proof {
                    assert(false);
                }
                Err(QueryFault)
            },
        }
    }

    fn release_children(&mut self, buf: ChildList) {
        self.rel = Ghost(self.rel@ + 1);
    }

    fn read_wm_name(&mut self, w: u64) -> (r: Result<Option<String>, PropertyFault>) {
        match find_node(&self.root, w) {
            Some(f) => match &f.wm_name {
                TitleReply::Present(s) => Ok(Some(s.clone())),
                TitleReply::Absent => Ok(None),
                TitleReply::Failed => Err(PropertyFault),
            },
            None => {
                proof {
                    assert(false);
                }
                Err(PropertyFault)
            },
        }
    }

    fn fetch_name(&mut self, w: u64) -> (r: Option<String>) {
        match find_node(&self.root, w) {
            Some(f) => match &f.fetch_name {
                Some(s) => Some(s.clone()),
                None => None,
            },
            None => {
                proof {
                    assert(false);
                }
                None
            },
        }
    }

    fn get_geometry(&mut self, w: u64) -> (r: Result<Geometry, GeometryFault>) {
        match find_node(&self.root, w) {
            Some(f) => {
                if f.geom_ok {
                    Ok(Geometry { width: f.width, height: f.height })
                } else {
                    Err(GeometryFault)
                }
            },
            None => {
                proof {
                    assert(false);
                }
                Err(GeometryFault)
            },
        }
    }

    fn get_image(&mut self, w: u64, width: u32, height: u32) -> (r: Result<PixelGrab, PixelFault>) {
        match find_node(&self.root, w) {
            Some(f) => {
                if f.image_ok {
                    let pixels = copy_words(&f.pixels);
                    Ok(
                        PixelGrab {
                            pixels,
                            red_mask: f.red_mask,
                            green_mask: f.green_mask,
                            blue_mask: f.blue_mask,
                        },
                    )
                } else {
                    Err(PixelFault)
                }
            },
            None => {
                proof {
                    assert(false);
                }
                Err(PixelFault)
            },
        }
    }
}

} // verus!
