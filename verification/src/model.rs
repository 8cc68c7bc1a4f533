use vstd::prelude::*;

verus! {

/// Outcome of the primary (modern, typed property) title lookup on one window.
pub ghost enum TitleLookup {
    /// The property is set and decodes to this text.
    Present(Seq<char>),
    /// The property is not set.
    Absent,
    /// A hard protocol error distinct from "property not set".
    Failed,
}

/// Ghost snapshot of one window of the hierarchy: its native handle, the
/// outcomes of the two title lookups, whether the display-server queries on it
/// succeed, its capture data, and its child windows in server-reported order.
pub ghost struct WindowModel {
    pub handle: u64,
    /// What the primary lookup yields.
    pub wm_name: TitleLookup,
    /// What the legacy naming protocol yields; absence is not an error.
    pub fetch_name: Option<Seq<char>>,
    /// Whether a children query on this window succeeds.
    pub query_ok: bool,
    /// Whether a geometry read on this window succeeds.
    pub geom_ok: bool,
    /// Whether a pixel read on this window succeeds.
    pub image_ok: bool,
    pub width: u32,
    pub height: u32,
    pub red_mask: u64,
    pub green_mask: u64,
    pub blue_mask: u64,
    /// Native packed pixel words, row-major, width * height of them.
    pub pixels: Seq<u64>,
    pub children: Seq<WindowModel>,
}

/// The display title of a window: the primary lookup if it yields text, else
/// the legacy lookup. A hard error on the primary read degrades to the
/// fallback; it never fails the resolution.
pub open spec fn resolved_title(n: WindowModel) -> Option<Seq<char>> {
    match n.wm_name {
        TitleLookup::Present(t) => Some(t),
        TitleLookup::Absent => n.fetch_name,
        TitleLookup::Failed => n.fetch_name,
    }
}

/// The handles of the direct children, in server-reported order.
pub open spec fn child_handles(n: WindowModel) -> Seq<u64> {
    n.children.map_values(|c: WindowModel| c.handle)
}

/// All handles of the subtree, in pre-order.
pub open spec fn handles_of(n: WindowModel) -> Seq<u64>
    decreases n,
{
    seq![n.handle] + handles_all(n.children)
}

pub open spec fn handles_all(s: Seq<WindowModel>) -> Seq<u64>
    decreases s,
{
    if s.len() == 0 {
        Seq::empty()
    } else {
        handles_of(s[0]) + handles_all(s.subrange(1, s.len() as int))
    }
}

/// How many windows the subtree holds.
pub open spec fn window_count(n: WindowModel) -> nat {
    handles_of(n).len()
}

/// The windows of the subtree in pre-order: the window itself, then each
/// child's subtree, in server-reported order.
pub open spec fn preorder(n: WindowModel) -> Seq<WindowModel>
    decreases n,
{
    seq![n] + preorder_all(n.children)
}

pub open spec fn preorder_all(s: Seq<WindowModel>) -> Seq<WindowModel>
    decreases s,
{
    if s.len() == 0 {
        Seq::empty()
    } else {
        preorder(s[0]) + preorder_all(s.subrange(1, s.len() as int))
    }
}

/// Whether `d` is `root` itself or stands somewhere below it.
pub open spec fn descendant(root: WindowModel, d: WindowModel) -> bool
    decreases root,
{
    root == d || descendant_any(root.children, d)
}

pub open spec fn descendant_any(s: Seq<WindowModel>, d: WindowModel) -> bool
    decreases s,
{
    if s.len() == 0 {
        false
    } else {
        descendant(s[0], d) || descendant_any(s.subrange(1, s.len() as int), d)
    }
}

/// The first window of the subtree, in pre-order, that carries this handle.
pub open spec fn lookup(root: WindowModel, w: u64) -> Option<WindowModel>
    decreases root,
{
    if root.handle == w {
        Some(root)
    } else {
        lookup_all(root.children, w)
    }
}

pub open spec fn lookup_all(s: Seq<WindowModel>, w: u64) -> Option<WindowModel>
    decreases s,
{
    if s.len() == 0 {
        None
    } else {
        match lookup(s[0], w) {
            Some(n) => Some(n),
            None => lookup_all(s.subrange(1, s.len() as int), w),
        }
    }
}

/// Whether the hierarchy holds a window with this handle.
pub open spec fn has_window(root: WindowModel, w: u64) -> bool {
    lookup(root, w) is Some
}

/// The window of the hierarchy with this handle (the pre-order first one).
pub open spec fn node_at(root: WindowModel, w: u64) -> WindowModel {
    lookup(root, w)->0
}

/// Every window of the hierarchy is found again by its own handle: handles
/// identify windows. This is what a handle-keyed traversal relies on.
pub open spec fn handle_resolves(root: WindowModel) -> bool {
    forall|d: WindowModel| #[trigger] descendant(root, d) ==> lookup(root, d.handle) == Some(d)
}

/// No two windows of the hierarchy share a handle.
pub open spec fn unique_handles(root: WindowModel) -> bool {
    handles_of(root).no_duplicates()
}

/// Every window of the subtree carries exactly width * height native pixel
/// words.
pub open spec fn capture_sized(n: WindowModel) -> bool
    decreases n,
{
    n.pixels.len() == (n.width as int) * (n.height as int) && capture_sized_all(n.children)
}

pub open spec fn capture_sized_all(s: Seq<WindowModel>) -> bool
    decreases s,
{
    s.len() == 0 || (capture_sized(s[0]) && capture_sized_all(s.subrange(1, s.len() as int)))
}

/// The titles of the titled windows of the subtree, in pre-order; untitled
/// windows are skipped, never represented by a placeholder.
pub open spec fn listed_titles(n: WindowModel) -> Seq<Seq<char>>
    decreases n,
{
    match resolved_title(n) {
        Some(t) => seq![t] + listed_titles_all(n.children),
        None => listed_titles_all(n.children),
    }
}

pub open spec fn listed_titles_all(s: Seq<WindowModel>) -> Seq<Seq<char>>
    decreases s,
{
    if s.len() == 0 {
        Seq::empty()
    } else {
        listed_titles(s[0]) + listed_titles_all(s.subrange(1, s.len() as int))
    }
}

/// The window on which the first failing children query is met, walking the
/// subtree in pre-order; `None` when every children query succeeds.
pub open spec fn first_failure(n: WindowModel) -> Option<u64>
    decreases n,
{
    if !n.query_ok {
        Some(n.handle)
    } else {
        first_failure_all(n.children)
    }
}

pub open spec fn first_failure_all(s: Seq<WindowModel>) -> Option<u64>
    decreases s,
{
    if s.len() == 0 {
        None
    } else {
        match first_failure(s[0]) {
            Some(w) => Some(w),
            None => first_failure_all(s.subrange(1, s.len() as int)),
        }
    }
}

/// What enumerating the subtree yields: every children query must succeed, or
/// the whole enumeration fails on the first failing window, with no partial
/// result.
pub open spec fn list_outcome(n: WindowModel) -> Result<Seq<Seq<char>>, u64> {
    match first_failure(n) {
        Some(w) => Err(w),
        None => Ok(listed_titles(n)),
    }
}

/// What searching the subtree for an exact title yields: the window's own
/// resolved title is tested before its children are queried, the first match
/// ends the search, and a failing children query met before a match fails it.
pub open spec fn find_outcome(n: WindowModel, q: Seq<char>) -> Result<Option<u64>, u64>
    decreases n,
{
    if resolved_title(n) == Some(q) {
        Ok(Some(n.handle))
    } else if !n.query_ok {
        Err(n.handle)
    } else {
        find_outcome_all(n.children, q)
    }
}

pub open spec fn find_outcome_all(s: Seq<WindowModel>, q: Seq<char>) -> Result<Option<u64>, u64>
    decreases s,
{
    if s.len() == 0 {
        Ok(None)
    } else {
        match find_outcome(s[0], q) {
            Ok(None) => find_outcome_all(s.subrange(1, s.len() as int), q),
            r => r,
        }
    }
}

/// A window of the hierarchy is a descendant of itself.
pub proof fn lemma_descendant_self(n: WindowModel)
    ensures
        descendant(n, n),
{
}

/// A child of a window of the hierarchy stands in the hierarchy too.
pub proof fn lemma_descendant_child(root: WindowModel, n: WindowModel, i: int)
    requires
        descendant(root, n),
        0 <= i < n.children.len(),
    ensures
        descendant(root, n.children[i]),
    decreases root,
{
    if root == n {
        lemma_descendant_any_from_index(n.children, i, n.children[i]);
    } else {
        lemma_descendant_child_any(root.children, n, i);
    }
}

proof fn lemma_descendant_child_any(s: Seq<WindowModel>, n: WindowModel, i: int)
    requires
        descendant_any(s, n),
        0 <= i < n.children.len(),
    ensures
        descendant_any(s, n.children[i]),
    decreases s,
{
    if descendant(s[0], n) {
        lemma_descendant_child(s[0], n, i);
    } else {
        lemma_descendant_child_any(s.subrange(1, s.len() as int), n, i);
    }
}

proof fn lemma_descendant_any_from_index(s: Seq<WindowModel>, i: int, d: WindowModel)
    requires
        0 <= i < s.len(),
        descendant(s[i], d),
    ensures
        descendant_any(s, d),
    decreases s,
{
    if i > 0 {
        let rest = s.subrange(1, s.len() as int);
        assert(rest[i - 1] == s[i]);
        lemma_descendant_any_from_index(rest, i - 1, d);
    }
}

/// The handle of a window of the subtree is among the subtree's handles.
proof fn lemma_descendant_handle(n: WindowModel, d: WindowModel)
    requires
        descendant(n, d),
    ensures
        handles_of(n).contains(d.handle),
    decreases n,
{
    if n == d {
        assert(handles_of(n)[0] == d.handle);
    } else {
        lemma_descendant_handle_any(n.children, d);
        let hc = handles_all(n.children);
        let k = choose|k: int| 0 <= k < hc.len() && hc[k] == d.handle;
        assert(handles_of(n)[k + 1] == d.handle);
    }
}

proof fn lemma_descendant_handle_any(s: Seq<WindowModel>, d: WindowModel)
    requires
        descendant_any(s, d),
    ensures
        handles_all(s).contains(d.handle),
    decreases s,
{
    let rest = s.subrange(1, s.len() as int);
    let h0 = handles_of(s[0]);
    if descendant(s[0], d) {
        lemma_descendant_handle(s[0], d);
        let k = choose|k: int| 0 <= k < h0.len() && h0[k] == d.handle;
        assert(handles_all(s)[k] == d.handle);
    } else {
        lemma_descendant_handle_any(rest, d);
        let k = choose|k: int| 0 <= k < handles_all(rest).len() && handles_all(rest)[k] == d.handle;
        assert(handles_all(s)[h0.len() + k] == d.handle);
    }
}

/// A handle that occurs nowhere in the subtree is not found in it.
proof fn lemma_absent_lookup_none(n: WindowModel, w: u64)
    requires
        !handles_of(n).contains(w),
    ensures
        lookup(n, w) is None,
    decreases n,
{
    assert(handles_of(n)[0] == n.handle);
    let hc = handles_all(n.children);
    assert forall|k: int| 0 <= k < hc.len() implies hc[k] != w by {
        assert(handles_of(n)[k + 1] == hc[k]);
    }
    lemma_absent_lookup_none_all(n.children, w);
}

proof fn lemma_absent_lookup_none_all(s: Seq<WindowModel>, w: u64)
    requires
        !handles_all(s).contains(w),
    ensures
        lookup_all(s, w) is None,
    decreases s,
{
    if s.len() > 0 {
        let rest = s.subrange(1, s.len() as int);
        let h0 = handles_of(s[0]);
        let hr = handles_all(rest);
        assert forall|k: int| 0 <= k < h0.len() implies h0[k] != w by {
            assert(handles_all(s)[k] == h0[k]);
        }
        lemma_absent_lookup_none(s[0], w);
        assert forall|k: int| 0 <= k < hr.len() implies hr[k] != w by {
            assert(handles_all(s)[h0.len() + k] == hr[k]);
        }
        lemma_absent_lookup_none_all(rest, w);
    }
}

/// Where no two windows share a handle, every window is found again by its
/// own handle. This is the bridge from the checkable condition (no duplicate
/// handles) to what a handle-keyed traversal relies on.
pub proof fn lemma_unique_handle_resolves(root: WindowModel)
    requires
        unique_handles(root),
    ensures
        handle_resolves(root),
{
    assert forall|d: WindowModel| #[trigger] descendant(root, d) implies lookup(
        root,
        d.handle,
    ) == Some(d) by {
        lemma_resolve_node(root, d);
    }
}

/// A window found by handle carries that handle and stands in the hierarchy.
pub proof fn lemma_lookup_found(root: WindowModel, w: u64)
    requires
        lookup(root, w) is Some,
    ensures
        (lookup(root, w)->0).handle == w,
        descendant(root, lookup(root, w)->0),
    decreases root,
{
    if root.handle == w {
    } else {
        lemma_lookup_found_any(root.children, w);
    }
}

proof fn lemma_lookup_found_any(s: Seq<WindowModel>, w: u64)
    requires
        lookup_all(s, w) is Some,
    ensures
        (lookup_all(s, w)->0).handle == w,
        descendant_any(s, lookup_all(s, w)->0),
    decreases s,
{
    if lookup(s[0], w) is Some {
        lemma_lookup_found(s[0], w);
    } else {
        lemma_lookup_found_any(s.subrange(1, s.len() as int), w);
    }
}

/// Each window of a capture-sized hierarchy is itself capture-sized.
pub proof fn lemma_capture_sized_at(n: WindowModel, d: WindowModel)
    requires
        capture_sized(n),
        descendant(n, d),
    ensures
        capture_sized(d),
    decreases n,
{
    if n == d {
    } else {
        lemma_capture_sized_at_any(n.children, d);
    }
}

proof fn lemma_capture_sized_at_any(s: Seq<WindowModel>, d: WindowModel)
    requires
        capture_sized_all(s),
        descendant_any(s, d),
    ensures
        capture_sized(d),
    decreases s,
{
    if descendant(s[0], d) {
        lemma_capture_sized_at(s[0], d);
    } else {
        lemma_capture_sized_at_any(s.subrange(1, s.len() as int), d);
    }
}

proof fn lemma_resolve_node(root: WindowModel, d: WindowModel)
    requires
        handles_of(root).no_duplicates(),
        descendant(root, d),
    ensures
        lookup(root, d.handle) == Some(d),
    decreases root,
{
    if root == d {
    } else {
        lemma_descendant_handle_any(root.children, d);
        let hc = handles_all(root.children);
        let k = choose|k: int| 0 <= k < hc.len() && hc[k] == d.handle;
        assert(handles_of(root)[k + 1] == d.handle);
        assert(handles_of(root)[0] == root.handle);
        assert(root.handle != d.handle);
        assert forall|a: int, b: int|
            0 <= a < hc.len() && 0 <= b < hc.len() && a != b implies hc[a] != hc[b] by {
            assert(handles_of(root)[a + 1] == hc[a]);
            assert(handles_of(root)[b + 1] == hc[b]);
        }
        lemma_resolve_all(root.children, d);
    }
}

proof fn lemma_resolve_all(s: Seq<WindowModel>, d: WindowModel)
    requires
        handles_all(s).no_duplicates(),
        descendant_any(s, d),
    ensures
        lookup_all(s, d.handle) == Some(d),
    decreases s,
{
    let rest = s.subrange(1, s.len() as int);
    let h0 = handles_of(s[0]);
    let hr = handles_all(rest);
    if descendant(s[0], d) {
        assert forall|a: int, b: int|
            0 <= a < h0.len() && 0 <= b < h0.len() && a != b implies h0[a] != h0[b] by {
            assert(handles_all(s)[a] == h0[a]);
            assert(handles_all(s)[b] == h0[b]);
        }
        lemma_resolve_node(s[0], d);
    } else {
        lemma_descendant_handle_any(rest, d);
        let k = choose|k: int| 0 <= k < hr.len() && hr[k] == d.handle;
        assert(handles_all(s)[h0.len() + k] == hr[k]);
        assert forall|a: int| 0 <= a < h0.len() implies h0[a] != d.handle by {
            assert(handles_all(s)[a] == h0[a]);
        }
        assert(!h0.contains(d.handle));
        lemma_absent_lookup_none(s[0], d.handle);
        assert forall|a: int, b: int|
            0 <= a < hr.len() && 0 <= b < hr.len() && a != b implies hr[a] != hr[b] by {
            assert(handles_all(s)[h0.len() + a] == hr[a]);
            assert(handles_all(s)[h0.len() + b] == hr[b]);
        }
        lemma_resolve_all(rest, d);
    }
}

} // verus!
