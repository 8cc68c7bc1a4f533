use vstd::prelude::*;

use crate::capture::RasterModel;
use crate::capture::RasterImage;
use crate::capture::capture_outcome;
use crate::capture::capture_window;
use crate::errors::ErrorReport;
use crate::errors::engine_error_text;
use crate::errors::tree_query_text;
use crate::gateways::ListWindowsWindowSystemGateway;
use crate::gateways::ScreenShotWindowSystemGateway;
use crate::gateways::ScreenShotView;
use crate::model::WindowModel;
use crate::model::capture_sized;
use crate::model::find_outcome;
use crate::model::handle_resolves;
use crate::model::has_window;
use crate::model::lemma_capture_sized_at;
use crate::model::lemma_descendant_self;
use crate::model::lemma_lookup_found;
use crate::model::list_outcome;
use crate::model::node_at;
use crate::session::WindowSession;
use crate::walker::find_in_tree;
use crate::walker::list_in_tree;

verus! {

/// What searching the hierarchy for each title yields, with traversal
/// failures rendered as their window-identifying texts.
pub open spec fn model_find_results(m: WindowModel) -> Map<
    Seq<char>,
    Result<Option<u64>, Seq<char>>,
> {
    Map::new(
        |q: Seq<char>| true,
        |q: Seq<char>|
            match find_outcome(m, q) {
                Ok(opt) => Ok(opt),
                Err(w) => Err(tree_query_text(w)),
            },
    )
}

/// What capturing each window of the hierarchy yields, with failures rendered
/// as their window-identifying texts.
pub open spec fn model_shot_results(m: WindowModel) -> Map<u64, Result<RasterModel, Seq<char>>> {
    Map::new(
        |w: u64| has_window(m, w),
        |w: u64|
            match capture_outcome(node_at(m, w)) {
                Ok(raster) => Ok(raster),
                Err(e) => Err(engine_error_text(e)),
            },
    )
}

/// What enumerating the hierarchy yields, with a traversal failure rendered
/// as its window-identifying text.
pub open spec fn model_list_result(m: WindowModel) -> Result<Seq<Seq<char>>, Seq<char>> {
    match list_outcome(m) {
        Ok(titles) => Ok(titles),
        Err(w) => Err(tree_query_text(w)),
    }
}

/// The traversal and capture engine as a window-system gateway: pre-order
/// traversal of the session's hierarchy, two-tier title resolution, and
/// mask-derived pixel decoding, over any display-server session.
pub struct SessionWindowSystemAdapter<S: WindowSession> {
    session: S,
}

impl<S: WindowSession> SessionWindowSystemAdapter<S> {
    /// The hierarchy snapshot of the underlying session.
    pub closed spec fn session_model(&self) -> WindowModel {
        self.session.model()
    }

    /// How many child-list buffers the session has handed out and taken back.
    pub closed spec fn session_acquires(&self) -> nat {
        self.session.acquires()
    }

    pub closed spec fn session_releases(&self) -> nat {
        self.session.releases()
    }

    pub fn new(session: S) -> (r: Self)
        ensures
            r.session_model() == session.model(),
            r.session_acquires() == session.acquires(),
            r.session_releases() == session.releases(),
    {
        SessionWindowSystemAdapter { session }
    }
}

impl<S: WindowSession> ScreenShotWindowSystemGateway for SessionWindowSystemAdapter<S> {
    /// Handles identify windows and every window carries exactly
    /// width * height pixel words: what a handle-keyed traversal and a
    /// geometry-sized decode rely on.
    open spec fn inv(&self) -> bool {
        handle_resolves(self.session_model()) && capture_sized(self.session_model())
    }

    open spec fn ss_view(&self) -> ScreenShotView {
        ScreenShotView {
            find_results: model_find_results(self.session_model()),
            shot_results: model_shot_results(self.session_model()),
        }
    }

    fn find_window(&mut self, searched_window_name: &String) -> (r: Result<
        Option<u64>,
        ErrorReport,
    >)
        ensures
            final(self).session_model() == old(self).session_model(),
            final(self).session_acquires() - old(self).session_acquires()
                == final(self).session_releases() - old(self).session_releases(),
    {
        let ghost m = self.session.model();
        let root = self.session.root_window();
        proof {
            lemma_descendant_self(m);
        }
        let res = find_in_tree(&mut self.session, root, searched_window_name, Ghost(m));
        match res {
            Ok(found) => Ok(found),
            Err(e) => Err(e.to_report()),
        }
    }

    fn take_screen_shot(&mut self, window_id: u64) -> (r: Result<RasterImage, ErrorReport>)
        ensures
            final(self).session_model() == old(self).session_model(),
            final(self).session_acquires() == old(self).session_acquires(),
            final(self).session_releases() == old(self).session_releases(),
    {
        let ghost m = self.session.model();
        let ghost node = node_at(m, window_id);
        proof {
            lemma_lookup_found(m, window_id);
            lemma_capture_sized_at(m, node);
        }
        match capture_window(&mut self.session, window_id, Ghost(node)) {
            Ok(img) => Ok(img),
            Err(e) => Err(e.to_report()),
        }
    }
}

impl<S: WindowSession> ListWindowsWindowSystemGateway for SessionWindowSystemAdapter<S> {
    /// Handles identify windows: what a handle-keyed traversal relies on.
    open spec fn inv(&self) -> bool {
        handle_resolves(self.session_model())
    }

    open spec fn list_view(&self) -> Result<Seq<Seq<char>>, Seq<char>> {
        model_list_result(self.session_model())
    }

    fn list_windows(&mut self) -> (r: Result<Vec<String>, ErrorReport>)
        ensures
            final(self).session_model() == old(self).session_model(),
            final(self).session_acquires() - old(self).session_acquires()
                == final(self).session_releases() - old(self).session_releases(),
    {
        let ghost m = self.session.model();
        let root = self.session.root_window();
        proof {
            lemma_descendant_self(m);
        }
        let mut out: Vec<String> = Vec::new();
        let res = list_in_tree(&mut self.session, root, &mut out, Ghost(m));
        match res {
            Ok(_) => Ok(out),
            Err(e) => Err(e.to_report()),
        }
    }
}

} // verus!
