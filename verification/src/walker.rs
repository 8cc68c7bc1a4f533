use vstd::prelude::*;

use crate::errors::EngineError;
use crate::model::WindowModel;
use crate::model::descendant;
use crate::model::child_handles;
use crate::model::find_outcome;
use crate::model::find_outcome_all;
use crate::model::first_failure;
use crate::model::first_failure_all;
use crate::model::handle_resolves;
use crate::model::has_window;
use crate::model::lemma_descendant_child;
use crate::model::listed_titles;
use crate::model::listed_titles_all;
use crate::model::lookup;
use crate::model::node_at;
use crate::model::resolved_title;
use crate::session::QueryFault;
use crate::session::WindowSession;
use crate::session::opt_text_matches;

verus! {

/// Whether an executable search result matches the modeled outcome: the
/// failing window's handle is carried into the traversal error.
pub open spec fn find_result_matches(
    r: Result<Option<u64>, EngineError>,
    o: Result<Option<u64>, u64>,
) -> bool {
    match o {
        Ok(opt) => r == Ok::<Option<u64>, EngineError>(opt),
        Err(w) => r == Err::<Option<u64>, EngineError>(EngineError::TreeQuery { window: w }),
    }
}

/// The views of a sequence of owned strings.
pub open spec fn text_views(ss: Seq<String>) -> Seq<Seq<char>> {
    ss.map_values(|s: String| s@)
}

/// Resolve the display title of `w`: the primary lookup first, the legacy
/// lookup second. A hard error on the primary read degrades to the fallback;
/// resolution never fails the surrounding operation.
pub fn resolve_title<S: WindowSession>(sess: &mut S, w: u64) -> (r: Option<String>)
    requires
        has_window(old(sess).model(), w),
    ensures
        final(sess).model() == old(sess).model(),
        final(sess).acquires() == old(sess).acquires(),
        final(sess).releases() == old(sess).releases(),
        opt_text_matches(resolved_title(node_at(old(sess).model(), w)), r),
{
    match sess.read_wm_name(w) {
        Ok(Some(t)) => Some(t),
        _ => sess.fetch_name(w),
    }
}

/// Query, copy out, and release the children of `w`: the server buffer is
/// acquired and released within this one call, on every path, and only after
/// the handles have been copied out of it.
fn fetch_children<S: WindowSession>(sess: &mut S, w: u64) -> (r: Result<Vec<u64>, QueryFault>)
    requires
        has_window(old(sess).model(), w),
    ensures
        final(sess).model() == old(sess).model(),
        match r {
            Ok(v) => {
                &&& node_at(old(sess).model(), w).query_ok
                &&& v@ == child_handles(node_at(old(sess).model(), w))
                &&& final(sess).acquires() == old(sess).acquires() + 1
                &&& final(sess).releases() == old(sess).releases() + 1
            },
            Err(_) => {
                &&& !node_at(old(sess).model(), w).query_ok
                &&& final(sess).acquires() == old(sess).acquires()
                &&& final(sess).releases() == old(sess).releases()
            },
        },
{
    match sess.query_children(w) {
        Ok(buf) => {
            let v = buf.copy_handles();
            sess.release_children(buf);
            Ok(v)
        },
        Err(e) => Err(e),
    }
}

/// Locate the first window of the subtree at `w`, in pre-order, whose
/// resolved title equals `query` exactly. A window with no title never
/// matches, whatever the query. A window's own title is tested before its
/// children are queried; the first match ends the search; a failing children
/// query met before any match aborts it, naming the failed window.
///
/// Every child-list buffer acquired during the search is released during it,
/// on early-exit paths too.
#[verifier::loop_isolation(false)]
pub fn find_in_tree<S: WindowSession>(
    sess: &mut S,
    w: u64,
    query: &String,
    node: Ghost<WindowModel>,
) -> (r: Result<Option<u64>, EngineError>)
    requires
        handle_resolves(old(sess).model()),
        descendant(old(sess).model(), node@),
        node@.handle == w,
    ensures
        final(sess).model() == old(sess).model(),
        final(sess).acquires() - old(sess).acquires()
            == final(sess).releases() - old(sess).releases(),
        find_result_matches(r, find_outcome(node@, query@)),
        r matches Ok(Some(fw)) ==> has_window(old(sess).model(), fw),
    decreases node@,
{
    let ghost m = old(sess).model();
    proof {
        assert(lookup(m, w) == Some(node@));
    }
    let title = resolve_title(sess, w);
    let matched = match &title {
        Some(t) => *t == *query,
        None => false,
    };
    if matched {
        return Ok(Some(w));
    }
    proof {
        assert(resolved_title(node@) != Some(query@));
    }
    let children = match fetch_children(sess, w) {
        Ok(v) => v,
        Err(_) => {
            return Err(EngineError::TreeQuery { window: w });
        },
    };
    let ghost cs = node@.children;
    let ghost acq0 = sess.acquires();
    let ghost rel0 = sess.releases();
    let mut i: usize = 0;
    proof {
        assert(cs.skip(0) =~= cs);
    }
    while i < children.len()
        invariant
            sess.model() == m,
            i <= children@.len(),
            sess.acquires() - acq0 == sess.releases() - rel0,
            find_outcome_all(cs, query@) == find_outcome_all(cs.skip(i as int), query@),
        decreases children@.len() - i,
    {
        let cw = children[i];
        let ghost child = cs[i as int];
        proof {
            lemma_descendant_child(m, node@, i as int);
            assert(child.handle == cw);
            assert(decreases_to!(node@ => child));
        }
        let res = find_in_tree(sess, cw, query, Ghost(child));
        proof {
            assert(cs.skip(i as int)[0] == child);
            assert(cs.skip(i as int).subrange(1, cs.skip(i as int).len() as int) =~= cs.skip(
                i as int + 1,
            ));
        }
        match res {
            Ok(None) => {},
            other => {
                return other;
            },
        }
        i = i + 1;
    }
    proof {
        assert(cs.skip(cs.len() as int) =~= Seq::<WindowModel>::empty());
    }
    Ok(None)
}

/// Collect into `out` the titles of the titled windows of the subtree at
/// `w`, in pre-order; untitled windows are silently skipped. A failing
/// children query aborts the enumeration, naming the failed window; the
/// caller then discards the partly filled collection.
///
/// Every child-list buffer acquired during the walk is released during it,
/// on the aborting paths too.
#[verifier::loop_isolation(false)]
pub fn list_in_tree<S: WindowSession>(
    sess: &mut S,
    w: u64,
    out: &mut Vec<String>,
    node: Ghost<WindowModel>,
) -> (r: Result<(), EngineError>)
    requires
        handle_resolves(old(sess).model()),
        descendant(old(sess).model(), node@),
        node@.handle == w,
    ensures
        final(sess).model() == old(sess).model(),
        final(sess).acquires() - old(sess).acquires()
            == final(sess).releases() - old(sess).releases(),
        match r {
            Ok(_) => {
                &&& first_failure(node@) is None
                &&& text_views(final(out)@) == text_views(old(out)@) + listed_titles(node@)
            },
            Err(e) => {
                &&& first_failure(node@) is Some
                &&& e == EngineError::TreeQuery { window: first_failure(node@)->0 }
            },
        },
    decreases node@,
{
    let ghost m = old(sess).model();
    let ghost base = old(out)@;
    proof {
        assert(lookup(m, w) == Some(node@));
    }
    let title = resolve_title(sess, w);
    match title {
        Some(t) => {
            out.push(t);
            proof {
                assert(text_views(out@) =~= text_views(base) + seq![
                    resolved_title(node@)->0,
                ]);
            }
        },
        None => {},
    }
    let children = match fetch_children(sess, w) {
        Ok(v) => v,
        Err(_) => {
            return Err(EngineError::TreeQuery { window: w });
        },
    };
    let ghost cs = node@.children;
    let ghost acq0 = sess.acquires();
    let ghost rel0 = sess.releases();
    let mut i: usize = 0;
    proof {
        assert(cs.skip(0) =~= cs);
        assert(text_views(out@) + listed_titles_all(cs.skip(0)) =~= text_views(base)
            + listed_titles(node@));
    }
    while i < children.len()
        invariant
            sess.model() == m,
            i <= children@.len(),
            sess.acquires() - acq0 == sess.releases() - rel0,
            first_failure_all(cs) == first_failure_all(cs.skip(i as int)),
            text_views(out@) + listed_titles_all(cs.skip(i as int)) == text_views(base)
                + listed_titles(node@),
        decreases children@.len() - i,
    {
        let cw = children[i];
        let ghost child = cs[i as int];
        proof {
            lemma_descendant_child(m, node@, i as int);
            assert(child.handle == cw);
            assert(decreases_to!(node@ => child));
        }
        let ghost before = out@;
        let res = list_in_tree(sess, cw, out, Ghost(child));
        proof {
            assert(cs.skip(i as int)[0] == child);
            assert(cs.skip(i as int).subrange(1, cs.skip(i as int).len() as int) =~= cs.skip(
                i as int + 1,
            ));
        }
        match res {
            Ok(_) => {
                proof {
                    assert(text_views(out@) + listed_titles_all(cs.skip(i as int + 1))
                        =~= text_views(base) + listed_titles(node@)) by {
                        assert(text_views(out@) =~= text_views(before) + listed_titles(child));
                        assert(listed_titles_all(cs.skip(i as int)) =~= listed_titles(child)
                            + listed_titles_all(cs.skip(i as int + 1)));
                    }
                }
            },
            Err(e) => {
                return Err(e);
            },
        }
        i = i + 1;
    }
    proof {
        assert(cs.skip(cs.len() as int) =~= Seq::<WindowModel>::empty());
        assert(text_views(out@) =~= text_views(base) + listed_titles(node@));
    }
    Ok(())
}

} // verus!
