//! The two operations of the library — demoting a window behind the
//! desktop icons and restoring it — together with the worker-surface scan
//! they share, each verified against its meaning over [`DesktopView`].

use vstd::prelude::*;

use crate::model::{
    def_view_class, lemma_find_valid, lemma_scan_worker_valid, lemma_top_handles_from_valid,
    lemma_with_win_preserves, progman_class, scan_worker, win_sane, worker_surface, DesktopView,
    WinView,
};
use crate::system::WindowSystem;

verus! {

/// What a demotion captures and a restoration takes back: the window's
/// bounding box as left/top/width/height, and its original style bits at
/// the platform's native word width.
#[derive(Clone, Copy, Debug, PartialEq, Eq, Structural)]
pub struct CaptureRecord {
    pub window_x: i32,
    pub window_y: i32,
    pub window_width: i32,
    pub window_height: i32,
    pub window_style: isize,
}

/// The record a demotion of `title` on desktop `d` returns: the target's
/// rectangle and original style; `None` when the target or the shell root
/// is missing, in which case nothing is touched.
pub open spec fn spec_capture(d: DesktopView, title: Seq<char>) -> Option<CaptureRecord> {
    let h = d.find_top_title(title);
    let root = d.find_top_class(progman_class());
    if h == 0 || root == 0 {
        Option::None
    } else {
        let w = d.win(h);
        Option::Some(
            CaptureRecord {
                window_x: w.left as i32,
                window_y: w.top as i32,
                window_width: (w.right - w.left) as i32,
                window_height: (w.bottom - w.top) as i32,
                window_style: w.style as isize,
            },
        )
    }
}

/// The desktop after a demotion of `title`: the target stripped of its
/// style bits, shown, resized to fill the screen and reparented under the
/// shell root, and the worker surface found afterwards (if any) hidden.
/// A desktop whose target or shell root is missing is unchanged.
pub open spec fn spec_demote(d: DesktopView, title: Seq<char>) -> DesktopView {
    let h = d.find_top_title(title);
    let root = d.find_top_class(progman_class());
    if h == 0 || root == 0 {
        d
    } else {
        let d1 = d.with_style(h, 0).with_visible(h, true).with_rect(
            h,
            0,
            0,
            d.screen_width,
            d.screen_height,
        ).with_parent(h, root);
        let w = worker_surface(d1);
        if w == 0 {
            d1
        } else {
            d1.with_visible(w, false)
        }
    }
}

/// The desktop after a restoration of `title` from `rec`: the target —
/// looked up as a child of the shell root by title — detached to top-level,
/// given back its saved style, shown, and moved back to its saved
/// rectangle. A desktop where the lookup fails is unchanged. The worker
/// surface's visibility is not restored.
pub open spec fn spec_restore(d: DesktopView, title: Seq<char>, rec: CaptureRecord) -> DesktopView {
    let root = d.find_top_class(progman_class());
    let h = d.find_child_title(root, title);
    if h == 0 {
        d
    } else {
        d.with_parent(h, 0).with_style(h, rec.window_style as int).with_visible(h, true).with_rect(
            h,
            rec.window_x as int,
            rec.window_y as int,
            rec.window_x + rec.window_width,
            rec.window_y + rec.window_height,
        )
    }
}

/// Did the restoration of `title` on desktop `d` find its target?
pub open spec fn spec_restore_found(d: DesktopView, title: Seq<char>) -> bool {
    d.find_child_title(d.find_top_class(progman_class()), title) != 0
}

/// Resolve a window title to the handle of the first top-level window
/// bearing it exactly; 0 when no window does.
pub fn find_by_title<W: WindowSystem>(d: &W, title: &str) -> (h: usize)
    ensures
        h == d.desktop().find_top_title(title@),
{
    d.find_top_by_title(title)
}

/// Resolve the shell's desktop container window, the fixed root of the
/// desktop hierarchy; 0 when no shell is running.
pub fn find_shell_root<W: WindowSystem>(d: &W) -> (h: usize)
    ensures
        h == d.desktop().find_top_class(progman_class()),
{
    d.find_top_by_class("Progman")
}

/// Find the shell's worker surface: scan the top-level windows in
/// enumeration order for the one owning a desktop-icon-view child, and
/// return the first top-level window of the worker class after it. The
/// scan stops at the first owner; 0 means the desktop has no worker
/// surface.
pub fn find_worker_surface<W: WindowSystem>(d: &W) -> (h: usize)
    ensures
        h == worker_surface(d.desktop()),
{
    let ghost dv = d.desktop();
    let tops = d.top_level_handles();
    proof {
        lemma_top_handles_from_valid(dv, 0);
    }
    let mut i: usize = 0;
    while i < tops.len()
        invariant
            i <= tops.len(),
            tops@ == dv.top_handles(),
            dv == d.desktop(),
            scan_worker(dv, tops@, 0) == scan_worker(dv, tops@, i as nat),
            forall|j: int| 0 <= j < tops@.len() ==> dv.has_handle(#[trigger] tops@[j]),
        decreases tops.len() - i,
    {
        let cand = tops[i];
        let def_view = d.find_child_by_class(cand, "SHELLDLL_DefView");
        if def_view != 0 {
            let w = d.find_top_by_class_after(cand, "WorkerW");
            proof {
                assert(scan_worker(dv, tops@, i as nat) == dv.find_top_class_after(
                    cand,
                    "WorkerW"@,
                ));
            }
            return w;
        }
        proof {
            assert(scan_worker(dv, tops@, i as nat) == scan_worker(dv, tops@, (i + 1) as nat));
        }
        i += 1;
    }
    0
}

/// Demote the top-level window titled `title`: capture its style and
/// rectangle, strip its style bits, show it, resize it to fill the primary
/// screen, nudge the shell, reparent it under the shell root, and hide the
/// worker surface the scan then finds, so the demoted window shows in its
/// place.
///
/// Returns the capture — rectangle and original style bits, taken before
/// anything was changed — or `None`, with the desktop untouched, when the
/// title or the shell root resolves to no window.
pub fn set_background_window<W: WindowSystem>(d: &mut W, title: &str) -> (r: Option<CaptureRecord>)
    requires
        old(d).desktop().sane(),
    ensures
        final(d).desktop() == spec_demote(old(d).desktop(), title@),
        r == spec_capture(old(d).desktop(), title@),
{
    let ghost d0 = d.desktop();
    let h = find_by_title(d, title);
    if h == 0 {
        return Option::None;
    }
    let root = find_shell_root(d);
    if root == 0 {
        return Option::None;
    }
    proof {
        lemma_find_valid(d0, 0, 0, Option::None, Option::Some(title@));
        assert(win_sane(d0.wins[d0.idx_of(h) as int]));
    }
    let rect = d.window_rect(h);
    let style = d.window_style(h);
    let (sw, sh) = d.screen_size();
    d.set_window_style(h, 0);
    proof {
        lemma_with_win_preserves(d0, h, WinView { style: 0, ..d0.win(h) });
    }
    let ghost da = d.desktop();
    d.show_window(h);
    proof {
        lemma_with_win_preserves(da, h, WinView { visible: true, ..da.win(h) });
    }
    let ghost db = d.desktop();
    d.move_window(h, 0, 0, sw, sh);
    proof {
        lemma_with_win_preserves(
            db,
            h,
            WinView { left: 0, top: 0, right: sw as int, bottom: sh as int, ..db.win(h) },
        );
    }
    d.refresh_shell(root);
    d.set_window_parent(h, root);
    let w = find_worker_surface(d);
    if w != 0 {
        proof {
            lemma_scan_worker_valid(d.desktop(), d.desktop().top_handles(), 0);
        }
        d.hide_window(w);
    }
    Option::Some(
        CaptureRecord {
            window_x: rect.0,
            window_y: rect.1,
            window_width: rect.2 - rect.0,
            window_height: rect.3 - rect.1,
            window_style: style,
        },
    )
}

/// Restore the window titled `title` — looked up as a child of the shell
/// root, where a demotion left it — from the capture `rec`: detach it back
/// to top-level, reapply the saved style bits verbatim, show it, and move
/// it back to its saved rectangle.
///
/// Returns whether the target was found; a desktop where the lookup fails
/// is left untouched. The worker surface's visibility is never restored.
pub fn resume_background_window<W: WindowSystem>(
    d: &mut W,
    title: &str,
    rec: &CaptureRecord,
) -> (r: bool)
    requires
        0 <= rec.window_width,
        0 <= rec.window_height,
        rec.window_x + rec.window_width <= i32::MAX,
        rec.window_y + rec.window_height <= i32::MAX,
    ensures
        final(d).desktop() == spec_restore(old(d).desktop(), title@, *rec),
        r == spec_restore_found(old(d).desktop(), title@),
{
    let ghost d0 = d.desktop();
    let root = find_shell_root(d);
    let h = d.find_child_by_title(root, title);
    if h == 0 {
        return false;
    }
    proof {
        lemma_find_valid(d0, 0, root, Option::None, Option::Some(title@));
    }
    d.set_window_parent(h, 0);
    proof {
        lemma_with_win_preserves(d0, h, WinView { parent: 0, ..d0.win(h) });
    }
    let ghost da = d.desktop();
    d.set_window_style(h, rec.window_style);
    proof {
        lemma_with_win_preserves(da, h, WinView { style: rec.window_style as int, ..da.win(h) });
    }
    let ghost db = d.desktop();
    d.show_window(h);
    proof {
        lemma_with_win_preserves(db, h, WinView { visible: true, ..db.win(h) });
    }
    d.move_window(h, rec.window_x, rec.window_y, rec.window_width, rec.window_height);
    true
}

} // verus!
