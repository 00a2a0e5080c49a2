//! The laws of the protocol: a demotion captures the original state before
//! changing anything, a failed lookup changes nothing, and restoring from
//! the capture puts the window back exactly — modulo the worker surface's
//! visibility, which is a deliberate one-way effect.

use vstd::prelude::*;

use crate::model::{
    find_idx_from, lemma_find_idx_from, lemma_find_valid, lemma_handle_present,
    lemma_idx_from, lemma_idx_same_handles, lemma_scan_worker_top_level, lemma_scan_worker_valid,
    lemma_with_win_preserves, progman_class, win_matches, win_sane, worker_surface, DesktopView,
    WinView,
};
use crate::ops::{spec_capture, spec_demote, spec_restore, spec_restore_found};

verus! {

/// Windows `a` and `b` agree on everything that is not visibility:
/// identity, lookup keys, hierarchy, geometry and style.
pub open spec fn same_modulo_visibility(a: WinView, b: WinView) -> bool {
    &&& b.handle == a.handle
    &&& b.title == a.title
    &&& b.class == a.class
    &&& b.parent == a.parent
    &&& b.left == a.left
    &&& b.top == a.top
    &&& b.right == a.right
    &&& b.bottom == a.bottom
    &&& b.style == a.style
}

/// At most one window of `d` bears this title.
pub open spec fn title_unique(d: DesktopView, title: Seq<char>) -> bool {
    forall|i: int, j: int|
        0 <= i < d.wins.len() && 0 <= j < d.wins.len() && (#[trigger] d.wins[i]).title == title
            && (#[trigger] d.wins[j]).title == title ==> i == j
}

/// Demoting a title that resolves to no window captures nothing and leaves
/// the desktop exactly as it was: no partial reparenting occurs.
pub proof fn lemma_demote_missing_target(d: DesktopView, title: Seq<char>)
    requires
        d.find_top_title(title) == 0,
    ensures
        spec_demote(d, title) == d,
        spec_capture(d, title) is None,
{
}

/// A demotion captures the target's original style bits, before they are
/// zeroed: the captured style is zero exactly when the window's true
/// original style was zero.
pub proof fn lemma_capture_original_style(d: DesktopView, title: Seq<char>)
    requires
        d.sane(),
        d.find_top_title(title) != 0,
        d.find_top_class(progman_class()) != 0,
    ensures
        spec_capture(d, title) is Some,
        spec_capture(d, title)->Some_0.window_style == d.win(d.find_top_title(title)).style,
        spec_capture(d, title)->Some_0.window_style == 0 <==> d.win(
            d.find_top_title(title),
        ).style == 0,
{
    let h = d.find_top_title(title);
    lemma_find_valid(d, 0, 0, Option::None, Option::Some(title));
    assert(win_sane(d.wins[d.idx_of(h) as int]));
}

/// The round trip: demoting a window and restoring it from the very record
/// the demotion returned puts it back with its original style, rectangle
/// and (top-level) parent. Beyond the target's visibility and the hidden
/// worker surface, this is a full inversion for the target window.
///
/// The title must name exactly one window, and not the shell root itself:
/// a capture applied after the title has moved to another window is a
/// caller error the protocol cannot detect.
pub proof fn lemma_demote_restore_round_trip(d: DesktopView, title: Seq<char>)
    requires
        d.sane(),
        d.distinct_handles(),
        title_unique(d, title),
        d.find_top_title(title) != 0,
        d.find_top_class(progman_class()) != 0,
        d.find_top_title(title) != d.find_top_class(progman_class()),
    ensures
        spec_capture(d, title) is Some,
        spec_restore_found(spec_demote(d, title), title),
        ({
            let h = d.find_top_title(title);
            let d3 = spec_restore(spec_demote(d, title), title, spec_capture(d, title)->Some_0);
            &&& d3.has_handle(h)
            &&& d3.win(h).handle == h
            &&& d3.win(h).style == d.win(h).style
            &&& d3.win(h).left == d.win(h).left
            &&& d3.win(h).top == d.win(h).top
            &&& d3.win(h).right == d.win(h).right
            &&& d3.win(h).bottom == d.win(h).bottom
            &&& d3.win(h).parent == d.win(h).parent
            &&& d3.win(h).title == d.win(h).title
            &&& d3.win(h).class == d.win(h).class
            &&& d3.wins.len() == d.wins.len()
            &&& forall|i: int|
                0 <= i < d.wins.len() ==> same_modulo_visibility(
                    #[trigger] d.wins[i],
                    d3.wins[i],
                )
        }),
{
    let wins = d.wins;
    let n = wins.len() as int;
    let h = d.find_top_title(title);
    let root = d.find_top_class(progman_class());

    // Where the target and the shell root live.
    lemma_find_idx_from(wins, 0, 0, Option::None, Option::Some(title));
    let kt = find_idx_from(wins, 0, 0, Option::None, Option::Some(title)) as int;
    assert(kt < n && wins[kt].handle == h && wins[kt].parent == 0 && wins[kt].title == title);
    lemma_find_idx_from(wins, 0, 0, Option::Some(progman_class()), Option::None);
    let kr = find_idx_from(wins, 0, 0, Option::Some(progman_class()), Option::None) as int;
    assert(kr < n && wins[kr].handle == root && wins[kr].parent == 0 && wins[kr].class
        == progman_class());
    assert(kt != kr);
    assert(root != 0);
    lemma_handle_present(d, kt);
    lemma_idx_from(wins, 0, h);
    assert(d.idx_of(h) == kt) by {
        let k = d.idx_of(h) as int;
        assert(wins[k].handle == wins[kt].handle);
    }
    let w0 = d.win(h);
    assert(w0 == wins[kt]);
    assert(win_sane(w0));
    assert(w0.parent == 0);

    // The capture holds the original state exactly.
    let rec = spec_capture(d, title)->Some_0;
    assert(rec.window_x == w0.left && rec.window_y == w0.top);
    assert(rec.window_width == w0.right - w0.left && rec.window_height == w0.bottom - w0.top);
    assert(rec.window_style == w0.style);

    // The demotion, step by step: the target's entry becomes `wfin`, and
    // no other entry moves.
    let wfin = WinView {
        handle: h,
        title: w0.title,
        class: w0.class,
        parent: root,
        left: 0,
        top: 0,
        right: d.screen_width,
        bottom: d.screen_height,
        style: 0,
        visible: true,
    };
    let e1 = d.with_style(h, 0);
    lemma_with_win_preserves(d, h, WinView { style: 0, ..w0 });
    let e2 = e1.with_visible(h, true);
    lemma_with_win_preserves(e1, h, WinView { visible: true, ..e1.win(h) });
    let e3 = e2.with_rect(h, 0, 0, d.screen_width, d.screen_height);
    lemma_with_win_preserves(
        e2,
        h,
        WinView {
            left: 0,
            top: 0,
            right: d.screen_width,
            bottom: d.screen_height,
            ..e2.win(h)
        },
    );
    let d1 = e3.with_parent(h, root);
    lemma_with_win_preserves(e3, h, WinView { parent: root, ..e3.win(h) });
    assert(e1.idx_of(h) == kt && e2.idx_of(h) == kt && e3.idx_of(h) == kt && d1.idx_of(h) == kt);
    assert(d1.win(h) == wfin);
    assert(d1.wins =~= wins.update(kt, wfin));
    assert(d1.wins.len() == n);
    assert(d1.screen_width == d.screen_width && d1.screen_height == d.screen_height);
    assert(forall|i: int| 0 <= i < n ==> (#[trigger] d1.wins[i]).handle == wins[i].handle);

    // The worker surface the scan then finds — if any — is a top-level
    // window, so hiding it does not touch the target, which now sits under
    // the shell root.
    let wk = worker_surface(d1);
    let d2 = spec_demote(d, title);
    if wk == 0 {
        assert(d2 == d1);
    } else {
        lemma_scan_worker_valid(d1, d1.top_handles(), 0);
        lemma_scan_worker_top_level(d1, d1.top_handles(), 0);
        let kw0 = choose|k: int|
            0 <= k < d1.wins.len() && (#[trigger] d1.wins[k]).handle == wk && d1.wins[k].parent
                == 0;
        assert(wk != h) by {
            if wk == h {
                assert(d1.wins[kw0].handle == d1.wins[kt].handle);
                assert(kw0 == kt);
            }
        }
        assert(d2 == d1.with_visible(wk, false));
        lemma_with_win_preserves(d1, wk, WinView { visible: false, ..d1.win(wk) });
        assert(d2.win(h) == wfin);
    }
    assert(d2.wins.len() == n);
    assert(forall|i: int| 0 <= i < n ==> same_modulo_visibility(#[trigger] d1.wins[i], d2.wins[i]));
    assert(forall|i: int| 0 <= i < n ==> (#[trigger] d2.wins[i]).handle == d1.wins[i].handle);
    assert(forall|i: int| 0 <= i < n ==> (#[trigger] d2.wins[i]).title == d1.wins[i].title);
    assert(forall|i: int| 0 <= i < n ==> (#[trigger] d2.wins[i]).class == d1.wins[i].class);
    assert(forall|i: int| 0 <= i < n ==> (#[trigger] d2.wins[i]).parent == d1.wins[i].parent);
    assert(d2.win(h) == wfin) by {
        lemma_idx_same_handles(d2.wins, d1.wins, 0, h);
    }
    assert(d2.idx_of(h) == kt);
    assert(d2.screen_width == d.screen_width && d2.screen_height == d.screen_height);

    // The restoration's lookups land back on the shell root and on the
    // demoted target.
    lemma_find_idx_from(d2.wins, 0, 0, Option::Some(progman_class()), Option::None);
    let kr2 = find_idx_from(d2.wins, 0, 0, Option::Some(progman_class()), Option::None) as int;
    assert(win_matches(d2.wins[kr], 0, Option::Some(progman_class()), Option::None)) by {
        assert(d2.wins[kr].parent == d1.wins[kr].parent && d2.wins[kr].class == d1.wins[kr].class);
        assert(d1.wins[kr] == wins.update(kt, wfin)[kr]);
    }
    assert forall|j: int| 0 <= j < kr implies !win_matches(
        #[trigger] d2.wins[j],
        0,
        Option::Some(progman_class()),
        Option::None,
    ) by {
        if j == kt {
            assert(d2.wins[j].parent == root);
        } else {
            assert(d2.wins[j].parent == wins[j].parent && d2.wins[j].class == wins[j].class);
            assert(!win_matches(wins[j], 0, Option::Some(progman_class()), Option::None));
        }
    }
    assert(kr2 == kr);
    assert(d2.find_top_class(progman_class()) == root);

    lemma_find_idx_from(d2.wins, 0, root, Option::None, Option::Some(title));
    let kh2 = find_idx_from(d2.wins, 0, root, Option::None, Option::Some(title)) as int;
    assert(win_matches(d2.wins[kt], root, Option::None, Option::Some(title)));
    assert forall|j: int| 0 <= j < kt implies !win_matches(
        #[trigger] d2.wins[j],
        root,
        Option::None,
        Option::Some(title),
    ) by {
        if d2.wins[j].title == title {
            assert(d1.wins[j].title == title);
            assert(wins.update(kt, wfin)[j].title == title);
            assert(wins[j].title == title);
            assert(wins[kt].title == title);
            assert(j == kt);
        }
    }
    assert(kh2 == kt);
    assert(d2.find_child_title(root, title) == h);
    assert(spec_restore_found(d2, title));

    // The restoration, step by step: the target's entry returns to its
    // original geometry, style and top-level status.
    let rfin = WinView {
        handle: h,
        title: w0.title,
        class: w0.class,
        parent: 0,
        left: w0.left,
        top: w0.top,
        right: w0.right,
        bottom: w0.bottom,
        style: w0.style,
        visible: true,
    };
    let r1 = d2.with_parent(h, 0);
    lemma_with_win_preserves(d2, h, WinView { parent: 0, ..d2.win(h) });
    let r2 = r1.with_style(h, rec.window_style as int);
    lemma_with_win_preserves(r1, h, WinView { style: rec.window_style as int, ..r1.win(h) });
    let r3 = r2.with_visible(h, true);
    lemma_with_win_preserves(r2, h, WinView { visible: true, ..r2.win(h) });
    let d3 = r3.with_rect(
        h,
        rec.window_x as int,
        rec.window_y as int,
        rec.window_x + rec.window_width,
        rec.window_y + rec.window_height,
    );
    lemma_with_win_preserves(
        r3,
        h,
        WinView {
            left: rec.window_x as int,
            top: rec.window_y as int,
            right: rec.window_x + rec.window_width,
            bottom: rec.window_y + rec.window_height,
            ..r3.win(h)
        },
    );
    assert(d3 == spec_restore(d2, title, rec));
    assert(d3.win(h) == rfin);
    assert(d3.has_handle(h));

    // Over the whole round trip, every window — the target included —
    // keeps its identity, keys, hierarchy, geometry and style; only
    // visibilities may have changed.
    assert(r1.idx_of(h) == kt && r2.idx_of(h) == kt && r3.idx_of(h) == kt && d3.idx_of(h) == kt);
    assert(d3.wins =~= d2.wins.update(kt, rfin));
    assert forall|i: int| 0 <= i < n implies same_modulo_visibility(
        #[trigger] wins[i],
        d3.wins[i],
    ) by {
        if i == kt {
            assert(d3.wins[i] == rfin);
        } else {
            assert(d3.wins[i] == d2.wins[i]);
            assert(d1.wins[i] == wins[i]);
        }
    }
}

} // verus!
