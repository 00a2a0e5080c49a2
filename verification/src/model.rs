//! The mathematical model of a desktop window system: the state the
//! operations act on, the window-lookup primitives, and the meaning of the
//! demote and restore operations.

use vstd::prelude::*;

verus! {

/// One window as the window system sees it: identity, the keys lookups go
/// by (title and class), hierarchy, geometry, decoration style, and
/// visibility.
#[verifier::ext_equal]
pub ghost struct WinView {
    /// OS identifier of the window; 0 stands for "no window".
    pub handle: usize,
    pub title: Seq<char>,
    pub class: Seq<char>,
    /// Handle of the parent window; 0 for a top-level window.
    pub parent: usize,
    pub left: int,
    pub top: int,
    pub right: int,
    pub bottom: int,
    /// Decoration/behaviour bit mask, at the platform's native word width.
    pub style: int,
    pub visible: bool,
}

/// The whole desktop: primary-screen metrics and every window, in
/// enumeration order.
#[verifier::ext_equal]
pub ghost struct DesktopView {
    pub screen_width: int,
    pub screen_height: int,
    pub wins: Seq<WinView>,
}

/// Class of the shell's desktop container window, the anchor of the
/// desktop hierarchy.
pub open spec fn progman_class() -> Seq<char> {
    "Progman"@
}

/// Class of the window that hosts the clickable desktop icons.
pub open spec fn def_view_class() -> Seq<char> {
    "SHELLDLL_DefView"@
}

/// Class of the shell's hidden worker surfaces.
pub open spec fn worker_class() -> Seq<char> {
    "WorkerW"@
}

/// Does window `w` pass a lookup filter? A `None` class or title matches
/// anything; the parent is always filtered, with 0 selecting top-level
/// windows.
pub open spec fn win_matches(
    w: WinView,
    parent: usize,
    class: Option<Seq<char>>,
    title: Option<Seq<char>>,
) -> bool {
    &&& w.parent == parent
    &&& match class {
        Option::None => true,
        Option::Some(c) => w.class == c,
    }
    &&& match title {
        Option::None => true,
        Option::Some(t) => w.title == t,
    }
}

/// Index of the first window at position `i` or later that passes the
/// filter; `wins.len()` if there is none.
pub open spec fn find_idx_from(
    wins: Seq<WinView>,
    i: nat,
    parent: usize,
    class: Option<Seq<char>>,
    title: Option<Seq<char>>,
) -> nat
    decreases wins.len() - i,
{
    if i >= wins.len() {
        wins.len()
    } else if win_matches(wins[i as int], parent, class, title) {
        i
    } else {
        find_idx_from(wins, i + 1, parent, class, title)
    }
}

/// Handle of the first window at position `i` or later that passes the
/// filter; 0 if there is none.
pub open spec fn find_from(
    wins: Seq<WinView>,
    i: nat,
    parent: usize,
    class: Option<Seq<char>>,
    title: Option<Seq<char>>,
) -> usize {
    let k = find_idx_from(wins, i, parent, class, title);
    if k < wins.len() {
        wins[k as int].handle
    } else {
        0
    }
}

/// Index of the first window with handle `h` at position `i` or later;
/// `wins.len()` if there is none.
pub open spec fn idx_from(wins: Seq<WinView>, i: nat, h: usize) -> nat
    decreases wins.len() - i,
{
    if i >= wins.len() {
        wins.len()
    } else if wins[i as int].handle == h {
        i
    } else {
        idx_from(wins, i + 1, h)
    }
}

/// Handles of the top-level windows from position `i` on, in enumeration
/// order.
pub open spec fn top_handles_from(wins: Seq<WinView>, i: nat) -> Seq<usize>
    decreases wins.len() - i,
{
    if i >= wins.len() {
        Seq::empty()
    } else if wins[i as int].parent == 0 {
        seq![wins[i as int].handle] + top_handles_from(wins, i + 1)
    } else {
        top_handles_from(wins, i + 1)
    }
}

/// Are the coordinates of `w` representable on the wire (32-bit), and its
/// width and height as well? True of every rectangle a real window system
/// reports.
pub open spec fn win_sane(w: WinView) -> bool {
    &&& i32::MIN <= w.left <= w.right <= i32::MAX
    &&& i32::MIN <= w.top <= w.bottom <= i32::MAX
    &&& w.right - w.left <= i32::MAX
    &&& w.bottom - w.top <= i32::MAX
    &&& isize::MIN <= w.style <= isize::MAX
}

impl DesktopView {
    /// Handle of the first top-level window titled `title`; 0 if none.
    pub open spec fn find_top_title(self, title: Seq<char>) -> usize {
        find_from(self.wins, 0, 0, Option::None, Option::Some(title))
    }

    /// Handle of the first top-level window of class `class`; 0 if none.
    pub open spec fn find_top_class(self, class: Seq<char>) -> usize {
        find_from(self.wins, 0, 0, Option::Some(class), Option::None)
    }

    /// Handle of the first child of `parent` titled `title`, any class;
    /// 0 if none. With `parent == 0` this searches top-level windows.
    pub open spec fn find_child_title(self, parent: usize, title: Seq<char>) -> usize {
        find_from(self.wins, 0, parent, Option::None, Option::Some(title))
    }

    /// Handle of the first child of `parent` of class `class`; 0 if none.
    pub open spec fn find_child_class(self, parent: usize, class: Seq<char>) -> usize {
        find_from(self.wins, 0, parent, Option::Some(class), Option::None)
    }

    /// Handle of the first top-level window of class `class` that comes
    /// strictly after the window `after` in enumeration order; 0 if none.
    pub open spec fn find_top_class_after(self, after: usize, class: Seq<char>) -> usize {
        find_from(self.wins, self.idx_of(after) + 1, 0, Option::Some(class), Option::None)
    }

    /// Position of the window with handle `h`; `self.wins.len()` if there
    /// is none.
    pub open spec fn idx_of(self, h: usize) -> nat {
        idx_from(self.wins, 0, h)
    }

    /// Is `h` the handle of some window on this desktop?
    pub open spec fn has_handle(self, h: usize) -> bool {
        self.idx_of(h) < self.wins.len()
    }

    /// The window with handle `h` (the first one, where handles repeat).
    pub open spec fn win(self, h: usize) -> WinView {
        self.wins[self.idx_of(h) as int]
    }

    /// Handles of all top-level windows, in enumeration order.
    pub open spec fn top_handles(self) -> Seq<usize> {
        top_handles_from(self.wins, 0)
    }

    /// The desktop with the window `h` replaced by `w`.
    pub open spec fn with_win(self, h: usize, w: WinView) -> DesktopView {
        DesktopView { wins: self.wins.update(self.idx_of(h) as int, w), ..self }
    }

    /// The desktop with the style bits of window `h` replaced.
    pub open spec fn with_style(self, h: usize, style: int) -> DesktopView {
        self.with_win(h, WinView { style, ..self.win(h) })
    }

    /// The desktop with the visibility of window `h` replaced.
    pub open spec fn with_visible(self, h: usize, visible: bool) -> DesktopView {
        self.with_win(h, WinView { visible, ..self.win(h) })
    }

    /// The desktop with the parent of window `h` replaced; parent 0 makes
    /// it top-level.
    pub open spec fn with_parent(self, h: usize, parent: usize) -> DesktopView {
        self.with_win(h, WinView { parent, ..self.win(h) })
    }

    /// The desktop with the bounding rectangle of window `h` replaced.
    pub open spec fn with_rect(self, h: usize, left: int, top: int, right: int, bottom: int) -> DesktopView {
        self.with_win(h, WinView { left, top, right, bottom, ..self.win(h) })
    }

    /// What every real desktop provides: non-negative screen metrics and
    /// windows whose geometry and style are representable.
    pub open spec fn sane(self) -> bool {
        &&& 0 <= self.screen_width <= i32::MAX
        &&& 0 <= self.screen_height <= i32::MAX
        &&& forall|i: int| 0 <= i < self.wins.len() ==> win_sane(#[trigger] self.wins[i])
    }

    /// Handles are nonzero and pairwise distinct, as the OS guarantees of
    /// live windows.
    pub open spec fn distinct_handles(self) -> bool {
        &&& forall|i: int| 0 <= i < self.wins.len() ==> (#[trigger] self.wins[i]).handle != 0
        &&& forall|i: int, j: int|
            0 <= i < self.wins.len() && 0 <= j < self.wins.len() && i != j
                ==> (#[trigger] self.wins[i]).handle != (#[trigger] self.wins[j]).handle
    }
}

/// The worker-surface scan over the top-level handles `hs`, from position
/// `i`: at the first window owning a desktop-icon-view child, the answer is
/// the first later top-level window of the worker class (which may not
/// exist, giving 0), and the scan stops; if no window owns an icon view,
/// the answer is 0.
pub open spec fn scan_worker(d: DesktopView, hs: Seq<usize>, i: nat) -> usize
    decreases hs.len() - i,
{
    if i >= hs.len() {
        0
    } else if d.find_child_class(hs[i as int], def_view_class()) != 0 {
        d.find_top_class_after(hs[i as int], worker_class())
    } else {
        scan_worker(d, hs, i + 1)
    }
}

/// Handle of the shell's worker surface on desktop `d`; 0 when the desktop
/// has none.
pub open spec fn worker_surface(d: DesktopView) -> usize {
    scan_worker(d, d.top_handles(), 0)
}

/// `find_idx_from` names the first position at `i` or later whose window
/// passes the filter, and `wins.len()` when none does.
pub proof fn lemma_find_idx_from(
    wins: Seq<WinView>,
    i: nat,
    parent: usize,
    class: Option<Seq<char>>,
    title: Option<Seq<char>>,
)
    requires
        i <= wins.len(),
    ensures
        ({
            let k = find_idx_from(wins, i, parent, class, title);
            &&& i <= k <= wins.len()
            &&& k < wins.len() ==> win_matches(wins[k as int], parent, class, title)
            &&& forall|j: int| i <= j < k ==> !win_matches(#[trigger] wins[j], parent, class, title)
        }),
    decreases wins.len() - i,
{
    if i < wins.len() && !win_matches(wins[i as int], parent, class, title) {
        lemma_find_idx_from(wins, i + 1, parent, class, title);
    }
}

/// `idx_from` names the first position at `i` or later whose window has
/// handle `h`, and `wins.len()` when none has.
pub proof fn lemma_idx_from(wins: Seq<WinView>, i: nat, h: usize)
    requires
        i <= wins.len(),
    ensures
        ({
            let k = idx_from(wins, i, h);
            &&& i <= k <= wins.len()
            &&& k < wins.len() ==> wins[k as int].handle == h
            &&& forall|j: int| i <= j < k ==> (#[trigger] wins[j]).handle != h
        }),
    decreases wins.len() - i,
{
    if i < wins.len() && wins[i as int].handle != h {
        lemma_idx_from(wins, i + 1, h);
    }
}

/// Sequences with pointwise-equal handles agree on `idx_from`.
pub proof fn lemma_idx_same_handles(w1: Seq<WinView>, w2: Seq<WinView>, i: nat, h: usize)
    requires
        w1.len() == w2.len(),
        forall|j: int| 0 <= j < w1.len() ==> (#[trigger] w1[j]).handle == w2[j].handle,
    ensures
        idx_from(w1, i, h) == idx_from(w2, i, h),
    decreases w1.len() - i,
{
    if i < w1.len() {
        lemma_idx_same_handles(w1, w2, i + 1, h);
    }
}

/// The handle of any window on the desktop passes `has_handle`.
pub proof fn lemma_handle_present(d: DesktopView, k: int)
    requires
        0 <= k < d.wins.len(),
    ensures
        d.has_handle(d.wins[k].handle),
{
    lemma_idx_from(d.wins, 0, d.wins[k].handle);
}

/// A nonzero lookup result is the handle of some window on the desktop.
pub proof fn lemma_find_valid(
    d: DesktopView,
    i: nat,
    parent: usize,
    class: Option<Seq<char>>,
    title: Option<Seq<char>>,
)
    requires
        i <= d.wins.len(),
    ensures
        find_from(d.wins, i, parent, class, title) != 0 ==> d.has_handle(
            find_from(d.wins, i, parent, class, title),
        ),
{
    lemma_find_idx_from(d.wins, i, parent, class, title);
    let k = find_idx_from(d.wins, i, parent, class, title);
    if k < d.wins.len() {
        lemma_handle_present(d, k as int);
    }
}

/// Replacing a window without changing its handle moves no window: every
/// position keeps its handle, every lookup by handle lands where it did,
/// and every other window is untouched.
pub proof fn lemma_with_win_preserves(d: DesktopView, h: usize, w: WinView)
    requires
        d.has_handle(h),
        w.handle == d.win(h).handle,
    ensures
        d.with_win(h, w).wins.len() == d.wins.len(),
        forall|j: int|
            0 <= j < d.wins.len() ==> (#[trigger] d.with_win(h, w).wins[j]).handle
                == d.wins[j].handle,
        forall|h2: usize| #[trigger] d.with_win(h, w).idx_of(h2) == d.idx_of(h2),
        forall|h2: usize| #[trigger] d.with_win(h, w).has_handle(h2) == d.has_handle(h2),
        d.with_win(h, w).win(h) == w,
        forall|h2: usize|
            h2 != h && d.has_handle(h2) ==> #[trigger] d.with_win(h, w).win(h2) == d.win(h2),
        d.with_win(h, w).screen_width == d.screen_width,
        d.with_win(h, w).screen_height == d.screen_height,
{
    let n = d.with_win(h, w);
    lemma_idx_from(d.wins, 0, h);
    assert forall|j: int| 0 <= j < d.wins.len() implies (#[trigger] n.wins[j]).handle
        == d.wins[j].handle by {}
    assert forall|h2: usize| #[trigger] n.idx_of(h2) == d.idx_of(h2) by {
        lemma_idx_same_handles(n.wins, d.wins, 0, h2);
    }
    assert forall|h2: usize| h2 != h && d.has_handle(h2) implies #[trigger] n.win(h2)
        == d.win(h2) by {
        lemma_idx_from(d.wins, 0, h2);
    }
}

/// Every entry of the top-level handle list is the handle of some window
/// on the desktop.
pub proof fn lemma_top_handles_from_valid(d: DesktopView, i: nat)
    requires
        i <= d.wins.len(),
    ensures
        forall|j: int|
            0 <= j < top_handles_from(d.wins, i).len() ==> d.has_handle(
                #[trigger] top_handles_from(d.wins, i)[j],
            ),
    decreases d.wins.len() - i,
{
    if i < d.wins.len() {
        lemma_top_handles_from_valid(d, i + 1);
        let s = top_handles_from(d.wins, i);
        let rest = top_handles_from(d.wins, i + 1);
        if d.wins[i as int].parent == 0 {
            lemma_handle_present(d, i as int);
            assert forall|j: int| 0 <= j < s.len() implies d.has_handle(#[trigger] s[j]) by {
                if j == 0 {
                    assert(s[j] == d.wins[i as int].handle);
                } else {
                    assert(s[j] == rest[j - 1]);
                }
            }
        } else {
            assert forall|j: int| 0 <= j < s.len() implies d.has_handle(#[trigger] s[j]) by {
                assert(s[j] == rest[j]);
            }
        }
    }
}

/// A nonzero worker-surface scan result is the handle of some top-level
/// window on the desktop.
pub proof fn lemma_scan_worker_top_level(d: DesktopView, hs: Seq<usize>, i: nat)
    ensures
        scan_worker(d, hs, i) != 0 ==> exists|k: int|
            0 <= k < d.wins.len() && (#[trigger] d.wins[k]).handle == scan_worker(d, hs, i)
                && d.wins[k].parent == 0,
    decreases hs.len() - i,
{
    if i < hs.len() {
        if d.find_child_class(hs[i as int], def_view_class()) != 0 {
            let start = d.idx_of(hs[i as int]) + 1;
            lemma_idx_from(d.wins, 0, hs[i as int]);
            if start <= d.wins.len() {
                lemma_find_idx_from(d.wins, start, 0, Option::Some(worker_class()), Option::None);
            }
        } else {
            lemma_scan_worker_top_level(d, hs, i + 1);
        }
    }
}

/// A nonzero worker-surface scan result is the handle of some window on
/// the desktop.
pub proof fn lemma_scan_worker_valid(d: DesktopView, hs: Seq<usize>, i: nat)
    ensures
        scan_worker(d, hs, i) != 0 ==> d.has_handle(scan_worker(d, hs, i)),
    decreases hs.len() - i,
{
    if i < hs.len() {
        if d.find_child_class(hs[i as int], def_view_class()) != 0 {
            let start = d.idx_of(hs[i as int]) + 1;
            lemma_idx_from(d.wins, 0, hs[i as int]);
            if start <= d.wins.len() {
                lemma_find_valid(d, start, 0, Option::Some(worker_class()), Option::None);
            }
        } else {
            lemma_scan_worker_valid(d, hs, i + 1);
        }
    }
}

} // verus!
