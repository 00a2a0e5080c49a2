//! A verified in-memory window system: an implementation of
//! [`WindowSystem`] whose state is exactly a [`DesktopView`], for driving
//! the protocol against desktops built by hand.

use vstd::prelude::*;

use crate::model::{
    idx_from, lemma_idx_from, top_handles_from, win_matches, find_from, find_idx_from,
    DesktopView, WinView,
};
use crate::system::WindowSystem;

verus! {

/// One window of a [`FakeDesktop`].
#[derive(Clone, Debug, PartialEq)]
pub struct FakeWindow {
    handle: usize,
    title: String,
    class: String,
    parent: usize,
    left: i32,
    top: i32,
    right: i32,
    bottom: i32,
    style: isize,
    visible: bool,
}

impl FakeWindow {
    /// The window this entry stands for.
    pub closed spec fn win_view(self) -> WinView {
        WinView {
            handle: self.handle,
            title: self.title@,
            class: self.class@,
            parent: self.parent,
            left: self.left as int,
            top: self.top as int,
            right: self.right as int,
            bottom: self.bottom as int,
            style: self.style as int,
            visible: self.visible,
        }
    }
}

/// An in-memory desktop: screen metrics and windows in enumeration order,
/// built through [`FakeDesktop::add_window`].
#[derive(Clone, Debug, PartialEq)]
pub struct FakeDesktop {
    screen_width: i32,
    screen_height: i32,
    wins: Vec<FakeWindow>,
}

/// The view of an optional lookup string.
pub open spec fn opt_sview(o: Option<String>) -> Option<Seq<char>> {
    match o {
        Option::None => Option::None,
        Option::Some(s) => Option::Some(s@),
    }
}

/// The desktops `a` and `b` agree everywhere but at the window `h`, whose
/// entry in `b` reads as `w`: then `b` is `a` with that window replaced.
proof fn lemma_desktop_update(a: FakeDesktop, b: FakeDesktop, h: usize, w: WinView)
    requires
        a.desktop().has_handle(h),
        a.wins@.len() == b.wins@.len(),
        forall|i: int|
            0 <= i < a.wins@.len() && i != a.desktop().idx_of(h) ==> b.wins@[i] == a.wins@[i],
        b.wins@[a.desktop().idx_of(h) as int].win_view() == w,
        b.screen_width == a.screen_width,
        b.screen_height == a.screen_height,
    ensures
        b.desktop() == a.desktop().with_win(h, w),
{
    let av = a.desktop();
    let bv = b.desktop();
    let j = av.idx_of(h) as int;
    assert forall|i: int| 0 <= i < bv.wins.len() implies bv.wins[i] == av.with_win(h, w).wins[i] by {
        if i != j {
            assert(b.wins@[i] == a.wins@[i]);
        }
    }
    assert(bv.wins =~= av.with_win(h, w).wins);
    assert(bv =~= av.with_win(h, w));
}

impl WindowSystem for FakeDesktop {
    closed spec fn desktop(&self) -> DesktopView {
        DesktopView {
            screen_width: self.screen_width as int,
            screen_height: self.screen_height as int,
            wins: self.wins@.map_values(|w: FakeWindow| w.win_view()),
        }
    }

    fn screen_size(&self) -> (r: (i32, i32)) {
        (self.screen_width, self.screen_height)
    }

    fn find_top_by_title(&self, title: &str) -> (h: usize) {
        let t: Option<String> = Option::Some(title.to_owned());
        let c: Option<String> = Option::None;
        self.scan_from(0, 0, &c, &t)
    }

    fn find_top_by_class(&self, class: &str) -> (h: usize) {
        let t: Option<String> = Option::None;
        let c: Option<String> = Option::Some(class.to_owned());
        self.scan_from(0, 0, &c, &t)
    }

    fn find_child_by_title(&self, parent: usize, title: &str) -> (h: usize) {
        let t: Option<String> = Option::Some(title.to_owned());
        let c: Option<String> = Option::None;
        self.scan_from(0, parent, &c, &t)
    }

    fn find_child_by_class(&self, parent: usize, class: &str) -> (h: usize) {
        let t: Option<String> = Option::None;
        let c: Option<String> = Option::Some(class.to_owned());
        self.scan_from(0, parent, &c, &t)
    }

    fn find_top_by_class_after(&self, after: usize, class: &str) -> (h: usize) {
        let j = self.index_of(after);
        let t: Option<String> = Option::None;
        let c: Option<String> = Option::Some(class.to_owned());
        self.scan_from(j + 1, 0, &c, &t)
    }

    fn top_level_handles(&self) -> (v: Vec<usize>) {
        let ghost dw = self.desktop().wins;
        let mut v: Vec<usize> = Vec::new();
        let mut j: usize = 0;
        while j < self.wins.len()
            invariant
                j <= self.wins.len(),
                dw == self.desktop().wins,
                self.desktop().top_handles() == v@ + top_handles_from(dw, j as nat),
            decreases self.wins.len() - j,
        {
            let ghost v0 = v@;
            if self.wins[j].parent == 0 {
                v.push(self.wins[j].handle);
                proof {
                    assert(top_handles_from(dw, j as nat) == seq![dw[j as int].handle]
                        + top_handles_from(dw, (j + 1) as nat));
                    assert(v0 + (seq![dw[j as int].handle] + top_handles_from(
                        dw,
                        (j + 1) as nat,
                    )) =~= v@ + top_handles_from(dw, (j + 1) as nat));
                }
            }
            j += 1;
        }
        proof {
            assert(v@ + top_handles_from(dw, j as nat) =~= v@);
        }
        v
    }

    fn window_rect(&self, h: usize) -> (r: (i32, i32, i32, i32)) {
        let j = self.index_of(h);
        let w = &self.wins[j];
        (w.left, w.top, w.right, w.bottom)
    }

    fn window_style(&self, h: usize) -> (s: isize) {
        let j = self.index_of(h);
        self.wins[j].style
    }

    fn set_window_style(&mut self, h: usize, style: isize) {
        let j = self.index_of(h);
        self.wins[j].style = style;
        proof {
            lemma_desktop_update(
                *old(self),
                *self,
                h,
                WinView { style: style as int, ..old(self).desktop().win(h) },
            );
        }
    }

    fn set_window_parent(&mut self, h: usize, parent: usize) {
        let j = self.index_of(h);
        self.wins[j].parent = parent;
        proof {
            lemma_desktop_update(
                *old(self),
                *self,
                h,
                WinView { parent, ..old(self).desktop().win(h) },
            );
        }
    }

    fn move_window(&mut self, h: usize, x: i32, y: i32, w: i32, hh: i32) {
        let j = self.index_of(h);
        self.wins[j].left = x;
        self.wins[j].top = y;
        self.wins[j].right = x + w;
        self.wins[j].bottom = y + hh;
        proof {
            lemma_desktop_update(
                *old(self),
                *self,
                h,
                WinView {
                    left: x as int,
                    top: y as int,
                    right: x + w,
                    bottom: y + hh,
                    ..old(self).desktop().win(h)
                },
            );
        }
    }

    fn show_window(&mut self, h: usize) {
        let j = self.index_of(h);
        self.wins[j].visible = true;
        proof {
            lemma_desktop_update(
                *old(self),
                *self,
                h,
                WinView { visible: true, ..old(self).desktop().win(h) },
            );
        }
    }

    fn hide_window(&mut self, h: usize) {
        let j = self.index_of(h);
        self.wins[j].visible = false;
        proof {
            lemma_desktop_update(
                *old(self),
                *self,
                h,
                WinView { visible: false, ..old(self).desktop().win(h) },
            );
        }
    }

    fn refresh_shell(&mut self, root: usize) {
    }
}

impl FakeDesktop {
    /// An empty desktop with the given primary-screen metrics.
    pub fn new(screen_width: i32, screen_height: i32) -> (d: FakeDesktop)
        requires
            0 <= screen_width,
            0 <= screen_height,
        ensures
            d.desktop() == (DesktopView {
                screen_width: screen_width as int,
                screen_height: screen_height as int,
                wins: Seq::<WinView>::empty(),
            }),
            d.desktop().sane(),
            d.desktop().distinct_handles(),
    {
        let d = FakeDesktop { screen_width, screen_height, wins: Vec::new() };
        proof {
            assert(d.desktop().wins =~= Seq::<WinView>::empty());
            assert(d.desktop() =~= (DesktopView {
                screen_width: screen_width as int,
                screen_height: screen_height as int,
                wins: Seq::<WinView>::empty(),
            }));
        }
        d
    }

    /// Append a window, in enumeration order. Refused — leaving the
    /// desktop unchanged — when the handle is 0 or already present, or the
    /// rectangle is not one a window system could report.
    pub fn add_window(
        &mut self,
        handle: usize,
        title: String,
        class: String,
        parent: usize,
        left: i32,
        top: i32,
        right: i32,
        bottom: i32,
        style: isize,
        visible: bool,
    ) -> (ok: bool)
        ensures
            ok == (handle != 0 && !old(self).desktop().has_handle(handle) && left <= right
                && top <= bottom && right - left <= i32::MAX && bottom - top <= i32::MAX),
            ok ==> final(self).desktop() == (DesktopView {
                wins: old(self).desktop().wins.push(
                    WinView {
                        handle,
                        title: title@,
                        class: class@,
                        parent,
                        left: left as int,
                        top: top as int,
                        right: right as int,
                        bottom: bottom as int,
                        style: style as int,
                        visible,
                    },
                ),
                ..old(self).desktop()
            }),
            !ok ==> *final(self) == *old(self),
            old(self).desktop().sane() && ok ==> final(self).desktop().sane(),
            old(self).desktop().distinct_handles() && ok ==> final(self).desktop().distinct_handles(),
    {
        let ghost d0 = self.desktop();
        let fits_w = (right as i64) - (left as i64) <= (i32::MAX as i64);
        let fits_h = (bottom as i64) - (top as i64) <= (i32::MAX as i64);
        let ok = handle != 0 && !self.has_window(handle) && left <= right && top <= bottom
            && fits_w && fits_h;
        if ok {
            let ghost wg = WinView {
                handle,
                title: title@,
                class: class@,
                parent,
                left: left as int,
                top: top as int,
                right: right as int,
                bottom: bottom as int,
                style: style as int,
                visible,
            };
            self.wins.push(
                FakeWindow {
                    handle,
                    title,
                    class,
                    parent,
                    left,
                    top,
                    right,
                    bottom,
                    style,
                    visible,
                },
            );
            proof {
                let nv = self.desktop();
                assert(nv.wins =~= d0.wins.push(wg));
                assert(nv =~= (DesktopView { wins: d0.wins.push(wg), ..d0 }));
                lemma_idx_from(d0.wins, 0, handle);
                if d0.sane() {
                    assert forall|i: int|
                        0 <= i < nv.wins.len() implies crate::model::win_sane(
                        #[trigger] nv.wins[i],
                    ) by {
                        if i < d0.wins.len() {
                            assert(nv.wins[i] == d0.wins[i]);
                        } else {
                            assert(nv.wins[i] == wg);
                        }
                    }
                }
                if d0.distinct_handles() {
                    assert forall|i: int, j: int|
                        0 <= i < nv.wins.len() && 0 <= j < nv.wins.len() && i != j implies (
                        #[trigger] nv.wins[i]).handle != (#[trigger] nv.wins[j]).handle by {
                        if i < d0.wins.len() && j < d0.wins.len() {
                            assert(nv.wins[i] == d0.wins[i]);
                            assert(nv.wins[j] == d0.wins[j]);
                        }
                    }
                }
            }
            true
        } else {
            false
        }
    }

    /// Is `h` the handle of some window on this desktop?
    pub fn has_window(&self, h: usize) -> (b: bool)
        ensures
            b == self.desktop().has_handle(h),
    {
        let ghost dw = self.desktop().wins;
        let mut j: usize = 0;
        while j < self.wins.len()
            invariant
                j <= self.wins.len(),
                dw == self.desktop().wins,
                idx_from(dw, 0, h) == idx_from(dw, j as nat, h),
            decreases self.wins.len() - j,
        {
            if self.wins[j].handle == h {
                proof {
                    assert(idx_from(dw, j as nat, h) == j as nat);
                }
                return true;
            }
            proof {
                assert(idx_from(dw, j as nat, h) == idx_from(dw, (j + 1) as nat, h));
            }
            j += 1;
        }
        proof {
            assert(idx_from(dw, j as nat, h) == dw.len());
        }
        false
    }

    /// Position of the window with handle `h` in enumeration order.
    fn index_of(&self, h: usize) -> (j: usize)
        requires
            self.desktop().has_handle(h),
        ensures
            j as nat == self.desktop().idx_of(h),
            j < self.wins.len(),
    {
        let ghost dw = self.desktop().wins;
        let mut j: usize = 0;
        while j < self.wins.len()
            invariant
                j <= self.wins.len(),
                dw == self.desktop().wins,
                idx_from(dw, 0, h) == idx_from(dw, j as nat, h),
            decreases self.wins.len() - j,
        {
            if self.wins[j].handle == h {
                proof {
                    assert(idx_from(dw, j as nat, h) == j as nat);
                }
                return j;
            }
            proof {
                assert(idx_from(dw, j as nat, h) == idx_from(dw, (j + 1) as nat, h));
            }
            j += 1;
        }
        proof {
            assert(idx_from(dw, j as nat, h) == dw.len());
            assert(false);
        }
        0
    }

    /// The lookup primitive all finds share: handle of the first window at
    /// position `start` or later that has parent `parent` and, where
    /// given, the class and the title; 0 if there is none.
    fn scan_from(
        &self,
        start: usize,
        parent: usize,
        class: &Option<String>,
        title: &Option<String>,
    ) -> (h: usize)
        ensures
            h == find_from(self.desktop().wins, start as nat, parent, opt_sview(*class), opt_sview(*title)),
    {
        let ghost dw = self.desktop().wins;
        let ghost pc = opt_sview(*class);
        let ghost pt = opt_sview(*title);
        let mut i: usize = start;
        while i < self.wins.len()
            invariant
                start <= i,
                dw == self.desktop().wins,
                pc == opt_sview(*class),
                pt == opt_sview(*title),
                find_idx_from(dw, start as nat, parent, pc, pt) == find_idx_from(
                    dw,
                    i as nat,
                    parent,
                    pc,
                    pt,
                ),
            decreases self.wins.len() - i,
        {
            let w = &self.wins[i];
            let parent_ok = w.parent == parent;
            let class_ok = match class {
                Option::None => true,
                Option::Some(c) => w.class.eq(c),
            };
            let title_ok = match title {
                Option::None => true,
                Option::Some(t) => w.title.eq(t),
            };
            if parent_ok && class_ok && title_ok {
                proof {
                    assert(win_matches(dw[i as int], parent, pc, pt));
                    assert(find_idx_from(dw, i as nat, parent, pc, pt) == i as nat);
                }
                return w.handle;
            }
            proof {
                assert(!win_matches(dw[i as int], parent, pc, pt));
                assert(find_idx_from(dw, i as nat, parent, pc, pt) == find_idx_from(
                    dw,
                    (i + 1) as nat,
                    parent,
                    pc,
                    pt,
                ));
            }
            i += 1;
        }
        proof {
            assert(find_idx_from(dw, i as nat, parent, pc, pt) == dw.len());
        }
        0
    }

    /// How many windows the desktop holds.
    pub fn window_count(&self) -> (n: usize)
        ensures
            n == self.desktop().wins.len(),
    {
        self.wins.len()
    }

    /// Style bits of the window with handle `h`, if it exists.
    pub fn style_of(&self, h: usize) -> (r: Option<isize>)
        ensures
            r == if self.desktop().has_handle(h) {
                Option::Some(self.desktop().win(h).style as isize)
            } else {
                Option::<isize>::None
            },
    {
        if self.has_window(h) {
            let j = self.index_of(h);
            Option::Some(self.wins[j].style)
        } else {
            Option::None
        }
    }

    /// Bounding rectangle (left, top, right, bottom) of the window with
    /// handle `h`, if it exists.
    pub fn rect_of(&self, h: usize) -> (r: Option<(i32, i32, i32, i32)>)
        ensures
            r == if self.desktop().has_handle(h) {
                Option::Some(
                    (
                        self.desktop().win(h).left as i32,
                        self.desktop().win(h).top as i32,
                        self.desktop().win(h).right as i32,
                        self.desktop().win(h).bottom as i32,
                    ),
                )
            } else {
                Option::<(i32, i32, i32, i32)>::None
            },
    {
        if self.has_window(h) {
            let j = self.index_of(h);
            let w = &self.wins[j];
            Option::Some((w.left, w.top, w.right, w.bottom))
        } else {
            Option::None
        }
    }

    /// Parent handle of the window with handle `h`, if it exists; 0 means
    /// top-level.
    pub fn parent_of(&self, h: usize) -> (r: Option<usize>)
        ensures
            r == if self.desktop().has_handle(h) {
                Option::Some(self.desktop().win(h).parent)
            } else {
                Option::<usize>::None
            },
    {
        if self.has_window(h) {
            let j = self.index_of(h);
            Option::Some(self.wins[j].parent)
        } else {
            Option::None
        }
    }

    /// Visibility of the window with handle `h`, if it exists.
    pub fn visible_of(&self, h: usize) -> (r: Option<bool>)
        ensures
            r == if self.desktop().has_handle(h) {
                Option::Some(self.desktop().win(h).visible)
            } else {
                Option::<bool>::None
            },
    {
        if self.has_window(h) {
            let j = self.index_of(h);
            Option::Some(self.wins[j].visible)
        } else {
            Option::None
        }
    }
}

} // verus!
