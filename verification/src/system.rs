//! The narrow capability interface through which the protocol talks to a
//! desktop window system.
//!
//! Each method corresponds to one primitive of a real window manager
//! (window lookup by title or class, reading and writing style, parent,
//! geometry and visibility, and enumerating top-level windows), with its
//! meaning stated over the ghost [`DesktopView`] of the system's state.
//! [`crate::fake::FakeDesktop`] is a verified implementation; a binding to
//! the real operating system lives outside the verified library and is
//! trusted to behave as the contracts here say.

use vstd::prelude::*;

use crate::model::DesktopView;

verus! {

pub trait WindowSystem: Sized {
    /// Ghost view of the desktop state this system manipulates.
    spec fn desktop(&self) -> DesktopView;

    /// Width and height of the primary screen, in pixels.
    fn screen_size(&self) -> (r: (i32, i32))
        ensures
            r.0 == self.desktop().screen_width,
            r.1 == self.desktop().screen_height,
    ;

    /// Handle of the first top-level window with exactly this title; 0 if
    /// none exists.
    fn find_top_by_title(&self, title: &str) -> (h: usize)
        ensures
            h == self.desktop().find_top_title(title@),
    ;

    /// Handle of the first top-level window of this class; 0 if none
    /// exists.
    fn find_top_by_class(&self, class: &str) -> (h: usize)
        ensures
            h == self.desktop().find_top_class(class@),
    ;

    /// Handle of the first child of `parent` with exactly this title, any
    /// class; 0 if none exists. A `parent` of 0 searches top-level windows.
    fn find_child_by_title(&self, parent: usize, title: &str) -> (h: usize)
        ensures
            h == self.desktop().find_child_title(parent, title@),
    ;

    /// Handle of the first child of `parent` of this class; 0 if none
    /// exists. A `parent` of 0 searches top-level windows.
    fn find_child_by_class(&self, parent: usize, class: &str) -> (h: usize)
        ensures
            h == self.desktop().find_child_class(parent, class@),
    ;

    /// Handle of the first top-level window of this class that comes
    /// strictly after the window `after` in enumeration order; 0 if none
    /// exists.
    fn find_top_by_class_after(&self, after: usize, class: &str) -> (h: usize)
        requires
            self.desktop().has_handle(after),
        ensures
            h == self.desktop().find_top_class_after(after, class@),
    ;

    /// Handles of all top-level windows, in enumeration order.
    fn top_level_handles(&self) -> (v: Vec<usize>)
        ensures
            v@ == self.desktop().top_handles(),
    ;

    /// Bounding rectangle of window `h`, as (left, top, right, bottom)
    /// screen coordinates.
    fn window_rect(&self, h: usize) -> (r: (i32, i32, i32, i32))
        requires
            self.desktop().has_handle(h),
        ensures
            r.0 == self.desktop().win(h).left,
            r.1 == self.desktop().win(h).top,
            r.2 == self.desktop().win(h).right,
            r.3 == self.desktop().win(h).bottom,
    ;

    /// Style bits of window `h`, at native word width.
    fn window_style(&self, h: usize) -> (s: isize)
        requires
            self.desktop().has_handle(h),
        ensures
            s == self.desktop().win(h).style,
    ;

    /// Replace the style bits of window `h`.
    fn set_window_style(&mut self, h: usize, style: isize)
        requires
            old(self).desktop().has_handle(h),
        ensures
            final(self).desktop() == old(self).desktop().with_style(h, style as int),
    ;

    /// Make window `h` a child of window `parent`; a `parent` of 0
    /// detaches it, returning it to top-level status.
    fn set_window_parent(&mut self, h: usize, parent: usize)
        requires
            old(self).desktop().has_handle(h),
        ensures
            final(self).desktop() == old(self).desktop().with_parent(h, parent),
    ;

    /// Move and resize window `h` to the rectangle of width `w` and height
    /// `hh` whose top-left corner is (x, y).
    fn move_window(&mut self, h: usize, x: i32, y: i32, w: i32, hh: i32)
        requires
            old(self).desktop().has_handle(h),
            0 <= w,
            0 <= hh,
            x + w <= i32::MAX,
            y + hh <= i32::MAX,
        ensures
            final(self).desktop() == old(self).desktop().with_rect(h, x as int, y as int, x + w, y + hh),
    ;

    /// Make window `h` visible.
    fn show_window(&mut self, h: usize)
        requires
            old(self).desktop().has_handle(h),
        ensures
            final(self).desktop() == old(self).desktop().with_visible(h, true),
    ;

    /// Hide window `h`.
    fn hide_window(&mut self, h: usize)
        requires
            old(self).desktop().has_handle(h),
        ensures
            final(self).desktop() == old(self).desktop().with_visible(h, false),
    ;

    /// Nudge the shell window `root` to refresh its desktop topology (on a
    /// real shell, a time-bounded synchronous message that makes it create
    /// its worker surface if none exists yet). Best-effort: nothing the
    /// model tracks changes, and no answer is waited for beyond the bound.
    fn refresh_shell(&mut self, root: usize)
        ensures
            final(self).desktop() == old(self).desktop(),
    ;
}

} // verus!
