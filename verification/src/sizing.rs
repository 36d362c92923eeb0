use vstd::prelude::*;

verus! {

/// A size in logical pixels.
#[derive(Debug, Clone, Copy, PartialEq, Eq, Structural)]
pub struct LogicalSize {
    pub w: i32,
    pub h: i32,
}

/// `x` limited by a maximum and then a minimum size; a limit that is not
/// positive means no limit.
pub open spec fn spec_ensure_min_max_size(x: i32, min_size: i32, max_size: i32) -> i32 {
    let x = if max_size > 0 && max_size < x {
        max_size
    } else {
        x
    };
    if min_size > 0 && x < min_size {
        min_size
    } else {
        x
    }
}

/// `x` limited by a maximum and then a minimum size; a limit that is not
/// positive means no limit.
pub fn ensure_min_max_size(x: i32, min_size: i32, max_size: i32) -> (r: i32)
    ensures
        r == spec_ensure_min_max_size(x, min_size, max_size),
{
    let mut x = x;
    if max_size > 0 && max_size < x {
        x = max_size;
    }
    if min_size > 0 && x < min_size {
        x = min_size;
    }
    x
}

/// Like [`ensure_min_max_size`], except that 0 (the window picks its own
/// size) stays 0.
pub fn ensure_min_max_size_maybe_zero(x: i32, min_size: i32, max_size: i32) -> (r: i32)
    ensures
        r == if x == 0 {
            0
        } else {
            spec_ensure_min_max_size(x, min_size, max_size)
        },
{
    if x == 0 {
        0
    } else {
        ensure_min_max_size(x, min_size, max_size)
    }
}

/// The size requested from a new window, given the size `size` that its
/// layout space proposes and the window's minimum and maximum sizes after
/// window rules.
///
/// When the window has a fixed size, or the layout picks some fixed size, min
/// and max size apply, so that a fixed-size window rule works on open while the
/// window is otherwise free to pick its default size. For the height, only a
/// fixed height is enforced (scrolling honors only that at runtime), but a
/// picked height always honors the minimum height.
pub open spec fn spec_new_window_size(size: LogicalSize, min_size: LogicalSize, max_size: LogicalSize) -> LogicalSize {
    LogicalSize {
        w: if size.w == 0 {
            0
        } else {
            spec_ensure_min_max_size(size.w, min_size.w, max_size.w)
        },
        h: if min_size.h == max_size.h {
            spec_ensure_min_max_size(size.h, min_size.h, max_size.h)
        } else if size.h > 0 && size.h < min_size.h {
            min_size.h
        } else {
            size.h
        },
    }
}

/// The size requested from a new window; see [`spec_new_window_size`].
pub fn new_window_size(size: LogicalSize, min_size: LogicalSize, max_size: LogicalSize) -> (r: LogicalSize)
    ensures
        r == spec_new_window_size(size, min_size, max_size),
{
    let w = ensure_min_max_size_maybe_zero(size.w, min_size.w, max_size.w);
    let h = if min_size.h == max_size.h {
        ensure_min_max_size(size.h, min_size.h, max_size.h)
    } else if size.h > 0 {
        if size.h < min_size.h {
            min_size.h
        } else {
            size.h
        }
    } else {
        size.h
    };
    LogicalSize { w, h }
}

/// A window with a fixed size (equal positive minimum and maximum) opens at
/// exactly that size, unless it picks its own width; a picked height never
/// goes below the minimum height; a width left to the window stays so.
pub proof fn new_window_size_honors_fixed_size(size: LogicalSize, min_size: LogicalSize, max_size: LogicalSize)
    ensures
        (min_size.w == max_size.w && max_size.w > 0 && size.w != 0) ==> spec_new_window_size(
            size,
            min_size,
            max_size,
        ).w == max_size.w,
        (min_size.h == max_size.h && max_size.h > 0) ==> spec_new_window_size(
            size,
            min_size,
            max_size,
        ).h == max_size.h,
        size.h > 0 ==> spec_new_window_size(size, min_size, max_size).h >= min_size.h,
        size.w == 0 ==> spec_new_window_size(size, min_size, max_size).w == 0,
{
}

/// The default width of a new window: the one that a rule gives (`Some`), or
/// none when a rule says so (`Some(None)`), or else none for a floating
/// window and the layout's default column width for a tiled one.
pub fn resolve_default_width<T: Copy>(default_width: Option<Option<T>>, is_floating: bool, layout_default: Option<T>) -> (r: Option<T>)
    ensures
        r == match default_width {
            Some(w) => w,
            None => if is_floating {
                None
            } else {
                layout_default
            },
        },
{
    match default_width {
        Some(Some(width)) => Some(width),
        Some(None) => None,
        None => if is_floating {
            None
        } else {
            layout_default
        },
    }
}

/// The default height of a new window: the one that a rule gives, else none
/// (there is no global default height).
pub fn resolve_default_height<T: Copy>(default_height: Option<Option<T>>, is_floating: bool) -> (r: Option<T>)
    ensures
        r == match default_height {
            Some(h) => h,
            None => None,
        },
{
    match default_height {
        Some(Some(height)) => Some(height),
        Some(None) => None,
        None => if is_floating {
            None
        } else {
            // We don't have a global default at the moment.
            None
        },
    }
}

} // verus!
