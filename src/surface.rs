use vstd::prelude::*;

verus! {

/// The size a surface has after a resize to `width` by `height` from size
/// `size`: a resize with a zero side (a minimized window) keeps what was there.
pub open spec fn resized(size: Option<(u32, u32)>, width: u32, height: u32) -> Option<(u32, u32)> {
    if width > 0 && height > 0 {
        Some((width, height))
    } else {
        size
    }
}

/// Both sides of a known size are positive.
pub open spec fn valid_size(size: Option<(u32, u32)>) -> bool {
    match size {
        Some((w, h)) => w > 0 && h > 0,
        None => true,
    }
}

/// The size binding of a render surface: the dimensions its pixel buffer
/// has, kept equal to the window's last positive inner size. `None` until
/// the first positive size is known.
pub struct RenderSurface {
    size: Option<(u32, u32)>,
}

impl View for RenderSurface {
    type V = Option<(u32, u32)>;

    closed spec fn view(&self) -> Option<(u32, u32)> {
        self.size
    }
}

impl RenderSurface {
    /// Both sides of the surface's size, once it has one, are positive.
    pub open spec fn wf(&self) -> bool {
        valid_size(self@)
    }

    /// A surface bound to a window but not sized yet.
    pub fn new() -> (s: Self)
        ensures
            s@ == None::<(u32, u32)>,
            s.wf(),
    {
        RenderSurface { size: None }
    }

    /// Resizes the buffer to `width` by `height`; a zero side is ignored and
    /// leaves the previous buffer in place. Returns whether the size was taken.
    pub fn resize(&mut self, width: u32, height: u32) -> (applied: bool)
        requires
            old(self).wf(),
        ensures
            applied == (width > 0 && height > 0),
            final(self)@ == resized(old(self)@, width, height),
            final(self).wf(),
    {
        if width > 0 && height > 0 {
            self.size = Some((width, height));
            true
        } else {
            false
        }
    }

    /// The current size of the buffer, if it has one.
    pub fn size(&self) -> (r: Option<(u32, u32)>)
        ensures
            r == self@,
    {
        self.size
    }

    /// The number of cells in the buffer: `width * height`, or zero while
    /// the surface has no size.
    pub fn cell_count(&self) -> (n: u64)
        ensures
            n == match self@ {
                Some((w, h)) => w as int * h as int,
                None => 0int,
            },
    {
        match self.size {
            Some((w, h)) => {
                proof {
                    vstd::arithmetic::mul::lemma_mul_upper_bound(
                        w as int,
                        u32::MAX as int,
                        h as int,
                        u32::MAX as int,
                    );
                }
                (w as u64) * (h as u64)
            },
            None => 0,
        }
    }
}

/// Resizing twice to the same size gives what resizing once does, and a
/// resize with a zero side leaves the size as it was.
pub proof fn lemma_resize_idempotent(size: Option<(u32, u32)>, width: u32, height: u32)
    ensures
        resized(resized(size, width, height), width, height) == resized(size, width, height),
        width == 0 || height == 0 ==> resized(size, width, height) == size,
        valid_size(size) ==> valid_size(resized(size, width, height)),
{
}

} // verus!
