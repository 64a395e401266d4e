//! The driver's copy of what the display shows, with the pages that changed
//! since they were last sent.
//!
//! The buffer is kept in the display's own layout: page after page, one byte
//! per column, bit `i` of a byte being pixel row `i` of that page. A page is
//! dirty when it has to be sent again.

use crate::fixed_vec::{
    buffer_as_slice, buffer_bytes, buffer_from_array_len, buffer_set, flags_from_array_len,
    flags_get, flags_set, page_flags,
};
use tinyvec::ArrayVec;
use vstd::prelude::*;

verus! {

/// The most bytes a screen buffer can hold.
pub const MAX_BUFFER: usize = 1024;

/// The most pages a screen can have.
pub const MAX_PAGES: usize = 8;

/// Why a write to the screen was refused.
#[derive(Copy, Clone, Debug, PartialEq, Eq)]
pub enum DisplayError {
    /// The write would end behind the last byte of the buffer.
    OutOfBounds,
}

pub struct ScreenSpace {
    width: u32,
    height: u32,
    page_count: u32,
    buffer: ArrayVec<[u8; 1024]>,
    pages_to_update: ArrayVec<[bool; 8]>,
}

/// A screen as plain values.
pub struct ScreenView {
    pub width: u32,
    pub height: u32,
    pub page_count: u32,
    pub buffer: Seq<u8>,
    pub dirty: Seq<bool>,
}

impl ScreenView {
    /// A page is eight rows high, the buffer has one byte per page and column,
    /// and there is one dirty flag per page.
    pub open spec fn wf(self) -> bool {
        &&& self.page_count == self.height / 8
        &&& self.page_count <= MAX_PAGES
        &&& self.buffer.len() == self.width * self.page_count
        &&& self.buffer.len() <= MAX_BUFFER
        &&& self.dirty.len() == self.page_count
    }

    /// Whether any page is waiting to be sent.
    pub open spec fn any_dirty(self) -> bool {
        exists|page: int| 0 <= page < self.dirty.len() && self.dirty[page]
    }
}

/// Whether a display of this size fits a screen buffer.
pub open spec fn fits_screen(width: u32, height: u32) -> bool {
    &&& height / 8 <= MAX_PAGES
    &&& width * (height / 8) <= MAX_BUFFER
}

/// Tests whether a display of this size fits a screen buffer.
pub fn screen_fits(width: u32, height: u32) -> (fits: bool)
    ensures
        fits == fits_screen(width, height),
{
    let page_count = height / 8;
    if page_count > 8 {
        return false;
    }
    assert(width * page_count <= u64::MAX) by (nonlinear_arith)
        requires
            width <= u32::MAX,
            page_count <= 8,
    ;
    (width as u64) * (page_count as u64) <= 1024
}

/// Whether the write of `len` bytes at `pos` changes a byte of `page`, on a
/// screen `width` columns wide: the byte ranges `[pos, pos + len)` and
/// `[page * width, (page + 1) * width)` have a byte in common.
pub open spec fn touches(page: int, width: int, pos: int, len: int) -> bool {
    &&& 0 < len
    &&& page * width < pos + len
    &&& pos < (page + 1) * width
}

/// Whether byte `i` of the buffer lies both in the written range
/// `[pos, pos + len)` and in the range of `page`.
pub open spec fn shared_byte(i: int, page: int, width: int, pos: int, len: int) -> bool {
    pos <= i < pos + len && page * width <= i < (page + 1) * width
}

/// A write marks exactly the pages with which it shares a byte: `touches`
/// holds of a page if and only if some byte lies both in the written range and
/// in the page.
pub proof fn lemma_touches_shares_byte(page: int, width: int, pos: int, len: int)
    requires
        0 <= page,
        0 <= width,
        0 <= pos,
    ensures
        touches(page, width, pos, len) <==> exists|i: int| shared_byte(i, page, width, pos, len),
{
    assert((page + 1) * width == page * width + width && 0 <= page * width) by (nonlinear_arith)
        requires
            0 <= page,
            0 <= width,
    ;
    if touches(page, width, pos, len) {
        assert(width > 0) by (nonlinear_arith)
            requires
                0 <= page,
                0 <= width,
                0 < (page + 1) * width,
        ;
        let i = if pos >= page * width {
            pos
        } else {
            page * width
        };
        assert(shared_byte(i, page, width, pos, len));
    }
}

/// The buffer after `data` was written at `pos`.
pub open spec fn overwritten(buffer: Seq<u8>, pos: int, data: Seq<u8>) -> Seq<u8> {
    Seq::new(
        buffer.len(),
        |i: int|
            if pos <= i < pos + data.len() {
                data[i - pos]
            } else {
                buffer[i]
            },
    )
}

impl View for ScreenSpace {
    type V = ScreenView;

    closed spec fn view(&self) -> ScreenView {
        ScreenView {
            width: self.width,
            height: self.height,
            page_count: self.page_count,
            buffer: buffer_bytes(self.buffer),
            dirty: page_flags(self.pages_to_update),
        }
    }
}

impl ScreenSpace {
    /// The invariant of a screen, see `ScreenView::wf`.
    pub open spec fn wf(&self) -> bool {
        self@.wf()
    }

    /// A blank screen of the given size. Every page starts dirty, so that the
    /// first flush sends the whole screen.
    pub fn new(width: u32, height: u32) -> (screen: Self)
        requires
            fits_screen(width, height),
        ensures
            screen.wf(),
            screen@.width == width,
            screen@.height == height,
            screen@.buffer.len() == width * (height / 8),
            forall|i: int| 0 <= i < screen@.buffer.len() ==> screen@.buffer[i] == 0,
            forall|page: int| 0 <= page < screen@.dirty.len() ==> screen@.dirty[page],
    {
        let page_count = height / 8;
        let buffer = buffer_from_array_len([0; 1024], (width * page_count) as usize);
        let pages_to_update = flags_from_array_len([true; 8], page_count as usize);
        ScreenSpace { width, height, page_count, buffer, pages_to_update }
    }

    /// Blanks the screen and marks every page dirty.
    pub fn clear(&mut self)
        requires
            old(self).wf(),
        ensures
            final(self).wf(),
            final(self)@.width == old(self)@.width,
            final(self)@.height == old(self)@.height,
            forall|i: int| 0 <= i < final(self)@.buffer.len() ==> final(self)@.buffer[i] == 0,
            forall|page: int| 0 <= page < final(self)@.dirty.len() ==> final(self)@.dirty[page],
    {
        let buffer_len = self.buffer_size();
        let mut i: usize = 0;
        while i < buffer_len
            invariant
                i <= buffer_len,
                buffer_len == buffer_bytes(self.buffer).len(),
                self.width == old(self).width,
                self.height == old(self).height,
                self.page_count == old(self).page_count,
                self.pages_to_update == old(self).pages_to_update,
                buffer_bytes(self.buffer).len() == buffer_bytes(old(self).buffer).len(),
                forall|k: int| 0 <= k < i ==> #[trigger] buffer_bytes(self.buffer)[k] == 0,
            decreases buffer_len - i,
        {
            buffer_set(&mut self.buffer, i, 0);
            i += 1;
        }
        let page_count = self.page_count as usize;
        let mut page: usize = 0;
        while page < page_count
            invariant
                page <= page_count,
                page_count == page_flags(self.pages_to_update).len(),
                page_count == page_flags(old(self).pages_to_update).len(),
                self.width == old(self).width,
                self.height == old(self).height,
                self.page_count == old(self).page_count,
                buffer_bytes(self.buffer).len() == buffer_bytes(old(self).buffer).len(),
                forall|k: int|
                    0 <= k < buffer_bytes(self.buffer).len() ==> #[trigger] buffer_bytes(
                        self.buffer,
                    )[k] == 0,
                forall|p: int| 0 <= p < page ==> #[trigger] page_flags(self.pages_to_update)[p],
            decreases page_count - page,
        {
            flags_set(&mut self.pages_to_update, page, true);
            page += 1;
        }
    }

    /// Writes `data` into the buffer at `pos` and marks the pages it changes.
    ///
    /// A write that would end behind the buffer is refused and changes nothing.
    /// Otherwise exactly the bytes from `pos` on are replaced, and a page is
    /// dirty afterwards if it was dirty before or holds one of these bytes.
    pub fn update(&mut self, pos: usize, data: &[u8]) -> (r: Result<(), DisplayError>)
        requires
            old(self).wf(),
        ensures
            final(self).wf(),
            r is Err <==> pos + data@.len() > old(self)@.buffer.len(),
            r matches Err(error) ==> error == DisplayError::OutOfBounds,
            r is Err ==> *final(self) == *old(self),
            r is Ok ==> final(self)@ == (ScreenView {
                buffer: overwritten(old(self)@.buffer, pos as int, data@),
                dirty: Seq::new(
                    old(self)@.dirty.len(),
                    |page: int|
                        old(self)@.dirty[page] || touches(
                            page,
                            old(self)@.width as int,
                            pos as int,
                            data@.len() as int,
                        ),
                ),
                ..old(self)@
            }),
    {
        let size = self.buffer_size();
        let len = data.len();
        if pos > size || len > size - pos {
            return Err(DisplayError::OutOfBounds);
        }
        let mut i: usize = 0;
        while i < len
            invariant
                i <= len,
                len == data@.len(),
                pos + len <= size,
                size == buffer_bytes(old(self).buffer).len(),
                self.width == old(self).width,
                self.height == old(self).height,
                self.page_count == old(self).page_count,
                self.pages_to_update == old(self).pages_to_update,
                buffer_bytes(self.buffer).len() == size,
                forall|k: int|
                    0 <= k < size ==> #[trigger] buffer_bytes(self.buffer)[k] == (if pos <= k < pos
                        + i {
                        data@[k - pos]
                    } else {
                        buffer_bytes(old(self).buffer)[k]
                    }),
            decreases len - i,
        {
            buffer_set(&mut self.buffer, pos + i, data[i]);
            i += 1;
        }
        self.mark_pages(pos, len);
        proof {
            assert(final(self)@.buffer =~= overwritten(old(self)@.buffer, pos as int, data@));
            assert(final(self)@.dirty =~= Seq::new(
                old(self)@.dirty.len(),
                |page: int|
                    old(self)@.dirty[page] || touches(
                        page,
                        old(self)@.width as int,
                        pos as int,
                        data@.len() as int,
                    ),
            ));
        }
        Ok(())
    }

    /// Marks the pages that hold a byte of `[pos, pos + len)`.
    fn mark_pages(&mut self, pos: usize, len: usize)
        requires
            old(self).page_count <= MAX_PAGES,
            page_flags(old(self).pages_to_update).len() == old(self).page_count,
            old(self).width * old(self).page_count <= MAX_BUFFER,
            pos + len <= MAX_BUFFER,
        ensures
            final(self).width == old(self).width,
            final(self).height == old(self).height,
            final(self).page_count == old(self).page_count,
            final(self).buffer == old(self).buffer,
            page_flags(final(self).pages_to_update).len() == old(self).page_count,
            forall|page: int|
                0 <= page < old(self).page_count ==> #[trigger] page_flags(
                    final(self).pages_to_update,
                )[page] == (page_flags(old(self).pages_to_update)[page] || touches(
                    page,
                    old(self).width as int,
                    pos as int,
                    len as int,
                )),
    {
        let width = self.width as usize;
        let page_count = self.page_count as usize;
        let mut page: usize = 0;
        while page < page_count
            invariant
                page <= page_count <= MAX_PAGES,
                page_count == old(self).page_count,
                width == old(self).width,
                width * page_count <= MAX_BUFFER,
                pos + len <= MAX_BUFFER,
                self.width == old(self).width,
                self.height == old(self).height,
                self.page_count == old(self).page_count,
                self.buffer == old(self).buffer,
                page_flags(self.pages_to_update).len() == page_count,
                forall|p: int|
                    0 <= p < page_count ==> #[trigger] page_flags(self.pages_to_update)[p] == (page_flags(
                        old(self).pages_to_update,
                    )[p] || (p < page && touches(p, width as int, pos as int, len as int))),
            decreases page_count - page,
        {
            assert(page * width + width <= MAX_BUFFER && 0 <= page * width && (page + 1) * width
                == page * width + width) by (nonlinear_arith)
                requires
                    page < page_count,
                    width * page_count <= MAX_BUFFER,
            ;
            let page_start = page * width;
            if len > 0 && page_start < pos + len && pos < page_start + width {
                flags_set(&mut self.pages_to_update, page, true);
            }
            page += 1;
        }
    }

    /// Hands out the dirty flags, one per page, and marks every page clean.
    pub fn take_pages_to_update(&mut self) -> (pages: ArrayVec<[bool; 8]>)
        requires
            old(self).wf(),
        ensures
            final(self).wf(),
            page_flags(pages) == old(self)@.dirty,
            final(self)@ == (ScreenView {
                dirty: Seq::new(old(self)@.dirty.len(), |page: int| false),
                ..old(self)@
            }),
    {
        let pages_to_update = self.pages_to_update;
        let page_count = self.page_count as usize;
        let mut page: usize = 0;
        while page < page_count
            invariant
                page <= page_count,
                page_count == page_flags(self.pages_to_update).len(),
                page_count == page_flags(old(self).pages_to_update).len(),
                self.width == old(self).width,
                self.height == old(self).height,
                self.page_count == old(self).page_count,
                self.buffer == old(self).buffer,
                forall|p: int| 0 <= p < page ==> !#[trigger] page_flags(self.pages_to_update)[p],
            decreases page_count - page,
        {
            flags_set(&mut self.pages_to_update, page, false);
            page += 1;
        }
        proof {
            assert(final(self)@.dirty =~= Seq::new(old(self)@.dirty.len(), |page: int| false));
        }
        pages_to_update
    }

    /// Whether the page is waiting to be sent.
    pub fn is_dirty(&self, page: usize) -> (dirty: bool)
        requires
            self.wf(),
            page < self@.page_count,
        ensures
            dirty == self@.dirty[page as int],
    {
        flags_get(&self.pages_to_update, page)
    }

    pub fn width(&self) -> (width: u32)
        ensures
            width == self@.width,
    {
        self.width
    }

    pub fn height(&self) -> (height: u32)
        ensures
            height == self@.height,
    {
        self.height
    }

    pub fn page_count(&self) -> (page_count: u32)
        ensures
            page_count == self@.page_count,
    {
        self.page_count
    }

    pub fn buffer(&self) -> (buffer: &[u8])
        ensures
            buffer@ == self@.buffer,
    {
        buffer_as_slice(&self.buffer)
    }

    pub fn buffer_size(&self) -> (size: usize)
        requires
            self.wf(),
        ensures
            size == self@.buffer.len(),
    {
        (self.width * self.page_count) as usize
    }
}

} // verus!
