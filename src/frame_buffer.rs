//! Framebuffer and renderbuffer objects: ownership of driver handles,
//! binding, attachment, completeness and blits.

use vstd::prelude::*;

use crate::call::{fresh_handles, GlCall};
use crate::codes;
use crate::enums::{Attachment, Filter, FrameBufferTarget};

verus! {

/// Framebuffer object: owns one non-zero handle issued by the driver.
pub struct FrameBuffer {
    fbo: u32,
}

/// Renderbuffer object: owns one non-zero handle issued by the driver.
pub struct RenderBuffer {
    rbo: u32,
}

/// Framebuffer objects allocated in one batch, in the order the driver gave them.
pub struct FrameBuffers {
    fbos: Vec<FrameBuffer>,
}

/// Owning iterator over framebuffers: each slot is handed out at most once,
/// and a slot once taken is no longer owned by the iterator.
pub struct IntoIter {
    fbos: Vec<Option<FrameBuffer>>,
    index: usize,
}

/// A framebuffer that is not complete: the status code the driver reported.
#[derive(Debug, Clone, Copy, PartialEq, Eq, Structural)]
pub struct Incomplete {
    pub code: u32,
}

/// A rectangle as its corners `(x0, y0)` and `(x1, y1)`, in pixels.
pub type Rect = ((u32, u32), (u32, u32));

impl FrameBuffer {
    #[verifier::type_invariant]
    spec fn inv(&self) -> bool {
        self.fbo != 0
    }

    /// The driver handle this framebuffer owns.
    pub closed spec fn handle(&self) -> u32 {
        self.fbo
    }

    /// Takes ownership of a handle that the driver allocated.
    pub fn new(fbo: u32) -> (r: Self)
        requires
            fbo != 0,
        ensures
            r.handle() == fbo,
    {
        FrameBuffer { fbo }
    }

    /// The call that releases this framebuffer's handle, once.
    pub fn delete(self) -> (r: GlCall)
        ensures
            r matches GlCall::DeleteFramebuffers { framebuffers } && framebuffers@ == seq![
                self.handle(),
            ],
    {
        let mut framebuffers: Vec<u32> = Vec::new();
        framebuffers.push(self.fbo);
        GlCall::DeleteFramebuffers { framebuffers }
    }

    /// Binds this framebuffer to `target`, replacing what was bound there.
    pub fn bind(&self, target: FrameBufferTarget) -> (r: GlCall)
        ensures
            r == (GlCall::BindFramebuffer { target: target.code(), framebuffer: self.handle() }),
    {
        GlCall::BindFramebuffer { target: target.to_gl_target(), framebuffer: self.fbo }
    }

    /// Binds the default framebuffer to `target`.
    pub fn unbind(target: FrameBufferTarget) -> (r: GlCall)
        ensures
            r == (GlCall::BindFramebuffer { target: target.code(), framebuffer: 0 }),
    {
        GlCall::BindFramebuffer { target: target.to_gl_target(), framebuffer: 0 }
    }

    /// Attaches `render_buffer` to the framebuffer bound to `target`.
    pub fn attach_render_buffer(
        target: FrameBufferTarget,
        attachment: Attachment,
        render_buffer: &RenderBuffer,
    ) -> (r: GlCall)
        ensures
            r == (GlCall::FramebufferRenderbuffer {
                target: target.code(),
                attachment: attachment.code(),
                renderbuffer_target: codes::RENDERBUFFER,
                renderbuffer: render_buffer.handle(),
            }),
    {
        GlCall::FramebufferRenderbuffer {
            target: target.to_gl_target(),
            attachment: attachment.to_gl_attachment(),
            renderbuffer_target: codes::RENDERBUFFER,
            renderbuffer: render_buffer.rbo,
        }
    }

    /// Asks for the completeness of the framebuffer bound to `target`; the
    /// status code goes to `status_result`.
    pub fn check_status(target: FrameBufferTarget) -> (r: GlCall)
        ensures
            r == (GlCall::CheckFramebufferStatus { target: target.code() }),
    {
        GlCall::CheckFramebufferStatus { target: target.to_gl_target() }
    }

    /// Translates a completeness status: only the complete code succeeds.
    pub fn status_result(status: u32) -> (r: Result<(), Incomplete>)
        ensures
            status == codes::FRAMEBUFFER_COMPLETE <==> r is Ok,
            status != codes::FRAMEBUFFER_COMPLETE ==> r == Err::<(), Incomplete>(
                Incomplete { code: status },
            ),
    {
        if status == codes::FRAMEBUFFER_COMPLETE {
            Ok(())
        } else {
            Err(Incomplete { code: status })
        }
    }

    /// Copies the `src` region of `frame_buffer` into the `dst` region of this
    /// framebuffer; coordinates pass through unchanged.
    pub fn blit_from(
        &self,
        frame_buffer: &FrameBuffer,
        src: Rect,
        dst: Rect,
        mask: u32,
        filter: Filter,
    ) -> (r: GlCall)
        ensures
            r == (GlCall::BlitNamedFramebuffer {
                read_framebuffer: frame_buffer.handle(),
                draw_framebuffer: self.handle(),
                src_x0: src.0.0,
                src_y0: src.0.1,
                src_x1: src.1.0,
                src_y1: src.1.1,
                dst_x0: dst.0.0,
                dst_y0: dst.0.1,
                dst_x1: dst.1.0,
                dst_y1: dst.1.1,
                mask,
                filter: filter.code(),
            }),
    {
        GlCall::BlitNamedFramebuffer {
            read_framebuffer: frame_buffer.fbo,
            draw_framebuffer: self.fbo,
            src_x0: src.0.0,
            src_y0: src.0.1,
            src_x1: src.1.0,
            src_y1: src.1.1,
            dst_x0: dst.0.0,
            dst_y0: dst.0.1,
            dst_x1: dst.1.0,
            dst_y1: dst.1.1,
            mask,
            filter: filter.to_gl_filter(),
        }
    }

    /// Copies the `src` region of the bound read framebuffer into the `dst`
    /// region of the bound draw framebuffer; coordinates pass through unchanged.
    pub fn blit(src: Rect, dst: Rect, mask: u32, filter: Filter) -> (r: GlCall)
        ensures
            r == (GlCall::BlitFramebuffer {
                src_x0: src.0.0,
                src_y0: src.0.1,
                src_x1: src.1.0,
                src_y1: src.1.1,
                dst_x0: dst.0.0,
                dst_y0: dst.0.1,
                dst_x1: dst.1.0,
                dst_y1: dst.1.1,
                mask,
                filter: filter.code(),
            }),
    {
        GlCall::BlitFramebuffer {
            src_x0: src.0.0,
            src_y0: src.0.1,
            src_x1: src.1.0,
            src_y1: src.1.1,
            dst_x0: dst.0.0,
            dst_y0: dst.0.1,
            dst_x1: dst.1.0,
            dst_y1: dst.1.1,
            mask,
            filter: filter.to_gl_filter(),
        }
    }
}

impl RenderBuffer {
    #[verifier::type_invariant]
    spec fn inv(&self) -> bool {
        self.rbo != 0
    }

    /// The driver handle this renderbuffer owns.
    pub closed spec fn handle(&self) -> u32 {
        self.rbo
    }

    /// Takes ownership of a handle that the driver allocated.
    pub fn new(rbo: u32) -> (r: Self)
        requires
            rbo != 0,
        ensures
            r.handle() == rbo,
    {
        RenderBuffer { rbo }
    }

    /// The call that releases this renderbuffer's handle, once.
    pub fn delete(self) -> (r: GlCall)
        ensures
            r matches GlCall::DeleteRenderbuffers { renderbuffers } && renderbuffers@ == seq![
                self.handle(),
            ],
    {
        let mut renderbuffers: Vec<u32> = Vec::new();
        renderbuffers.push(self.rbo);
        GlCall::DeleteRenderbuffers { renderbuffers }
    }
}

impl View for FrameBuffers {
    type V = Seq<u32>;

    /// The handles of the framebuffers, in order.
    closed spec fn view(&self) -> Seq<u32> {
        self.fbos@.map_values(|f: FrameBuffer| f.handle())
    }
}

impl FrameBuffers {
    /// Takes ownership of the handles of one batched allocation.
    pub fn new(handles: Vec<u32>) -> (r: Self)
        requires
            fresh_handles(handles@),
        ensures
            r@ == handles@,
    {
        let mut fbos: Vec<FrameBuffer> = Vec::new();
        let mut i: usize = 0;
        while i < handles.len()
            invariant
                i <= handles@.len(),
                fresh_handles(handles@),
                fbos@.len() == i,
                forall|j: int| 0 <= j < i ==> #[trigger] fbos@[j].handle() == handles@[j],
            decreases handles@.len() - i,
        {
            fbos.push(FrameBuffer::new(handles[i]));
            i += 1;
        }
        let r = FrameBuffers { fbos };
        assert(r@ =~= handles@);
        r
    }

    /// The framebuffers, in order.
    pub fn iter(&self) -> (r: &[FrameBuffer])
        ensures
            r@.map_values(|f: FrameBuffer| f.handle()) == self@,
    {
        self.fbos.as_slice()
    }

    /// The framebuffers, in order, for in-place use.
    pub fn iter_mut(&mut self) -> (r: &mut [FrameBuffer])
        ensures
            r@.map_values(|f: FrameBuffer| f.handle()) == old(self)@,
            final(self)@ == final(r)@.map_values(|f: FrameBuffer| f.handle()),
    {
        self.fbos.as_mut_slice()
    }

    /// Number of framebuffers in the collection.
    pub fn count(&self) -> (r: usize)
        ensures
            r == self@.len(),
    {
        self.fbos.len()
    }

    /// The framebuffer at `index`.
    pub fn get(&self, index: usize) -> (r: &FrameBuffer)
        requires
            index < self@.len(),
        ensures
            r.handle() == self@[index as int],
    {
        &self.fbos[index]
    }

    /// Hands the framebuffers out one at a time, each at most once.
    pub fn into_iter(self) -> (r: IntoIter)
        ensures
            r.wf(),
            r.pending() == self@,
            r@.len() == self@.len(),
    {
        IntoIter::new(self.fbos)
    }

    /// The one batched call that releases every handle of the collection.
    pub fn delete(self) -> (r: GlCall)
        ensures
            r matches GlCall::DeleteFramebuffers { framebuffers } && framebuffers@ == self@,
    {
        let mut handles: Vec<u32> = Vec::new();
        let mut i: usize = 0;
        while i < self.fbos.len()
            invariant
                i <= self.fbos@.len(),
                handles@ == self@.take(i as int),
            decreases self.fbos@.len() - i,
        {
            handles.push(self.fbos[i].fbo);
            assert(handles@ =~= self@.take(i + 1));
            i += 1;
        }
        assert(handles@ =~= self@);
        GlCall::DeleteFramebuffers { framebuffers: handles }
    }
}

/// The handle held by a slot, if it still holds one.
pub open spec fn slot_handle(slot: Option<FrameBuffer>) -> Option<u32> {
    match slot {
        Some(f) => Some(f.handle()),
        None => None,
    }
}

impl View for IntoIter {
    type V = Seq<Option<u32>>;

    /// Each slot's handle while the iterator still owns it; `None` once taken.
    closed spec fn view(&self) -> Seq<Option<u32>> {
        self.fbos@.map_values(|s: Option<FrameBuffer>| slot_handle(s))
    }
}

impl IntoIter {
    #[verifier::type_invariant]
    spec fn inv(&self) -> bool {
        self.wf()
    }

    /// Number of slots already handed out.
    pub closed spec fn taken(&self) -> nat {
        self.index as nat
    }

    /// The slots handed out so far are exactly the first `taken()`, and they
    /// are empty; every later slot still holds its framebuffer.
    pub open spec fn wf(&self) -> bool {
        &&& self.taken() <= self@.len()
        &&& forall|i: int| 0 <= i < self@.len() ==> (#[trigger] self@[i] is None <==> i < self.taken())
    }

    /// The handles still owned, in the order they will be handed out.
    pub open spec fn pending(&self) -> Seq<u32> {
        self@.subrange(self.taken() as int, self@.len() as int).map_values(|s: Option<u32>| s->0)
    }

    /// Puts every framebuffer in a slot of its own, none taken yet.
    pub fn new(fbos: Vec<FrameBuffer>) -> (r: Self)
        ensures
            r.wf(),
            r.taken() == 0,
            r.pending() == fbos@.map_values(|f: FrameBuffer| f.handle()),
            r@.len() == fbos@.len(),
    {
        let mut slots: Vec<Option<FrameBuffer>> = Vec::new();
        let mut fbos = fbos;
        let ghost all = fbos@;
        while fbos.len() > 0
            invariant
                slots@.len() + fbos@.len() == all.len(),
                fbos@ =~= all.subrange(slots@.len() as int, all.len() as int),
                forall|i: int| 0 <= i < slots@.len() ==> #[trigger] slots@[i] == Some(all[i]),
            decreases fbos@.len(),
        {
            let f = fbos.remove(0);
            slots.push(Some(f));
        }
        let r = IntoIter { fbos: slots, index: 0 };
        assert(r.pending() =~= all.map_values(|f: FrameBuffer| f.handle()));
        r
    }

    /// Takes the next framebuffer out of its slot; once every slot is taken,
    /// returns `None` and changes nothing, however often it is called.
    pub fn next(&mut self) -> (r: Option<FrameBuffer>)
        ensures
            final(self).wf(),
            final(self)@.len() == old(self)@.len(),
            seq![slot_handle(r)] == outputs(old(self).pending(), 1),
            old(self).pending().len() == 0 ==> r is None && *final(self) == *old(self),
            old(self).pending().len() > 0 ==> {
                &&& r matches Some(f) && f.handle() == old(self).pending()[0]
                &&& final(self).pending() == old(self).pending().drop_first()
                &&& final(self)@ == old(self)@.update(old(self).taken() as int, None)
            },
    {
        proof {
            use_type_invariant(&*self);
        }
        let ghost before = *self;
        if self.index < self.fbos.len() {
            assert(before@[before.taken() as int] == slot_handle(before.fbos@[before.taken() as int]));
            assert(before.pending()[0] == before@[before.taken() as int]->0);
            let mut current = IntoIter { fbos: Vec::new(), index: 0 };
            std::mem::swap(self, &mut current);
            let IntoIter { mut fbos, index } = current;
            let r = fbos[index].take();
            assert(fbos@.map_values(|s: Option<FrameBuffer>| slot_handle(s)) =~= before@.update(
                index as int,
                None,
            ));
            let advanced = IntoIter { fbos, index: index + 1 };
            assert(advanced@ =~= before@.update(before.taken() as int, None));
            assert(advanced.pending() =~= before.pending().drop_first());
            *self = advanced;
            assert(outputs(before.pending().drop_first(), 0) =~= Seq::<Option<u32>>::empty());
            assert(outputs(before.pending(), 1) =~= seq![Some(before.pending()[0])]);
            r
        } else {
            assert(outputs(before.pending(), 0) =~= Seq::<Option<u32>>::empty());
            assert(outputs(before.pending(), 1) =~= seq![None::<u32>]);
            None
        }
    }

    /// The one batched call that releases the handles still owned; a
    /// framebuffer already taken is not released here.
    pub fn delete(self) -> (r: GlCall)
        ensures
            r matches GlCall::DeleteFramebuffers { framebuffers } && framebuffers@ == self.pending(),
    {
        proof {
            use_type_invariant(&self);
        }
        let mut handles: Vec<u32> = Vec::new();
        let mut i: usize = self.index;
        while i < self.fbos.len()
            invariant
                self.wf(),
                self.taken() <= i <= self.fbos@.len(),
                handles@ == self.pending().take(i - self.taken()),
            decreases self.fbos@.len() - i,
        {
            assert(self@[i as int] == slot_handle(self.fbos@[i as int]));
            assert(self.pending()[i - self.taken()] == self@[i as int]->0);
            match &self.fbos[i] {
                Some(f) => {
                    handles.push(f.fbo);
                },
                None => {},
            }
            assert(handles@ =~= self.pending().take(i + 1 - self.taken()));
            i += 1;
        }
        assert(handles@ =~= self.pending());
        GlCall::DeleteFramebuffers { framebuffers: handles }
    }
}

/// What `k` successive calls of `IntoIter::next` return, by handle, on an
/// iterator whose pending handles are `p` (the contract of `next`, unrolled).
pub open spec fn outputs(p: Seq<u32>, k: nat) -> Seq<Option<u32>>
    decreases k,
{
    if k == 0 {
        Seq::empty()
    } else if p.len() == 0 {
        seq![None].add(outputs(p, (k - 1) as nat))
    } else {
        seq![Some(p[0])].add(outputs(p.drop_first(), (k - 1) as nat))
    }
}

/// Iterating to completion hands out every pending framebuffer once, in
/// order, and `None` on every call after that.
pub proof fn lemma_take_once(p: Seq<u32>, k: nat)
    requires
        k >= p.len(),
    ensures
        outputs(p, k) == p.map_values(|h: u32| Some(h)).add(
            Seq::new((k - p.len()) as nat, |i: int| None::<u32>),
        ),
    decreases k,
{
    if k == 0 {
        assert(outputs(p, k) =~= p.map_values(|h: u32| Some(h)).add(
            Seq::new((k - p.len()) as nat, |i: int| None::<u32>),
        ));
    } else if p.len() == 0 {
        lemma_take_once(p, (k - 1) as nat);
        assert(outputs(p, k) =~= p.map_values(|h: u32| Some(h)).add(
            Seq::new((k - p.len()) as nat, |i: int| None::<u32>),
        ));
    } else {
        lemma_take_once(p.drop_first(), (k - 1) as nat);
        assert(outputs(p, k) =~= p.map_values(|h: u32| Some(h)).add(
            Seq::new((k - p.len()) as nat, |i: int| None::<u32>),
        ));
    }
}

/// A framebuffer taken out by `next` is no longer pending, so releasing the
/// iterator afterwards does not release it a second time.
pub proof fn lemma_taken_not_released(before: IntoIter, after: IntoIter)
    requires
        before.pending().no_duplicates(),
        before.pending().len() > 0,
        after.pending() == before.pending().drop_first(),
    ensures
        !after.pending().contains(before.pending()[0]),
        after.pending().no_duplicates(),
{
    let p = before.pending();
    assert forall|i: int| 0 <= i < after.pending().len() implies after.pending()[i] != p[0] by {
        assert(after.pending()[i] == p[i + 1]);
    }
}

} // verus!
