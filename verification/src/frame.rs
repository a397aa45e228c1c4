//! Decoded frames, and the cell through which the decode worker hands the
//! newest one to whoever presents it.

use vstd::prelude::*;

verus! {

/// What a frame holds.
pub struct FrameView {
    /// The bytes of the picture: a plane of luma, then a plane of interleaved
    /// chroma. `None` for a frame that holds no picture.
    pub data: Option<Seq<u8>>,
    /// The bytes from one row of a plane to the next, where the backend
    /// reported it.
    pub stride: Option<u32>,
}

/// One decoded video frame. A frame never changes once it is made.
#[derive(Debug, Clone)]
pub struct Frame {
    data: Option<Vec<u8>>,
    stride: Option<u32>,
}

impl View for Frame {
    type V = FrameView;

    closed spec fn view(&self) -> FrameView {
        FrameView {
            data: match self.data {
                Some(bytes) => Some(bytes@),
                None => None,
            },
            stride: self.stride,
        }
    }
}

impl Frame {
    /// A frame without a picture.
    pub fn empty() -> (frame: Frame)
        ensures
            frame@.data is None,
            frame@.stride is None,
    {
        Frame { data: None, stride: None }
    }

    /// A frame with the given picture.
    pub fn new(data: Vec<u8>, stride: Option<u32>) -> (frame: Frame)
        ensures
            frame@.data == Some(data@),
            frame@.stride == stride,
    {
        Frame { data: Some(data), stride }
    }

    /// The bytes of the picture, if the frame holds one.
    pub fn readable(&self) -> (bytes: Option<&Vec<u8>>)
        ensures
            match bytes {
                Some(b) => self@.data == Some(b@),
                None => self@.data is None,
            },
    {
        match &self.data {
            Some(bytes) => Some(bytes),
            None => None,
        }
    }

    /// The row stride in bytes, where the backend reported one.
    pub fn stride(&self) -> (stride: Option<u32>)
        ensures
            stride == self@.stride,
    {
        self.stride
    }

    /// A copy of the frame.
    pub fn duplicate(&self) -> (copy: Frame)
        ensures
            copy@ == self@,
    {
        match &self.data {
            Some(bytes) => Frame { data: Some(bytes.clone()), stride: self.stride },
            None => Frame { data: None, stride: self.stride },
        }
    }
}

/// What a frame store holds.
pub struct FrameStoreView {
    /// The frame that was written last.
    pub frame: FrameView,
    /// Whether that frame has not been read yet.
    pub dirty: bool,
}

impl FrameStoreView {
    /// The store after a frame was written to it.
    pub open spec fn written(self, frame: FrameView) -> FrameStoreView {
        FrameStoreView { frame, dirty: true }
    }

    /// The store after a read.
    pub open spec fn read(self) -> FrameStoreView {
        FrameStoreView { frame: self.frame, dirty: false }
    }

    /// What a read returns: the stored frame if it is new, else nothing.
    pub open spec fn fresh(self) -> Option<FrameView> {
        if self.dirty {
            Some(self.frame)
        } else {
            None
        }
    }

    /// The store after the given frames were written to it, first to last.
    pub open spec fn written_all(self, frames: Seq<FrameView>) -> FrameStoreView
        decreases frames.len(),
    {
        if frames.len() == 0 {
            self
        } else {
            self.written_all(frames.drop_last()).written(frames.last())
        }
    }
}

/// The newest decoded frame, with a flag that tells whether it was read.
///
/// The decode worker is the only writer and the presenting side the only
/// reader. Both reach the store through one lock, so each call below runs to
/// its end before the next begins.
#[derive(Debug)]
pub struct FrameStore {
    frame: Frame,
    dirty: bool,
}

impl View for FrameStore {
    type V = FrameStoreView;

    closed spec fn view(&self) -> FrameStoreView {
        FrameStoreView { frame: self.frame@, dirty: self.dirty }
    }
}

impl FrameStore {
    /// A store that holds a frame without a picture, already read.
    pub fn new() -> (store: FrameStore)
        ensures
            store@.frame.data is None,
            store@.frame.stride is None,
            !store@.dirty,
    {
        FrameStore { frame: Frame::empty(), dirty: false }
    }

    /// Replaces the stored frame and marks it as new.
    pub fn write(&mut self, frame: Frame)
        ensures
            final(self)@ == old(self)@.written(frame@),
    {
        self.frame = frame;
        self.dirty = true;
    }

    /// Returns the stored frame if it is new, and marks it as read.
    pub fn read_and_clear(&mut self) -> (frame: Option<Frame>)
        ensures
            final(self)@ == old(self)@.read(),
            match frame {
                Some(f) => old(self)@.fresh() == Some(f@),
                None => old(self)@.fresh() is None,
            },
    {
        if self.dirty {
            self.dirty = false;
            Some(self.frame.duplicate())
        } else {
            None
        }
    }

    /// Whether the stored frame has not been read yet.
    pub fn is_dirty(&self) -> (dirty: bool)
        ensures
            dirty == self@.dirty,
    {
        self.dirty
    }

    /// What a tick is told of the stored frame: for how long it has waited,
    /// given the time since it arrived, if it waits to be presented, and
    /// nothing if it was read.
    pub fn waiting(&self, since_arrival: std::time::Duration) -> (latency: Option<
        std::time::Duration,
    >)
        ensures
            latency == if self@.dirty {
                Some(since_arrival)
            } else {
                None
            },
    {
        if self.dirty {
            Some(since_arrival)
        } else {
            None
        }
    }

    /// Marks the stored frame as read without reading it.
    pub fn clear(&mut self)
        ensures
            final(self)@ == old(self)@.read(),
    {
        self.dirty = false;
    }

    /// The stored frame, new or not.
    pub fn frame(&self) -> (frame: &Frame)
        ensures
            frame@ == self@.frame,
    {
        &self.frame
    }
}

/// A reader never sees a mix of two frames: after any run of writes the store
/// holds the frame that was written last, whole, and a read returns exactly
/// that frame. After the read the store holds it still, and a second read
/// returns nothing.
pub proof fn law_read_returns_last_write(store: FrameStoreView, frames: Seq<FrameView>)
    requires
        frames.len() > 0,
    ensures
        store.written_all(frames).frame == frames.last(),
        store.written_all(frames).fresh() == Some(frames.last()),
        store.written_all(frames).read().frame == frames.last(),
        store.written_all(frames).read().fresh() is None,
{
}

/// Between two writes a reader sees the earlier of the two frames, whole: a
/// read that comes after all but the last of a run of writes returns the
/// frame written just before the last.
pub proof fn law_read_between_writes(store: FrameStoreView, frames: Seq<FrameView>)
    requires
        frames.len() > 1,
    ensures
        store.written_all(frames.drop_last()).fresh() == Some(frames[frames.len() - 2]),
        store.written_all(frames.drop_last()).read().written(frames.last()) == store.written_all(
            frames,
        ),
{
    law_read_returns_last_write(store, frames.drop_last());
}

} // verus!
