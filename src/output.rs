//! The output placeholder that guards the capacity reserved for its buffer.

use vstd::prelude::*;

use crate::error::ImageDataErrors;
use crate::picture::rgba_len;

verus! {

/// Whether the output placeholder has accepted a buffer yet.
#[derive(Clone, Copy, Debug, PartialEq, Eq, Structural)]
pub enum BufferState {
    Empty,
    Filled,
}

/// What an output placeholder holds, in mathematical terms.
pub struct FloatingImageView {
    pub width: u32,
    pub height: u32,
    pub data: Seq<u8>,
    pub name: Seq<char>,
    pub capacity: nat,
    pub state: BufferState,
}

impl FloatingImageView {
    /// The same placeholder once it has accepted `data`.
    pub open spec fn filled_with(self, data: Seq<u8>) -> FloatingImageView {
        FloatingImageView {
            width: self.width,
            height: self.height,
            data,
            name: self.name,
            capacity: self.capacity,
            state: BufferState::Filled,
        }
    }
}

/// The output image before it is written: its size, its destination name,
/// and the RGBA buffer it accepts once that buffer fits the capacity
/// reserved for it.
pub struct FloatingImage {
    width: u32,
    height: u32,
    data: Vec<u8>,
    name: String,
    capacity: usize,
    state: BufferState,
}

impl View for FloatingImage {
    type V = FloatingImageView;

    closed spec fn view(&self) -> FloatingImageView {
        FloatingImageView {
            width: self.width,
            height: self.height,
            data: self.data@,
            name: self.name@,
            capacity: self.capacity as nat,
            state: self.state,
        }
    }
}

impl FloatingImage {
    /// The buffer never exceeds the reserved capacity, and stays empty until
    /// one is accepted.
    pub closed spec fn wf(&self) -> bool {
        &&& self.data@.len() <= self.capacity
        &&& self.state == BufferState::Empty ==> self.data@.len() == 0
    }

    /// An empty placeholder whose capacity is four bytes for each of its
    /// `width * height` pixels.
    pub fn new(width: u32, height: u32, name: String) -> (r: FloatingImage)
        requires
            rgba_len(width, height) <= usize::MAX,
        ensures
            r.wf(),
            (r@ == FloatingImageView {
                width,
                height,
                data: Seq::empty(),
                name: name@,
                capacity: rgba_len(width, height) as nat,
                state: BufferState::Empty,
            }),
    {
        proof {
            assert(0 <= width as int * height as int <= width as int * height as int * 4)
                by (nonlinear_arith);
        }
        let buffer_capacity: usize = width as usize * height as usize * 4;
        let buffer: Vec<u8> = Vec::with_capacity(buffer_capacity);
        FloatingImage { width, height, data: buffer, name, capacity: buffer_capacity, state: BufferState::Empty }
    }

    /// Accepts `data` as the image's buffer where it fits the reserved
    /// capacity; otherwise fails and leaves the placeholder as it was.
    pub fn set_data(&mut self, data: Vec<u8>) -> (r: Result<(), ImageDataErrors>)
        requires
            old(self).wf(),
        ensures
            final(self).wf(),
            data@.len() > old(self)@.capacity ==> r == Err::<(), ImageDataErrors>(
                ImageDataErrors::BufferTooSmall,
            ) && final(self)@ == old(self)@,
            data@.len() <= old(self)@.capacity ==> r == Ok::<(), ImageDataErrors>(())
                && final(self)@ == old(self)@.filled_with(data@),
    {
        if data.len() > self.capacity {
            return Err(ImageDataErrors::BufferTooSmall);
        }
        self.data = data;
        self.state = BufferState::Filled;
        Ok(())
    }

    pub fn width(&self) -> (r: u32)
        ensures
            r == self@.width,
    {
        self.width
    }

    pub fn height(&self) -> (r: u32)
        ensures
            r == self@.height,
    {
        self.height
    }

    /// The accepted RGBA buffer; empty until one is accepted.
    pub fn data(&self) -> (r: &Vec<u8>)
        ensures
            r@ == self@.data,
    {
        &self.data
    }

    /// The destination the image is written to.
    pub fn name(&self) -> (r: &String)
        ensures
            r@ == self@.name,
    {
        &self.name
    }

    /// The largest buffer, in bytes, that `set_data` accepts.
    pub fn capacity(&self) -> (r: usize)
        ensures
            r == self@.capacity,
    {
        self.capacity
    }

    pub fn state(&self) -> (r: BufferState)
        ensures
            r == self@.state,
    {
        self.state
    }
}

} // verus!
