use vstd::prelude::*;

verus! {

/// Largest number of bytes the output holder accepts.
pub const OUTPUT_CAPACITY: usize = 3_655_744;

/// What can stop a merge.
#[derive(Clone, Copy, Debug, PartialEq, Eq, Structural)]
pub enum ImageDataErrors {
    /// The two inputs were stored in different container formats.
    DifferentImageFormats,
    /// The combined data is larger than the output holder accepts, or resampling an
    /// input to the common size would need more memory than can be addressed.
    BufferTooSmall,
    /// A buffer length does not allow whole 4-byte blocks to be read from both inputs.
    OutOfRange,
}

/// The output image: its size, its pixel bytes and where it goes.
#[derive(Debug)]
pub struct FloatingImage {
    pub width: u32,
    pub height: u32,
    pub data: Vec<u8>,
    pub name: String,
    pub capacity: usize,
}

impl FloatingImage {
    pub open spec fn wf(&self) -> bool {
        self.data.len() <= self.capacity
    }

    /// An empty output holder of the declared capacity.
    pub fn new(width: u32, height: u32, name: String) -> (r: Self)
        ensures
            r.width == width,
            r.height == height,
            r.name == name,
            r.data@.len() == 0,
            r.capacity == OUTPUT_CAPACITY,
            r.wf(),
    {
        let buffer: Vec<u8> = Vec::with_capacity(OUTPUT_CAPACITY);
        FloatingImage { width, height, data: buffer, name, capacity: OUTPUT_CAPACITY }
    }

    /// Replaces the held bytes with `data`, unless `data` exceeds the capacity.
    pub fn set_data(&mut self, data: Vec<u8>) -> (r: Result<(), ImageDataErrors>)
        ensures
            data.len() > old(self).capacity ==> r == Err::<(), ImageDataErrors>(ImageDataErrors::BufferTooSmall),
            data.len() > old(self).capacity ==> *final(self) == *old(self),
            data.len() <= old(self).capacity ==> r == Ok::<(), ImageDataErrors>(()),
            data.len() <= old(self).capacity ==> final(self).data@ == data@,
            final(self).width == old(self).width,
            final(self).height == old(self).height,
            final(self).name == old(self).name,
            final(self).capacity == old(self).capacity,
            old(self).wf() ==> final(self).wf(),
    {
        if data.len() > self.capacity {
            return Err(ImageDataErrors::BufferTooSmall);
        }
        self.data = data;
        Ok(())
    }
}

} // verus!
