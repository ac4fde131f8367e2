use vstd::prelude::*;

verus! {

/// An RGB color with 8 bits per channel.
#[derive(Clone, Copy, PartialEq, Eq, Structural, Debug)]
pub struct Color {
    pub r: u8,
    pub g: u8,
    pub b: u8,
}

impl Color {
    pub fn new(r: u8, g: u8, b: u8) -> (c: Color)
        ensures
            c == (Color { r, g, b }),
    {
        Color { r, g, b }
    }
}

/// A screen image, stored row by row.
pub struct FrameBuffer {
    pub width: usize,
    pub height: usize,
    pub buffer: Vec<Color>,
}

impl FrameBuffer {
    pub open spec fn wf(&self) -> bool {
        self.buffer.len() == self.width * self.height
    }

    pub fn new(width: usize, height: usize) -> (r: FrameBuffer)
        requires
            width * height <= usize::MAX,
        ensures
            r.wf(),
            r.width == width,
            r.height == height,
            forall|i: int| 0 <= i < r.buffer.len() ==> r.buffer@[i] == (Color { r: 0, g: 0, b: 0 }),
    {
        let n = width * height;
        FrameBuffer { width, height, buffer: vec![Color { r: 0, g: 0, b: 0 }; n] }
    }

    /// Changes the size; the contents are cleared to black when the size changes.
    pub fn resize(&mut self, width: usize, height: usize)
        requires
            width * height <= usize::MAX,
        ensures
            final(self).wf(),
            final(self).width == width,
            final(self).height == height,
            (old(self).wf() && old(self).width == width && old(self).height == height)
                ==> final(self).buffer@ == old(self).buffer@,
    {
        if !(self.buffer.len() == width * height && self.width == width && self.height == height) {
            let n = width * height;
            self.width = width;
            self.height = height;
            self.buffer = vec![Color { r: 0, g: 0, b: 0 }; n];
        }
    }

    pub fn pixel(&self, x: usize, y: usize) -> (c: Color)
        requires
            self.wf(),
            x < self.width,
            y < self.height,
        ensures
            c == self.buffer@[y * self.width + x],
    {
        proof {
            vstd::arithmetic::mul::lemma_mul_is_distributive_add_other_way(self.width as int, y as int, 1);
            vstd::arithmetic::mul::lemma_mul_inequality(y as int + 1, self.height as int, self.width as int);
        }
        self.buffer[y * self.width + x]
    }

    pub fn set(&mut self, x: usize, y: usize, c: Color)
        requires
            old(self).wf(),
            x < old(self).width,
            y < old(self).height,
        ensures
            final(self).wf(),
            final(self).width == old(self).width,
            final(self).height == old(self).height,
            final(self).buffer@ == old(self).buffer@.update(y * old(self).width + x, c),
    {
        proof {
            vstd::arithmetic::mul::lemma_mul_is_distributive_add_other_way(self.width as int, y as int, 1);
            vstd::arithmetic::mul::lemma_mul_inequality(y as int + 1, self.height as int, self.width as int);
        }
        let i = y * self.width + x;
        self.buffer.set(i, c);
    }
}

/// One stereo audio sample.
#[derive(Clone, Copy, PartialEq, Eq, Structural, Debug)]
pub struct AudioSample {
    pub left: i16,
    pub right: i16,
}

impl AudioSample {
    pub fn new(left: i16, right: i16) -> (s: AudioSample)
        ensures
            s == (AudioSample { left, right }),
    {
        AudioSample { left, right }
    }
}

/// Audio produced while emulating.
pub struct AudioBuffer {
    pub sample_rate: u32,
    pub samples: Vec<AudioSample>,
}

impl AudioBuffer {
    pub fn new() -> (r: AudioBuffer)
        ensures
            r.sample_rate == 0,
            r.samples@.len() == 0,
    {
        AudioBuffer { sample_rate: 0, samples: Vec::new() }
    }
}

} // verus!
