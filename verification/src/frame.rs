use vstd::prelude::*;

verus! {

/// One decoded video frame: tightly packed RGBA pixels, row-major, no
/// stride padding, so a well-formed buffer holds exactly
/// `width * height * 4` bytes.
#[derive(Clone, Debug, PartialEq)]
pub struct PixelBuffer {
    pub width: u32,
    pub height: u32,
    pub pixels: Vec<u8>,
}

impl PixelBuffer {
    /// Frame integrity: the pixel data is exactly four bytes per pixel.
    pub open spec fn wf(self) -> bool {
        self.pixels@.len() == self.width * self.height * 4
    }
}

/// The signal a frame callback hands back to the pipeline when it cannot
/// produce a frame: end the stream, or flag a per-frame error and let the
/// pipeline decide. Mirrors the pipeline's own flow-control vocabulary.
#[derive(Clone, Copy, Debug, PartialEq, Eq, Structural)]
pub enum FrameFlowError {
    Eos,
    Error,
}

/// What the producer callback could pull out of the pipeline for one frame
/// tick, with every step that can fail modelled as an `Option`: the mapped
/// readable bytes of the sample's buffer, and the width and height read
/// from the sink pad's current caps.
#[derive(Clone, Debug)]
pub struct SampleParts {
    pub bytes: Option<Vec<u8>>,
    pub width: Option<i32>,
    pub height: Option<i32>,
}

/// A sample yields a frame exactly when every part is present, the
/// dimensions are positive, and the mapped bytes are tightly packed RGBA.
pub open spec fn sample_ok(s: SampleParts) -> bool {
    &&& s.bytes is Some
    &&& s.width is Some
    &&& s.height is Some
    &&& 0 < s.width.unwrap()
    &&& 0 < s.height.unwrap()
    &&& s.bytes.unwrap()@.len() == s.width.unwrap() * s.height.unwrap() * 4
}

/// The frame a valid sample turns into.
pub open spec fn frame_of(s: SampleParts) -> PixelBuffer {
    PixelBuffer {
        width: s.width.unwrap() as u32,
        height: s.height.unwrap() as u32,
        pixels: s.bytes.unwrap(),
    }
}

/// The frame adapter's extraction step. A missing sample means the source
/// has dried up (end of stream); any missing or inconsistent part of a
/// present sample is a per-frame error, recovered by skipping the frame —
/// never a panic.
pub fn extract_frame(sample: Option<SampleParts>) -> (r: Result<PixelBuffer, FrameFlowError>)
    ensures
        sample is None ==> r == Err::<PixelBuffer, FrameFlowError>(FrameFlowError::Eos),
        sample matches Some(s) ==> r == (if sample_ok(s) {
            Ok::<PixelBuffer, FrameFlowError>(frame_of(s))
        } else {
            Err::<PixelBuffer, FrameFlowError>(FrameFlowError::Error)
        }),
        r matches Ok(pb) ==> pb.wf(),
{
    let s = match sample {
        None => {
            return Err(FrameFlowError::Eos);
        },
        Some(s) => s,
    };
    let bytes = match s.bytes {
        None => {
            return Err(FrameFlowError::Error);
        },
        Some(b) => b,
    };
    let w = match s.width {
        None => {
            return Err(FrameFlowError::Error);
        },
        Some(w) => w,
    };
    let h = match s.height {
        None => {
            return Err(FrameFlowError::Error);
        },
        Some(h) => h,
    };
    if w <= 0 || h <= 0 {
        return Err(FrameFlowError::Error);
    }
    let wu: u64 = w as u64;
    let hu: u64 = h as u64;
    proof {
        assert(wu * hu * 4 < 0xffff_ffff_ffff_ffff) by (nonlinear_arith)
            requires
                wu <= 0x7fff_ffff,
                hu <= 0x7fff_ffff,
        ;
    }
    if bytes.len() as u64 != wu * hu * 4 {
        return Err(FrameFlowError::Error);
    }
    Ok(PixelBuffer { width: w as u32, height: h as u32, pixels: bytes })
}

/// Frame integrity law: every frame the adapter delivers carries exactly
/// `width * height * 4` pixel bytes.
pub proof fn lemma_frame_integrity(pb: PixelBuffer)
    requires
        pb.wf(),
    ensures
        pb.pixels@.len() == pb.width * pb.height * 4,
{
}

} // verus!
