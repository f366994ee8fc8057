//! The renderer's state: the decoded image asset, its centered placement in
//! the fixed destination frame, and the background animation state, threaded
//! explicitly through the render loop.

use vstd::prelude::*;
use crate::animation::AnimationState;
use crate::compositor::composite;
use crate::compositor::composited_byte;
use crate::compositor::Placement;
use crate::image::load;
use crate::image::png_frame_data;
use crate::image::png_frame_height;
use crate::image::png_frame_ok;
use crate::image::png_frame_width;
use crate::image::DecodeError;
use crate::image::ImageAsset;
use crate::DEST_HEIGHT;
use crate::DEST_WIDTH;

verus! {

/// Why the world could not be constructed. Both cases are startup-fatal:
/// the image bytes are fixed at build time, so either one is a build defect
/// to fail fast on, not a runtime condition to recover from.
#[derive(Clone, Copy, PartialEq, Eq, Structural, Debug)]
pub enum WorldError {
    /// The embedded image bytes did not decode into a usable asset.
    Decode(DecodeError),
    /// The decoded image does not fit inside the fixed destination frame.
    DoesNotFit,
}

/// Everything the render loop owns: built once at startup, mutated only by
/// `update`, one tick per prepared frame.
pub struct World {
    pub asset: ImageAsset,
    pub placement: Placement,
    pub anim: AnimationState,
}

impl World {
    /// A well-formed asset placed wholly inside the fixed destination, and
    /// an in-bounds animation state.
    pub open spec fn wf(&self) -> bool {
        &&& self.asset.wf()
        &&& self.anim.wf()
        &&& self.placement.fits(
            DEST_WIDTH as int,
            DEST_HEIGHT as int,
            self.asset.width as int,
            self.asset.height as int,
        )
    }

    /// Decode the embedded image bytes and build the world around them: the
    /// image is placed at the integer-truncated centering offset of the
    /// fixed destination frame, and the animation starts dark and rising.
    /// Success, the asset's exact content and every error are pinned over
    /// the named decode results; the one escape is the machine-limit
    /// outcome `Decode(TooLarge)`, which may stand in for success on a
    /// machine the frame does not fit.
    pub fn new(bytes: &Vec<u8>) -> (r: Result<World, WorldError>)
        ensures
            r matches Ok(w) ==> {
                &&& w.wf()
                &&& w.anim == AnimationState::spec_init()
                &&& w.placement.x == (DEST_WIDTH - w.asset.width) / 2
                &&& w.placement.y == (DEST_HEIGHT - w.asset.height) / 2
                &&& png_frame_ok(bytes@)
                &&& w.asset.pixels@ == png_frame_data(bytes@)
                &&& w.asset.width == png_frame_width(bytes@)
                &&& w.asset.height == png_frame_height(bytes@)
            },
            r == Err::<World, WorldError>(WorldError::DoesNotFit) ==> {
                &&& png_frame_ok(bytes@)
                &&& (png_frame_width(bytes@) > DEST_WIDTH || png_frame_height(bytes@)
                    > DEST_HEIGHT)
            },
            r == Err::<World, WorldError>(WorldError::Decode(DecodeError::Malformed))
                ==> !png_frame_ok(bytes@),
            r == Err::<World, WorldError>(WorldError::Decode(DecodeError::EmptyImage)) ==> {
                &&& png_frame_ok(bytes@)
                &&& (png_frame_width(bytes@) == 0 || png_frame_height(bytes@) == 0)
            },
            r == Err::<World, WorldError>(WorldError::Decode(DecodeError::SizeMismatch)) ==> {
                &&& png_frame_ok(bytes@)
                &&& 0 < png_frame_width(bytes@)
                &&& 0 < png_frame_height(bytes@)
                &&& png_frame_data(bytes@).len() != 4 * png_frame_width(bytes@)
                    * png_frame_height(bytes@)
            },
            (png_frame_ok(bytes@) && 0 < png_frame_width(bytes@) <= DEST_WIDTH && 0
                < png_frame_height(bytes@) <= DEST_HEIGHT && png_frame_data(bytes@).len() == 4
                * png_frame_width(bytes@) * png_frame_height(bytes@)) ==> (r is Ok || r == Err::<
                World,
                WorldError,
            >(WorldError::Decode(DecodeError::TooLarge))),
    {
        let asset: ImageAsset = match load(bytes) {
            Ok(a) => a,
            Err(e) => {
                return Err(WorldError::Decode(e));
            },
        };
        if asset.width > DEST_WIDTH || asset.height > DEST_HEIGHT {
            return Err(WorldError::DoesNotFit);
        }
        let placement: Placement = Placement::centered(
            DEST_WIDTH,
            DEST_HEIGHT,
            asset.width,
            asset.height,
        );
        Ok(World { asset, placement, anim: AnimationState::init() })
    }

    /// One animation tick per prepared frame: advance the background state
    /// machine once and hand back the new linear intensity, in thousandths
    /// of full brightness. Nothing else of the world changes.
    pub fn update(&mut self) -> (intensity: u32)
        requires
            old(self).wf(),
        ensures
            final(self).anim == old(self).anim.stepped(),
            final(self).asset == old(self).asset,
            final(self).placement == old(self).placement,
            final(self).wf(),
            intensity == final(self).anim.intensity,
    {
        self.anim.tick()
    }

    /// Fill the destination frame: every byte of it is pinned to the source
    /// byte inside the placed image's footprint and to transparent black
    /// outside it.
    pub fn draw(&self, frame: &mut Vec<u8>)
        requires
            self.wf(),
            old(frame)@.len() == DEST_WIDTH * DEST_HEIGHT * 4,
        ensures
            final(frame)@.len() == old(frame)@.len(),
            forall|i: int|
                0 <= i < final(frame)@.len() ==> final(frame)@[i] == composited_byte(
                    i,
                    DEST_WIDTH as int,
                    self.placement.x as int,
                    self.placement.y as int,
                    self.asset.pixels@,
                    self.asset.width as int,
                    self.asset.height as int,
                ),
    {
        composite(frame, DEST_WIDTH, DEST_HEIGHT, &self.placement, &self.asset);
    }
}

} // verus!
