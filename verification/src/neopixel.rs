use vstd::prelude::*;

use crate::color::{hsv_to_rgb, valid_hsv, Rgb};
use crate::error::Error;
use crate::pulse::{encode_frame, frame_of, PulseFrame};

verus! {

/// One addressable pixel, as far as the encoder is concerned: the colour it
/// was last given.
///
/// Giving the pixel a colour yields the frame for it. The pixel shows the
/// colour once a transmitter has clocked that frame out.
#[derive(Debug, PartialEq, Eq)]
pub struct Neopixel {
    color: Option<Rgb>,
}

impl Neopixel {
    /// The colour the pixel was last given, or `None` before the first.
    pub closed spec fn shown(&self) -> Option<Rgb> {
        self.color
    }

    /// A pixel that has not been given a colour yet.
    pub fn new() -> (pixel: Neopixel)
        ensures
            pixel.shown() is None,
    {
        Neopixel { color: None }
    }

    /// The colour the pixel was last given, or `None` before the first.
    pub fn color(&self) -> (color: Option<Rgb>)
        ensures
            color == self.shown(),
    {
        self.color
    }

    /// Gives the pixel a colour and returns the frame that shows it.
    pub fn set_color(&mut self, rgb: Rgb) -> (frame: PulseFrame)
        ensures
            final(self).shown() == Some(rgb),
            frame@ == frame_of(rgb),
    {
        self.color = Some(rgb);
        encode_frame(rgb)
    }

    /// Gives the pixel the colour of an HSV triple and returns the frame that
    /// shows it.
    ///
    /// A triple out of range is rejected and leaves the pixel as it was.
    pub fn set_color_hsv(&mut self, h: u32, s: u32, v: u32) -> (result: Result<PulseFrame, Error>)
        ensures
            valid_hsv(h as int, s as int, v as int) ==> {
                &&& result matches Ok(frame)
                &&& frame@ == frame_of(hsv_to_rgb(h as int, s as int, v as int))
                &&& final(self).shown() == Some(hsv_to_rgb(h as int, s as int, v as int))
            },
            !valid_hsv(h as int, s as int, v as int) ==> {
                &&& result matches Err(error)
                &&& error == Error::InvalidColorInput
                &&& *final(self) == *old(self)
            },
    {
        match Rgb::from_hsv(h, s, v) {
            Ok(rgb) => Ok(self.set_color(rgb)),
            Err(error) => Err(error),
        }
    }
}

} // verus!
