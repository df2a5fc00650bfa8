//! Icons, their display sizes, and what the native layer reports of an attempt to
//! display one.

use crate::error::Error;
use vstd::prelude::*;

verus! {

/// Side, in display units, of the icon that the controller installs itself.
pub const INITIAL_ICON_SIDE: u32 = 18;

/// Side, in display units, of an icon that arrives through the event channel.
pub const UPDATE_ICON_SIDE: u32 = 32;

/// How long, in milliseconds, the consumer loop yields once the channel is empty.
pub const POLL_INTERVAL_MS: u64 = 10;

/// The size at which an image is displayed, in display units.
#[derive(Clone, Copy, Debug, PartialEq, Eq, Structural)]
pub struct IconSize {
    pub width: u32,
    pub height: u32,
}

impl IconSize {
    /// The square size of the given side.
    pub fn square(side: u32) -> (s: IconSize)
        ensures
            s == (IconSize { width: side, height: side }),
    {
        IconSize { width: side, height: side }
    }
}

/// An encoded image together with the size at which it is displayed.
#[derive(Clone, Debug, PartialEq, Eq)]
pub struct Icon {
    pub data: Vec<u8>,
    pub size: IconSize,
}

/// The mathematical value of an icon.
pub struct IconView {
    pub data: Seq<u8>,
    pub size: IconSize,
}

impl View for Icon {
    type V = IconView;

    open spec fn view(&self) -> IconView {
        IconView { data: self.data@, size: self.size }
    }
}

/// The view of an icon that may be absent.
pub open spec fn icon_view(icon: Option<Icon>) -> Option<IconView> {
    match icon {
        Some(i) => Some(i@),
        None => None,
    }
}

/// What can be tuned: the two display sizes and the consumer loop's poll interval.
#[derive(Clone, Copy, Debug, PartialEq, Eq, Structural)]
pub struct TrayConfig {
    /// The size of the icon that the controller installs itself.
    pub initial_size: IconSize,
    /// The size of an icon that arrives through the event channel.
    pub update_size: IconSize,
    /// How long the consumer loop yields once the channel is empty, in milliseconds.
    pub poll_interval_ms: u64,
}

impl TrayConfig {
    /// The configuration that is used where none is given.
    pub open spec fn standard() -> TrayConfig {
        TrayConfig {
            initial_size: IconSize { width: INITIAL_ICON_SIDE, height: INITIAL_ICON_SIDE },
            update_size: IconSize { width: UPDATE_ICON_SIDE, height: UPDATE_ICON_SIDE },
            poll_interval_ms: POLL_INTERVAL_MS,
        }
    }
}

impl Default for TrayConfig {
    fn default() -> (c: TrayConfig)
        ensures
            c == TrayConfig::standard(),
    {
        TrayConfig {
            initial_size: IconSize::square(INITIAL_ICON_SIDE),
            update_size: IconSize::square(UPDATE_ICON_SIDE),
            poll_interval_ms: POLL_INTERVAL_MS,
        }
    }
}

/// What the native layer reports after it was asked to display an image.
#[derive(Clone, Copy, Debug, PartialEq, Eq, Structural)]
pub enum DisplayOutcome {
    /// The image was decoded, resized, and is now displayed.
    Shown,
    /// The operating system could not take the bytes. Nothing was displayed.
    Unreadable,
    /// The bytes are not an image that can be decoded. Nothing was displayed.
    Undecodable,
}

/// What the caller of a display operation is told, given what became of the attempt:
/// either the native layer's report, or the error that kept it from being asked.
pub open spec fn settled(attempt: Result<DisplayOutcome, Error>) -> Result<(), Error> {
    match attempt {
        Ok(DisplayOutcome::Shown) => Ok(()),
        Ok(DisplayOutcome::Unreadable) => Err(Error::IO),
        Ok(DisplayOutcome::Undecodable) => Err(Error::Codec),
        Err(e) => Err(e),
    }
}

/// Whether the attempt put a new image on display.
pub open spec fn shown(attempt: Result<DisplayOutcome, Error>) -> bool {
    attempt == Ok::<DisplayOutcome, Error>(DisplayOutcome::Shown)
}

/// Turns the outcome of a display attempt into the result that the caller sees.
pub fn settle(attempt: Result<DisplayOutcome, Error>) -> (r: Result<(), Error>)
    ensures
        r == settled(attempt),
        r is Ok <==> shown(attempt),
{
    match attempt {
        Ok(DisplayOutcome::Shown) => Ok(()),
        Ok(DisplayOutcome::Unreadable) => Err(Error::IO),
        Ok(DisplayOutcome::Undecodable) => Err(Error::Codec),
        Err(e) => Err(e),
    }
}

} // verus!
