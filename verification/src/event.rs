use vstd::prelude::*;

verus! {

/// What a producer can ask of the consumer loop.
#[derive(Clone, Debug, PartialEq, Eq)]
pub enum OsxSystemTrayEvent {
    /// Replace the displayed icon by the image encoded in these bytes.
    ChangeImage(Vec<u8>),
    /// Stop the consumer loop.
    Shutdown,
}

/// The mathematical value of an event.
pub enum EventView {
    ChangeImage(Seq<u8>),
    Shutdown,
}

impl View for OsxSystemTrayEvent {
    type V = EventView;

    open spec fn view(&self) -> EventView {
        match *self {
            OsxSystemTrayEvent::ChangeImage(bytes) => EventView::ChangeImage(bytes@),
            OsxSystemTrayEvent::Shutdown => EventView::Shutdown,
        }
    }
}

} // verus!
