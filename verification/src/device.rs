use vstd::prelude::*;

verus! {

/// Declares the handle to the blink(1) device so that verified code can hold
/// one.  The value is opaque.
#[verifier::external_type_specification]
#[verifier::external_body]
pub struct ExBlinkers(blinkrs::Blinkers);

/// Declares the error type of the blinkrs crate.  The value is opaque; the
/// library maps it to its own error type.
#[verifier::external_type_specification]
#[verifier::external_body]
pub struct ExBlinkError(blinkrs::BlinkError);

/// Relies on blinkrs::Blinkers::new to acquire a USB context for talking to
/// blink(1) devices; it fails when the context cannot be created.
pub assume_specification[ blinkrs::Blinkers::new ]() -> Result<
    blinkrs::Blinkers,
    blinkrs::BlinkError,
>;

/// Relies on blinkrs::Blinkers::send with a Message::Fade command: it tells
/// every connected blink(1) device to fade to the given red/green/blue color
/// over the given number of milliseconds, and returns how many bytes were
/// written.  Success depends on the physical device, so nothing is stated
/// about the result.
#[verifier::external_body]
pub(crate) fn send_fade(
    blinkers: &blinkrs::Blinkers,
    red: u8,
    green: u8,
    blue: u8,
    millis: u64,
) -> Result<usize, blinkrs::BlinkError> {
    blinkers.send(
        blinkrs::Message::Fade(
            blinkrs::Color::Three(red, green, blue),
            std::time::Duration::from_millis(millis),
            None,
        ),
    )
}

} // verus!
