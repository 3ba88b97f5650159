use vstd::prelude::*;

use crate::error::Error;

verus! {

/// Serial port baud rates.
#[derive(Debug, Clone, Copy, PartialEq, Eq, Structural)]
pub enum BaudRate {
    /// 110 baud.
    Baud110,
    /// 300 baud.
    Baud300,
    /// 600 baud.
    Baud600,
    /// 1200 baud.
    Baud1200,
    /// 2400 baud.
    Baud2400,
    /// 4800 baud.
    Baud4800,
    /// 9600 baud.
    Baud9600,
    /// 19,200 baud.
    Baud19200,
    /// 38,400 baud.
    Baud38400,
    /// 57,600 baud.
    Baud57600,
    /// 115,200 baud.
    Baud115200,
    /// A non-standard rate, given in baud. Not all hardware supports it.
    BaudOther(usize),
}

/// Number of bits per character.
#[derive(Debug, Clone, Copy, PartialEq, Eq, Structural)]
pub enum CharSize {
    /// 5 bits per character.
    Bits5,
    /// 6 bits per character.
    Bits6,
    /// 7 bits per character.
    Bits7,
    /// 8 bits per character.
    Bits8,
}

/// Parity checking modes.
///
/// With `ParityOdd` or `ParityEven` one parity bit is sent with each character,
/// so that the number of 1 bits (character and parity bit) is odd or even.
#[derive(Debug, Clone, Copy, PartialEq, Eq, Structural)]
pub enum Parity {
    /// No parity bit.
    ParityNone,
    /// Parity bit sets an odd number of 1 bits.
    ParityOdd,
    /// Parity bit sets an even number of 1 bits.
    ParityEven,
}

/// Number of stop bits, sent after every character.
#[derive(Debug, Clone, Copy, PartialEq, Eq, Structural)]
pub enum StopBits {
    /// One stop bit.
    Stop1,
    /// Two stop bits.
    Stop2,
}

/// Flow control modes.
#[derive(Debug, Clone, Copy, PartialEq, Eq, Structural)]
pub enum FlowControl {
    /// No flow control.
    FlowNone,
    /// Flow control using XON/XOFF bytes.
    FlowSoftware,
    /// Flow control using the RTS/CTS signals.
    FlowHardware,
}

/// The five fields of a settings object as it reports them. `None` means that
/// the configuration cannot be expressed in this vocabulary; it does not mean
/// that the feature is switched off.
pub struct SettingsView {
    pub baud_rate: Option<BaudRate>,
    pub char_size: Option<CharSize>,
    pub parity: Option<Parity>,
    pub stop_bits: Option<StopBits>,
    pub flow_control: Option<FlowControl>,
}

impl SettingsView {
    pub open spec fn with_baud_rate(self, baud_rate: BaudRate) -> SettingsView {
        SettingsView {
            baud_rate: Some(baud_rate),
            char_size: self.char_size,
            parity: self.parity,
            stop_bits: self.stop_bits,
            flow_control: self.flow_control,
        }
    }

    pub open spec fn with_char_size(self, char_size: CharSize) -> SettingsView {
        SettingsView {
            baud_rate: self.baud_rate,
            char_size: Some(char_size),
            parity: self.parity,
            stop_bits: self.stop_bits,
            flow_control: self.flow_control,
        }
    }

    pub open spec fn with_parity(self, parity: Parity) -> SettingsView {
        SettingsView {
            baud_rate: self.baud_rate,
            char_size: self.char_size,
            parity: Some(parity),
            stop_bits: self.stop_bits,
            flow_control: self.flow_control,
        }
    }

    pub open spec fn with_stop_bits(self, stop_bits: StopBits) -> SettingsView {
        SettingsView {
            baud_rate: self.baud_rate,
            char_size: self.char_size,
            parity: self.parity,
            stop_bits: Some(stop_bits),
            flow_control: self.flow_control,
        }
    }

    pub open spec fn with_flow_control(self, flow_control: FlowControl) -> SettingsView {
        SettingsView {
            baud_rate: self.baud_rate,
            char_size: self.char_size,
            parity: self.parity,
            stop_bits: self.stop_bits,
            flow_control: Some(flow_control),
        }
    }
}

/// Objects that hold a serial port configuration.
///
/// Setters change the object in memory only; a device sees the change when
/// the object is written to it.
pub trait SerialPortSettings {
    /// The fields as this object reports them.
    spec fn fields(&self) -> SettingsView;

    /// Whether `set_baud_rate` takes the given rate.
    spec fn accepts_baud_rate(&self, baud_rate: BaudRate) -> bool;

    /// The error with which `set_baud_rate` refuses a rate it does not take.
    spec fn baud_rate_refusal(&self, baud_rate: BaudRate) -> Error;

    /// Returns the baud rate, or `None` if it cannot be determined.
    fn baud_rate(&self) -> (r: Option<BaudRate>)
        ensures
            r == self.fields().baud_rate,
    ;

    /// Returns the character size, or `None` if it cannot be determined.
    fn char_size(&self) -> (r: Option<CharSize>)
        ensures
            r == self.fields().char_size,
    ;

    /// Returns the parity-checking mode, or `None` if it cannot be determined.
    fn parity(&self) -> (r: Option<Parity>)
        ensures
            r == self.fields().parity,
    ;

    /// Returns the number of stop bits, or `None` if it cannot be determined.
    fn stop_bits(&self) -> (r: Option<StopBits>)
        ensures
            r == self.fields().stop_bits,
    ;

    /// Returns the flow control mode, or `None` if it cannot be determined.
    fn flow_control(&self) -> (r: Option<FlowControl>)
        ensures
            r == self.fields().flow_control,
    ;

    /// Sets the baud rate. A rate that the object does not take is refused
    /// (most often with an `InvalidInput` error), and the object is left as it
    /// was. A rate that is taken may still be refused by the hardware when the
    /// settings are written.
    fn set_baud_rate(&mut self, baud_rate: BaudRate) -> (r: Result<(), Error>)
        ensures
            r is Ok <==> old(self).accepts_baud_rate(baud_rate),
            r is Err ==> r == Err::<(), Error>(old(self).baud_rate_refusal(baud_rate)),
            r is Ok ==> final(self).fields() == old(self).fields().with_baud_rate(baud_rate),
            r is Err ==> final(self).fields() == old(self).fields(),
    ;

    /// Sets the character size.
    fn set_char_size(&mut self, char_size: CharSize)
        ensures
            final(self).fields() == old(self).fields().with_char_size(char_size),
    ;

    /// Sets the parity-checking mode.
    fn set_parity(&mut self, parity: Parity)
        ensures
            final(self).fields() == old(self).fields().with_parity(parity),
    ;

    /// Sets the number of stop bits.
    fn set_stop_bits(&mut self, stop_bits: StopBits)
        ensures
            final(self).fields() == old(self).fields().with_stop_bits(stop_bits),
    ;

    /// Sets the flow control mode.
    fn set_flow_control(&mut self, flow_control: FlowControl)
        ensures
            final(self).fields() == old(self).fields().with_flow_control(flow_control),
    ;
}

/// A device-independent serial port configuration, in which every field is
/// always known.
#[derive(Debug, Clone, Copy, PartialEq, Eq, Structural)]
pub struct PortSettings {
    /// Baud rate.
    pub baud_rate: BaudRate,
    /// Character size.
    pub char_size: CharSize,
    /// Parity checking mode.
    pub parity: Parity,
    /// Number of stop bits.
    pub stop_bits: StopBits,
    /// Flow control mode.
    pub flow_control: FlowControl,
}

impl PortSettings {
    /// The fields of these settings, every one of them known.
    pub open spec fn known_fields(&self) -> SettingsView {
        SettingsView {
            baud_rate: Some(self.baud_rate),
            char_size: Some(self.char_size),
            parity: Some(self.parity),
            stop_bits: Some(self.stop_bits),
            flow_control: Some(self.flow_control),
        }
    }
}

/// Setting a field of `PortSettings` and then reading it gives back the value
/// just set, and leaves the other fields as they were; the baud rate setter
/// always succeeds.
pub proof fn lemma_port_settings_set_then_get(
    s: PortSettings,
    baud_rate: BaudRate,
    char_size: CharSize,
    parity: Parity,
    stop_bits: StopBits,
    flow_control: FlowControl,
)
    ensures
        s.accepts_baud_rate(baud_rate),
        s.fields().with_baud_rate(baud_rate).baud_rate == Some(baud_rate),
        s.fields().with_char_size(char_size).char_size == Some(char_size),
        s.fields().with_parity(parity).parity == Some(parity),
        s.fields().with_stop_bits(stop_bits).stop_bits == Some(stop_bits),
        s.fields().with_flow_control(flow_control).flow_control == Some(flow_control),
        (PortSettings { baud_rate, ..s }).fields() == s.fields().with_baud_rate(baud_rate),
        (PortSettings { char_size, ..s }).fields() == s.fields().with_char_size(char_size),
        (PortSettings { parity, ..s }).fields() == s.fields().with_parity(parity),
        (PortSettings { stop_bits, ..s }).fields() == s.fields().with_stop_bits(stop_bits),
        (PortSettings { flow_control, ..s }).fields() == s.fields().with_flow_control(
            flow_control,
        ),
{
}

impl Default for PortSettings {
    /// 9600 baud, 8 data bits, no parity, one stop bit, no flow control.
    fn default() -> (r: Self)
        ensures
            r == (PortSettings {
                baud_rate: BaudRate::Baud9600,
                char_size: CharSize::Bits8,
                parity: Parity::ParityNone,
                stop_bits: StopBits::Stop1,
                flow_control: FlowControl::FlowNone,
            }),
    {
        PortSettings {
            baud_rate: BaudRate::Baud9600,
            char_size: CharSize::Bits8,
            parity: Parity::ParityNone,
            stop_bits: StopBits::Stop1,
            flow_control: FlowControl::FlowNone,
        }
    }
}

impl SerialPortSettings for PortSettings {
    open spec fn fields(&self) -> SettingsView {
        self.known_fields()
    }

    open spec fn accepts_baud_rate(&self, baud_rate: BaudRate) -> bool {
        true
    }

    /// Every rate is taken, so no refusal is ever returned.
    open spec fn baud_rate_refusal(&self, baud_rate: BaudRate) -> Error {
        arbitrary()
    }

    fn baud_rate(&self) -> (r: Option<BaudRate>) {
        Some(self.baud_rate)
    }

    fn char_size(&self) -> (r: Option<CharSize>) {
        Some(self.char_size)
    }

    fn parity(&self) -> (r: Option<Parity>) {
        Some(self.parity)
    }

    fn stop_bits(&self) -> (r: Option<StopBits>) {
        Some(self.stop_bits)
    }

    fn flow_control(&self) -> (r: Option<FlowControl>) {
        Some(self.flow_control)
    }

    fn set_baud_rate(&mut self, baud_rate: BaudRate) -> (r: Result<(), Error>) {
        self.baud_rate = baud_rate;
        Ok(())
    }

    fn set_char_size(&mut self, char_size: CharSize) {
        self.char_size = char_size;
    }

    fn set_parity(&mut self, parity: Parity) {
        self.parity = parity;
    }

    fn set_stop_bits(&mut self, stop_bits: StopBits) {
        self.stop_bits = stop_bits;
    }

    fn set_flow_control(&mut self, flow_control: FlowControl) {
        self.flow_control = flow_control;
    }
}

} // verus!
