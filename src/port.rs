use vstd::prelude::*;

use crate::error::Error;
use crate::settings::{PortSettings, SerialPortSettings, SettingsView};

verus! {

/// The timeout type of `time`, carried through without looking inside.
#[verifier::external_type_specification]
#[verifier::external_body]
pub struct ExDuration(time::Duration);

/// Errors that a device reports when it is absent or a host call fails.
pub open spec fn device_error<T>(r: Result<T, Error>) -> bool {
    r matches Err(e) ==> (e.kind() is NoDevice || e.kind() is Io)
}

/// The settings last written to a device after one `configure` with
/// `target`, where `before` were the last ones written before it: the call
/// wrote nothing, or it wrote `target`.
pub open spec fn configure_outcome(
    before: Option<SettingsView>,
    after: Option<SettingsView>,
    target: SettingsView,
) -> bool {
    after == before || after == Some(target)
}

/// Two `configure` calls made one after the other on a device, through one
/// port object or two, leave as the last settings written one of the two
/// targets whole, or what was there before: never a mix of fields.
pub proof fn lemma_serialized_configures(
    w0: Option<SettingsView>,
    w1: Option<SettingsView>,
    w2: Option<SettingsView>,
    first: PortSettings,
    second: PortSettings,
)
    requires
        configure_outcome(w0, w1, first.known_fields()),
        configure_outcome(w1, w2, second.known_fields()),
    ensures
        w2 == w0 || w2 == Some(first.known_fields()) || w2 == Some(second.known_fields()),
{
}

/// The timeout and the control lines that were last handed to two device
/// states are the same.
pub open spec fn same_timeout_and_lines<D: SerialDevice>(a: &D, b: &D) -> bool {
    &&& a.current_timeout() == b.current_timeout()
    &&& a.rts_level() == b.rts_level()
    &&& a.dtr_level() == b.dtr_level()
}

/// A serial port device, as a platform implements it.
///
/// `read_settings` reads the configuration from the hardware anew on every
/// call; the object it returns is changed in memory and takes effect on the
/// device only through `write_settings`.
pub trait SerialDevice: Sized {
    /// The settings objects of this device.
    type Settings: SerialPortSettings;

    /// What reading the settings from the hardware gives in this state.
    spec fn live_settings(&self) -> Result<Self::Settings, Error>;

    /// What writing the settings object `settings` gives in this state.
    spec fn write_result(&self, settings: Self::Settings) -> Result<(), Error>;

    /// The settings last handed to `write_settings`, whether or not the
    /// hardware took every field of them; `None` before the first write.
    spec fn last_written(&self) -> Option<SettingsView>;

    /// The timeout of the most recent successful `set_timeout`.
    spec fn current_timeout(&self) -> time::Duration;

    /// The level last handed to `set_rts`; `None` before the first call.
    spec fn rts_level(&self) -> Option<bool>;

    /// The level last handed to `set_dtr`; `None` before the first call.
    spec fn dtr_level(&self) -> Option<bool>;

    /// Reads the device's current settings from the hardware.
    fn read_settings(&self) -> (r: Result<Self::Settings, Error>)
        ensures
            r == self.live_settings(),
            device_error(r),
    ;

    /// Writes all of the settings to the device. Success does not mean that
    /// the hardware applied every field: read the settings back to learn that.
    fn write_settings(&mut self, settings: &Self::Settings) -> (r: Result<(), Error>)
        ensures
            r == old(self).write_result(*settings),
            final(self).last_written() == Some(settings.fields()),
            final(self).current_timeout() == old(self).current_timeout(),
            final(self).rts_level() == old(self).rts_level(),
            final(self).dtr_level() == old(self).dtr_level(),
    ;

    /// Returns the timeout of reads and writes.
    fn timeout(&self) -> (r: time::Duration)
        ensures
            r == self.current_timeout(),
    ;

    /// Sets the timeout of future reads and writes.
    fn set_timeout(&mut self, timeout: time::Duration) -> (r: Result<(), Error>)
        ensures
            final(self).last_written() == old(self).last_written(),
            final(self).rts_level() == old(self).rts_level(),
            final(self).dtr_level() == old(self).dtr_level(),
            r is Ok ==> final(self).current_timeout() == timeout,
            r is Err ==> final(self).current_timeout() == old(self).current_timeout(),
    ;

    /// Sets the RTS (Request To Send) signal; `true` asserts it.
    fn set_rts(&mut self, level: bool) -> (r: Result<(), Error>)
        ensures
            final(self).rts_level() == Some(level),
            final(self).last_written() == old(self).last_written(),
            final(self).current_timeout() == old(self).current_timeout(),
            final(self).dtr_level() == old(self).dtr_level(),
            device_error(r),
    ;

    /// Sets the DTR (Data Terminal Ready) signal; `true` asserts it.
    fn set_dtr(&mut self, level: bool) -> (r: Result<(), Error>)
        ensures
            final(self).dtr_level() == Some(level),
            final(self).last_written() == old(self).last_written(),
            final(self).current_timeout() == old(self).current_timeout(),
            final(self).rts_level() == old(self).rts_level(),
            device_error(r),
    ;

    /// Reads the CTS (Clear To Send) signal; `true` when asserted.
    fn read_cts(&mut self) -> (r: Result<bool, Error>)
        ensures
            final(self).last_written() == old(self).last_written(),
            final(self).current_timeout() == old(self).current_timeout(),
            final(self).rts_level() == old(self).rts_level(),
            final(self).dtr_level() == old(self).dtr_level(),
            device_error(r),
    ;

    /// Reads the DSR (Data Set Ready) signal; `true` when asserted.
    fn read_dsr(&mut self) -> (r: Result<bool, Error>)
        ensures
            final(self).last_written() == old(self).last_written(),
            final(self).current_timeout() == old(self).current_timeout(),
            final(self).rts_level() == old(self).rts_level(),
            final(self).dtr_level() == old(self).dtr_level(),
            device_error(r),
    ;

    /// Reads the RI (Ring Indicator) signal; `true` when asserted.
    fn read_ri(&mut self) -> (r: Result<bool, Error>)
        ensures
            final(self).last_written() == old(self).last_written(),
            final(self).current_timeout() == old(self).current_timeout(),
            final(self).rts_level() == old(self).rts_level(),
            final(self).dtr_level() == old(self).dtr_level(),
            device_error(r),
    ;

    /// Reads the CD (Carrier Detect) signal; `true` when asserted.
    fn read_cd(&mut self) -> (r: Result<bool, Error>)
        ensures
            final(self).last_written() == old(self).last_written(),
            final(self).current_timeout() == old(self).current_timeout(),
            final(self).rts_level() == old(self).rts_level(),
            final(self).dtr_level() == old(self).dtr_level(),
            device_error(r),
    ;
}

/// Overlays every field of `settings` on a settings object read from a
/// device. The baud rate goes first; if the object refuses it, the object is
/// left as it was and the setter's error is returned unchanged.
pub fn apply_settings<S: SerialPortSettings>(device_settings: &mut S, settings: &PortSettings) -> (r: Result<(), Error>)
    ensures
        r is Ok <==> old(device_settings).accepts_baud_rate(settings.baud_rate),
        r is Err ==> r == Err::<(), Error>(
            old(device_settings).baud_rate_refusal(settings.baud_rate),
        ),
        r is Ok ==> final(device_settings).fields() == settings.known_fields(),
        r is Err ==> final(device_settings).fields() == old(device_settings).fields(),
{
    let baud = device_settings.set_baud_rate(settings.baud_rate);
    match baud {
        Err(e) => Err(e),
        Ok(()) => {
            device_settings.set_char_size(settings.char_size);
            device_settings.set_parity(settings.parity);
            device_settings.set_stop_bits(settings.stop_bits);
            device_settings.set_flow_control(settings.flow_control);
            Ok(())
        },
    }
}

/// A change to a port's settings, handed to `SerialPort::reconfigure`.
pub trait SettingsMutator {
    /// Whether one call may turn the settings object `before` into `after`,
    /// with result `r`.
    spec fn changes<S: SerialPortSettings>(&self, before: S, after: S, r: Result<(), Error>) -> bool;

    /// Inspects and changes the settings in memory.
    fn mutate<S: SerialPortSettings>(&self, settings: &mut S) -> (r: Result<(), Error>)
        ensures
            self.changes(*old(settings), *final(settings), r),
    ;
}

/// What `reconfigure` leaves, from `old` to `new` with result `r`, when the
/// mutator turned the live settings into the object `after` with result `m`:
/// the mutator's error is passed on and nothing is written, or `after` is
/// written and the write's result returned.
pub open spec fn reconfigure_step<D: SerialDevice>(
    old: &D,
    new: &D,
    r: Result<(), Error>,
    after: D::Settings,
    m: Result<(), Error>,
) -> bool {
    &&& m is Err ==> r == m && *new == *old
    &&& m is Ok ==> {
        &&& new.last_written() == Some(after.fields())
        &&& r == old.write_result(after)
        &&& same_timeout_and_lines(new, old)
    }
}

/// A serial port, as its users see it. Every `SerialDevice` is one.
pub trait SerialPort: SerialDevice {
    /// Applies every field of `settings` to the port: reads the live settings,
    /// overlays the five fields and writes the result back. When the read
    /// fails or the object read refuses the baud rate, nothing is written, the
    /// port is left exactly as it was and that error is returned unchanged;
    /// otherwise the write's result is.
    fn configure(&mut self, settings: &PortSettings) -> (r: Result<(), Error>)
        ensures
            old(self).live_settings() matches Err(e) ==> (r == Err::<(), Error>(e) && *final(self)
                == *old(self)),
            old(self).live_settings() matches Ok(live) ==> {
                if live.accepts_baud_rate(settings.baud_rate) {
                    &&& final(self).last_written() == Some(settings.known_fields())
                    &&& exists|written: Self::Settings|
                        written.fields() == settings.known_fields() && r == #[trigger] old(
                            self,
                        ).write_result(written)
                    &&& same_timeout_and_lines(final(self), old(self))
                } else {
                    &&& r == Err::<(), Error>(live.baud_rate_refusal(settings.baud_rate))
                    &&& *final(self) == *old(self)
                }
            },
            configure_outcome(
                old(self).last_written(),
                final(self).last_written(),
                settings.known_fields(),
            ),
    ;

    /// Reads the live settings, hands them to `setup` and writes back what it
    /// left, unless it failed: then nothing is written, the port is left
    /// exactly as it was, and its error is returned. A failed read is
    /// returned likewise.
    fn reconfigure<M: SettingsMutator>(&mut self, setup: &M) -> (r: Result<(), Error>)
        ensures
            old(self).live_settings() matches Err(e) ==> (r == Err::<(), Error>(e) && *final(self)
                == *old(self)),
            old(self).live_settings() matches Ok(live) ==> exists|
                after: Self::Settings,
                m: Result<(), Error>,
            |
                #[trigger] setup.changes(live, after, m) && reconfigure_step(
                    old(self),
                    final(self),
                    r,
                    after,
                    m,
                ),
    ;
}

impl<T: SerialDevice> SerialPort for T {
    fn configure(&mut self, settings: &PortSettings) -> (r: Result<(), Error>) {
        let mut device_settings = match T::read_settings(self) {
            Ok(s) => s,
            Err(e) => return Err(e),
        };
        let applied = apply_settings(&mut device_settings, settings);
        if let Err(e) = applied {
            return Err(e);
        }
        T::write_settings(self, &device_settings)
    }

    fn reconfigure<M: SettingsMutator>(&mut self, setup: &M) -> (r: Result<(), Error>) {
        let mut device_settings = match T::read_settings(self) {
            Ok(s) => s,
            Err(e) => return Err(e),
        };
        let mutated = setup.mutate(&mut device_settings);
        if let Err(e) = mutated {
            return Err(e);
        }
        T::write_settings(self, &device_settings)
    }
}

} // verus!
