//! The one-shot mode: every measurement starts a conversion of its own.

use vstd::prelude::*;

use crate::cfg;
use crate::cfg::Cfg;
use crate::config::Configuration;
use crate::driver::MCP3424;
use crate::error::Error;
use crate::mode::Action;
use crate::mode::Event;
use crate::mode::Mode;
use crate::sample::spec_convert;
use crate::sample::Voltage;

verus! {

/// A mode where the device executes a single conversion.
///
/// In one-shot mode every measurement starts one conversion and waits for
/// its result. After the conversion the device falls back into a low
/// current standby until the next one is started.
///
/// A measurement writes the start command, waits the conversion time,
/// reads the buffer and decodes it. Nothing but the configuration survives
/// from one measurement to the next.
pub struct OneShotMode {
    cfg: Cfg,
    delay: u32,
}

/// What a [`OneShotMode`] holds: the register to write and the time to wait.
pub struct OneShotView {
    pub cfg: Cfg,
    pub delay: u32,
}

/// The register that starts a single conversion as a configuration asks
/// for it. The ready flag is cleared, which sets the start bit on the wire.
pub open spec fn spec_cfg(configuration: Configuration) -> Cfg {
    Cfg {
        ready: false,
        channel: configuration.channel,
        mode: cfg::Mode::OneShot,
        resolution: configuration.resolution,
        gain: configuration.gain,
    }
}

impl OneShotView {
    /// The view of the mode that a configuration asks for.
    pub open spec fn of(configuration: Configuration) -> OneShotView {
        OneShotView {
            cfg: spec_cfg(configuration),
            delay: configuration.spec_conversion_time_us(),
        }
    }

    /// The register starts a single conversion.
    pub open spec fn wf(self) -> bool {
        !self.cfg.ready && self.cfg.mode == cfg::Mode::OneShot
    }

    /// The answer of the machine to an event. The machine has one state:
    /// the answer depends on the event and the configuration alone.
    pub open spec fn step<BusError>(self, event: Event<BusError>) -> Action<Voltage, BusError> {
        match event {
            Event::Measure | Event::Poll => Action::Write(self.cfg.spec_as_byte()),
            Event::Stream => Action::Ready,
            Event::Written => Action::Delay(self.delay),
            Event::Elapsed => Action::Read,
            Event::Received(buffer) => Action::Return(spec_convert(buffer@)),
            Event::Failed(cause) => Action::Return(Err(Error::BusError(cause))),
        }
    }
}

impl OneShotView {
    /// The course of a measurement. The start command is written, with the
    /// start bit set and the mode bit clear, then the conversion time is
    /// waited for, then the buffer is read, and what it decodes to is the
    /// result. Every measurement takes this course, whatever went before.
    pub proof fn lemma_measurement<BusError>(self, buffer: [u8; 4])
        requires
            self.wf(),
        ensures
            self.step::<BusError>(Event::Measure) == Action::<Voltage, BusError>::Write(
                (128 + 32 * self.cfg.channel.spec_mask() + 4 * self.cfg.resolution.spec_mask()
                    + self.cfg.gain.spec_mask()) as u8,
            ),
            self.step::<BusError>(Event::Written) == Action::<Voltage, BusError>::Delay(self.delay),
            self.step::<BusError>(Event::Elapsed) == Action::<Voltage, BusError>::Read,
            self.step::<BusError>(Event::Received(buffer)) == Action::<Voltage, BusError>::Return(
                spec_convert(buffer@),
            ),
    {
    }

    /// A failure of the bus ends the measurement with the cause of the
    /// failure.
    pub proof fn lemma_failure<BusError>(self, cause: BusError)
        ensures
            self.step(Event::Failed(cause)) == Action::<Voltage, BusError>::Return(
                Err(Error::BusError(cause)),
            ),
    {
    }

    /// A stream takes nothing to open, and polling it starts a measurement
    /// like any other. Nothing but the request for a stream is answered
    /// with `Ready`.
    pub proof fn lemma_stream<BusError>(self, event: Event<BusError>)
        ensures
            self.step::<BusError>(Event::Stream) == Action::<Voltage, BusError>::Ready,
            self.step::<BusError>(Event::Poll) == self.step::<BusError>(Event::Measure),
            self.step(event) is Ready <==> event is Stream,
    {
    }
}

impl View for OneShotMode {
    type V = OneShotView;

    closed spec fn view(&self) -> OneShotView {
        OneShotView { cfg: self.cfg, delay: self.delay }
    }
}

impl OneShotMode {
    #[verifier::type_invariant]
    closed spec fn inv(&self) -> bool {
        self@.wf()
    }

    pub fn new(configuration: &Configuration) -> (mode: Self)
        ensures
            mode@ == OneShotView::of(*configuration),
            mode@.wf(),
    {
        Self { cfg: cfg(configuration, Cfg::default()), delay: configuration.conversion_time_us() }
    }
}

impl Mode for OneShotMode {

}

impl<I2c, BusError, Delay> MCP3424<I2c, BusError, Delay, OneShotMode> {
    /// Updates the driver's configuration. The configuration is applied to
    /// the device lazily on the next measurement.
    pub fn configure(&mut self, configuration: &Configuration)
        ensures
            final(self).mode@ == OneShotView::of(*configuration),
            final(self).mode@.wf(),
            final(self).same_device(*old(self)),
    {
        self.mode.cfg = cfg(configuration, Cfg::default());
        self.mode.delay = configuration.conversion_time_us();
    }

    /// Answers an event of the driver with what to do next.
    ///
    /// A measurement runs `Measure`, `Written`, `Elapsed`, `Received` and is
    /// answered with `Write`, `Delay`, `Read`, `Return`. A stream is open at
    /// once, and every poll of it is a measurement of its own.
    pub fn step(&mut self, event: Event<BusError>) -> (action: Action<Voltage, BusError>)
        ensures
            action == old(self).mode@.step(event),
            final(self).mode@ == old(self).mode@,
            final(self).mode@.wf(),
            final(self).same_device(*old(self)),
    {
        proof {
            use_type_invariant(&self.mode);
        }
        match event {
            Event::Measure | Event::Poll => Action::Write(self.mode.cfg.as_byte()),
            Event::Stream => Action::Ready,
            Event::Written => Action::Delay(self.mode.delay),
            Event::Elapsed => Action::Read,
            Event::Received(buffer) => Action::Return(Self::convert(&buffer)),
            Event::Failed(cause) => Action::Return(Err(Error::BusError(cause))),
        }
    }
}

/// Fills a register with what a configuration asks for and makes it start
/// a single conversion. Nothing of the register that was passed in is left.
pub fn cfg(configuration: &Configuration, base: Cfg) -> (out: Cfg)
    ensures
        out == spec_cfg(*configuration),
{
    let mut out = base;
    out.set_values_from_configuration(configuration);
    out.ready = false;
    out.mode = cfg::Mode::OneShot;
    out
}

} // verus!
