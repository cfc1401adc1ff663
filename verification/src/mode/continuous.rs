//! The continuous mode: the device is started once and read from then on.

use vstd::prelude::*;

use crate::cfg;
use crate::cfg::Cfg;
use crate::config::Configuration;
use crate::driver::MCP3424;
use crate::error::Error;
use crate::mode::Action;
use crate::mode::Event;
use crate::mode::Mode;
use crate::sample::spec_convert;
use crate::sample::Voltage;

verus! {

/// A mode where the device converts continuously.
///
/// In continuous mode the device is started once and then refills its
/// output buffer by itself. The first measurement writes the start command
/// and waits the conversion time before it reads. Every later measurement
/// only reads the most recent data.
pub struct ContinuousMode {
    cfg: Cfg,
    delay: u32,
    initialized: bool,
    opening: bool,
}

/// What a [`ContinuousMode`] holds.
pub struct ContinuousView {
    /// The register to write.
    pub cfg: Cfg,
    /// The time to wait for the first conversion in microseconds.
    pub delay: u32,
    /// Whether a measurement has started the device and waited for it.
    pub initialized: bool,
    /// Whether a stream is being opened: the start command of the stream
    /// is on its way and the wait that follows it is not over.
    pub opening: bool,
}

/// The register that starts continuous conversions as a configuration asks
/// for them. The ready flag stays as the register passed in has it.
pub open spec fn spec_cfg(configuration: Configuration, base: Cfg) -> Cfg {
    Cfg {
        ready: base.ready,
        channel: configuration.channel,
        mode: cfg::Mode::Continuous,
        resolution: configuration.resolution,
        gain: configuration.gain,
    }
}

impl ContinuousView {
    /// The view of the mode that a configuration asks for, with the device
    /// not yet started.
    pub open spec fn of(configuration: Configuration) -> ContinuousView {
        ContinuousView {
            cfg: spec_cfg(configuration, Cfg::spec_default()),
            delay: configuration.spec_conversion_time_us(),
            initialized: false,
            opening: false,
        }
    }

    /// The register starts continuous conversions and has the start bit of
    /// the one-shot mode clear.
    pub open spec fn wf(self) -> bool {
        self.cfg.ready && self.cfg.mode == cfg::Mode::Continuous
    }

    /// The state after an event and the answer of the machine to it.
    pub open spec fn step<BusError>(self, event: Event<BusError>) -> (
        ContinuousView,
        Action<Voltage, BusError>,
    ) {
        match event {
            Event::Measure => (
                ContinuousView { opening: false, ..self },
                if self.initialized {
                    Action::Read
                } else {
                    Action::Write(self.cfg.spec_as_byte())
                },
            ),
            Event::Stream => (
                ContinuousView { opening: true, ..self },
                Action::Write(self.cfg.spec_as_byte()),
            ),
            Event::Poll => (ContinuousView { opening: false, ..self }, Action::Read),
            Event::Written => (self, Action::Delay(self.delay)),
            Event::Elapsed => if self.opening {
                (ContinuousView { opening: false, ..self }, Action::Ready)
            } else {
                (ContinuousView { initialized: true, ..self }, Action::Read)
            },
            Event::Received(buffer) => (self, Action::Return(spec_convert(buffer@))),
            Event::Failed(cause) => (
                ContinuousView { opening: false, ..self },
                Action::Return(Err(Error::BusError(cause))),
            ),
        }
    }
}

impl ContinuousView {
    /// The course of the first measurement. The start command is written,
    /// with the mode bit set and the start bit of the one-shot mode clear,
    /// then the conversion time is waited for. With that the device counts
    /// as started. Then the buffer is read, and what it decodes to is the
    /// result.
    pub proof fn lemma_first_measurement<BusError>(self, buffer: [u8; 4])
        requires
            self.wf(),
            !self.initialized,
        ensures
            ({
                let idle = ContinuousView { opening: false, ..self };
                let started = ContinuousView { initialized: true, ..idle };
                &&& self.step::<BusError>(Event::Measure) == (
                    idle,
                    Action::<Voltage, BusError>::Write(
                        (16 + 32 * self.cfg.channel.spec_mask() + 4
                            * self.cfg.resolution.spec_mask() + self.cfg.gain.spec_mask()) as u8,
                    ),
                )
                &&& idle.step::<BusError>(Event::Written) == (
                    idle,
                    Action::<Voltage, BusError>::Delay(self.delay),
                )
                &&& idle.step::<BusError>(Event::Elapsed) == (
                    started,
                    Action::<Voltage, BusError>::Read,
                )
                &&& started.step::<BusError>(Event::Received(buffer)) == (
                    started,
                    Action::<Voltage, BusError>::Return(spec_convert(buffer@)),
                )
            }),
    {
    }

    /// Once the device is started, a measurement only reads: nothing is
    /// written and nothing is waited for.
    pub proof fn lemma_later_measurement<BusError>(self, buffer: [u8; 4])
        requires
            self.initialized,
        ensures
            ({
                let idle = ContinuousView { opening: false, ..self };
                &&& self.step::<BusError>(Event::Measure) == (
                    idle,
                    Action::<Voltage, BusError>::Read,
                )
                &&& idle.step::<BusError>(Event::Received(buffer)) == (
                    idle,
                    Action::<Voltage, BusError>::Return(spec_convert(buffer@)),
                )
            }),
    {
    }

    /// No event takes a started device back: whatever is returned, and
    /// whatever fails, the next measurement only reads.
    pub proof fn lemma_started_for_good<BusError>(self, event: Event<BusError>)
        requires
            self.initialized,
        ensures
            self.step(event).0.initialized,
            self.step(event).0.step::<BusError>(Event::Measure).1 == Action::<
                Voltage,
                BusError,
            >::Read,
    {
    }

    /// The course of a stream. To open it the start command is written and
    /// the conversion time is waited for, whether or not the device has been
    /// started before. Every poll reads the buffer and returns what it
    /// decodes to, `NotReady` included, and leaves the state as it is. That
    /// a stream was opened does not count as a measurement having started
    /// the device.
    pub proof fn lemma_stream<BusError>(self, buffer: [u8; 4])
        ensures
            ({
                let opening = ContinuousView { opening: true, ..self };
                let open = ContinuousView { opening: false, ..self };
                &&& self.step::<BusError>(Event::Stream) == (
                    opening,
                    Action::<Voltage, BusError>::Write(self.cfg.spec_as_byte()),
                )
                &&& opening.step::<BusError>(Event::Written) == (
                    opening,
                    Action::<Voltage, BusError>::Delay(self.delay),
                )
                &&& opening.step::<BusError>(Event::Elapsed) == (
                    open,
                    Action::<Voltage, BusError>::Ready,
                )
                &&& open.step::<BusError>(Event::Poll) == (open, Action::<Voltage, BusError>::Read)
                &&& open.step::<BusError>(Event::Received(buffer)) == (
                    open,
                    Action::<Voltage, BusError>::Return(spec_convert(buffer@)),
                )
            }),
    {
    }

    /// A poll reads, whatever the state, and leaves the device started or
    /// not as it was.
    pub proof fn lemma_poll<BusError>(self)
        ensures
            self.step::<BusError>(Event::Poll) == (
                ContinuousView { opening: false, ..self },
                Action::<Voltage, BusError>::Read,
            ),
    {
    }

    /// `Ready` answers the wait that opens a stream and nothing else. A
    /// measurement and a poll give up an opening under way, and no opening
    /// begins without the request for a stream: between `Measure` or `Poll`
    /// and the `Return` that ends it no answer is `Ready`.
    pub proof fn lemma_ready<BusError>(self, event: Event<BusError>)
        ensures
            self.step(event).1 is Ready <==> self.opening && event is Elapsed,
            self.step(event).0.opening ==> event is Stream || self.opening,
            event is Measure || event is Poll ==> !self.step(event).0.opening,
    {
    }

    /// A failure of the bus ends what is under way with the cause of the
    /// failure. A device that was not started is not started by it.
    pub proof fn lemma_failure<BusError>(self, cause: BusError)
        ensures
            self.step(Event::Failed(cause)) == (
                ContinuousView { opening: false, ..self },
                Action::<Voltage, BusError>::Return(Err(Error::BusError(cause))),
            ),
    {
    }

    /// No event changes the register or the time to wait, and a register
    /// that starts continuous conversions stays one.
    pub proof fn lemma_configuration_kept<BusError>(self, event: Event<BusError>)
        ensures
            self.step(event).0.cfg == self.cfg,
            self.step(event).0.delay == self.delay,
            self.wf() ==> self.step(event).0.wf(),
    {
    }
}

impl View for ContinuousMode {
    type V = ContinuousView;

    closed spec fn view(&self) -> ContinuousView {
        ContinuousView {
            cfg: self.cfg,
            delay: self.delay,
            initialized: self.initialized,
            opening: self.opening,
        }
    }
}

impl ContinuousMode {
    #[verifier::type_invariant]
    closed spec fn inv(&self) -> bool {
        self@.wf()
    }

    pub fn new(configuration: &Configuration) -> (mode: Self)
        ensures
            mode@ == ContinuousView::of(*configuration),
            mode@.wf(),
    {
        Self {
            cfg: cfg(configuration, Cfg::default()),
            delay: configuration.conversion_time_us(),
            initialized: false,
            opening: false,
        }
    }
}

impl Mode for ContinuousMode {

}

impl<I2c, BusError, Delay> MCP3424<I2c, BusError, Delay, ContinuousMode> {
    /// Updates the driver's configuration and returns the byte that applies
    /// it to the device. The byte is to be written at once: the device runs
    /// on, so whether it has been started stays as it is.
    pub fn configure(&mut self, configuration: &Configuration) -> (byte: u8)
        ensures
            final(self).mode@ == (ContinuousView {
                cfg: ContinuousView::of(*configuration).cfg,
                delay: ContinuousView::of(*configuration).delay,
                ..old(self).mode@
            }),
            byte == final(self).mode@.cfg.spec_as_byte(),
            final(self).mode@.wf(),
            final(self).same_device(*old(self)),
    {
        self.mode.cfg = cfg(configuration, Cfg::default());
        self.mode.delay = configuration.conversion_time_us();
        self.mode.cfg.as_byte()
    }

    /// Answers an event of the driver with what to do next.
    ///
    /// The first measurement runs `Measure`, `Written`, `Elapsed`,
    /// `Received` and is answered with `Write`, `Delay`, `Read`, `Return`.
    /// From then on `Measure` is answered with `Read` at once. A stream is
    /// opened by `Stream`, `Written`, `Elapsed`, answered with `Write`,
    /// `Delay`, `Ready`, and every poll of it only reads.
    pub fn step(&mut self, event: Event<BusError>) -> (action: Action<Voltage, BusError>)
        ensures
            (final(self).mode@, action) == old(self).mode@.step(event),
            final(self).mode@.wf(),
            final(self).same_device(*old(self)),
    {
        proof {
            use_type_invariant(&self.mode);
        }
        match event {
            Event::Measure => {
                self.mode.opening = false;
                if self.mode.initialized {
                    Action::Read
                } else {
                    Action::Write(self.mode.cfg.as_byte())
                }
            },
            Event::Stream => {
                self.mode.opening = true;
                Action::Write(self.mode.cfg.as_byte())
            },
            Event::Poll => {
                self.mode.opening = false;
                Action::Read
            },
            Event::Written => Action::Delay(self.mode.delay),
            Event::Elapsed => {
                if self.mode.opening {
                    self.mode.opening = false;
                    Action::Ready
                } else {
                    self.mode.initialized = true;
                    Action::Read
                }
            },
            Event::Received(buffer) => Action::Return(Self::convert(&buffer)),
            Event::Failed(cause) => {
                self.mode.opening = false;
                Action::Return(Err(Error::BusError(cause)))
            },
        }
    }
}

/// Fills a register with what a configuration asks for and makes it start
/// continuous conversions.
pub fn cfg(configuration: &Configuration, base: Cfg) -> (out: Cfg)
    ensures
        out == spec_cfg(*configuration, base),
{
    let mut out = base;
    out.set_values_from_configuration(configuration);
    out.mode = cfg::Mode::Continuous;
    out
}

} // verus!
