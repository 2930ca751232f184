use vstd::prelude::*;

verus! {

#[verifier::external_type_specification]
#[verifier::external_body]
pub struct ExDisplay(ddc_hi::Display);

#[verifier::external_type_specification]
#[verifier::external_body]
pub struct ExVcpValue(ddc::VcpValue);

/// The VCP code of the MCCS Luminance feature.
pub const LUMINANCE: u8 = 0x10;

/// The driver through which a display is reached.
#[derive(Clone, Copy, Debug, PartialEq, Eq, Structural)]
pub enum Backend {
    /// Linux i2c-dev driver.
    I2cDevice,
    /// Windows Monitor Configuration API.
    WinApi,
    /// NVIDIA NVAPI driver.
    Nvapi,
    /// macOS APIs.
    MacOS,
}

/// What an exchange came to: its value, or the transport's error message.
pub open spec fn outcome<T>(r: Result<T, String>) -> Result<T, Seq<char>> {
    match r {
        Ok(v) => Ok(v),
        Err(message) => Err(message@),
    }
}

/// One exchange with a display over its control channel, with its outcome.
pub enum DdcCall {
    /// Reading the capability string and rebuilding the feature table.
    Refresh(Result<(), Seq<char>>),
    /// A VCP get request for a feature code.
    GetFeature(u8, Result<ddc::VcpValue, Seq<char>>),
    /// A VCP set request for a feature code and a value.
    SetFeature(u8, u16, Result<(), Seq<char>>),
    /// The pause that the protocol asks for after a command.
    Pause,
}

/// A connected display, with what the brightness logic reads of it as plain
/// values.
pub struct Monitor<H> {
    /// The handle through which commands reach the display.
    pub display: H,
    /// The driver that reported the display.
    pub backend: Backend,
    /// The VCP code of Luminance in the display's feature table, if present.
    pub luminance: Option<u8>,
    /// The exchanges made with the display since it was found.
    pub calls: Ghost<Seq<DdcCall>>,
}

/// Relies on `ddc_hi::Display::enumerate`: every display that the platform's
/// drivers report.
#[verifier::external_body]
pub(crate) fn enumerate_displays() -> (r: Vec<ddc_hi::Display>) {
    ddc_hi::Display::enumerate()
}

/// Relies on the `backend` field of `ddc_hi::DisplayInfo`.
#[verifier::external_body]
pub(crate) fn backend_of(display: &ddc_hi::Display) -> (r: Backend) {
    match display.info.backend {
        ddc_hi::Backend::I2cDevice => Backend::I2cDevice,
        ddc_hi::Backend::WinApi => Backend::WinApi,
        ddc_hi::Backend::Nvapi => Backend::Nvapi,
        ddc_hi::Backend::MacOS => Backend::MacOS,
    }
}

/// Relies on `mccs_db::Database::get`: the table keys each descriptor by its
/// own code, so an entry found for `code` carries `code`.
#[verifier::external_body]
pub(crate) fn feature_entry(display: &ddc_hi::Display, code: u8) -> (r: Option<u8>)
    ensures
        r is Some ==> r->Some_0 == code,
{
    display.info.mccs_database.get(code).map(|feature| feature.code)
}

/// Relies on `ddc_hi::Display::update_capabilities`: one capability query,
/// with the error's message on failure.
#[verifier::external_body]
pub(crate) fn update_capabilities(m: &mut Monitor<ddc_hi::Display>) -> (r: Result<(), String>)
    ensures
        final(m).backend == old(m).backend,
        final(m).luminance == old(m).luminance,
        final(m).calls@ == old(m).calls@.push(DdcCall::Refresh(outcome(r))),
{
    m.display.update_capabilities().map_err(|error| error.to_string())
}

/// Relies on `ddc::Ddc::get_vcp_feature` of `ddc_hi::Handle`: one VCP get
/// request, with the error's message on failure.
#[verifier::external_body]
pub(crate) fn get_vcp_feature(m: &mut Monitor<ddc_hi::Display>, code: u8) -> (r: Result<ddc::VcpValue, String>)
    ensures
        final(m).backend == old(m).backend,
        final(m).luminance == old(m).luminance,
        final(m).calls@ == old(m).calls@.push(DdcCall::GetFeature(code, outcome(r))),
{
    ddc::Ddc::get_vcp_feature(&mut m.display.handle, code).map_err(|error| error.to_string())
}

/// Relies on `ddc::Ddc::set_vcp_feature` of `ddc_hi::Handle`: one VCP set
/// request, with the error's message on failure.
#[verifier::external_body]
pub(crate) fn set_vcp_feature(m: &mut Monitor<ddc_hi::Display>, code: u8, value: u16) -> (r: Result<(), String>)
    ensures
        final(m).backend == old(m).backend,
        final(m).luminance == old(m).luminance,
        final(m).calls@ == old(m).calls@.push(DdcCall::SetFeature(code, value, outcome(r))),
{
    ddc::Ddc::set_vcp_feature(&mut m.display.handle, code, value).map_err(|error| error.to_string())
}

/// Relies on `ddc::DdcHost::sleep` of `ddc_hi::Handle`: the delay that the
/// display needs after a command.
#[verifier::external_body]
pub(crate) fn pause(m: &mut Monitor<ddc_hi::Display>)
    ensures
        final(m).backend == old(m).backend,
        final(m).luminance == old(m).luminance,
        final(m).calls@ == old(m).calls@.push(DdcCall::Pause),
{
    ddc::DdcHost::sleep(&mut m.display.handle)
}

impl<H> Monitor<H> {
    /// A display reached through `display`, with nothing exchanged yet.
    pub fn with_handle(display: H, backend: Backend, luminance: Option<u8>) -> (r: Monitor<H>)
        ensures
            r.display == display,
            r.backend == backend,
            r.luminance == luminance,
            r.calls@ == Seq::<DdcCall>::empty(),
    {
        Monitor { display, backend, luminance, calls: Ghost(Seq::empty()) }
    }
}

impl Monitor<ddc_hi::Display> {
    /// Wraps a display that was just found, reading its backend and its
    /// Luminance entry.
    pub fn new(display: ddc_hi::Display) -> (r: Monitor<ddc_hi::Display>)
        ensures
            r.display == display,
            r.luminance is Some ==> r.luminance->Some_0 == LUMINANCE,
            r.calls@ == Seq::<DdcCall>::empty(),
    {
        let backend = backend_of(&display);
        let luminance = feature_entry(&display, LUMINANCE);
        Monitor::with_handle(display, backend, luminance)
    }

    /// Queries the capabilities again and rereads the Luminance entry.
    pub fn refresh(&mut self) -> (r: Result<(), String>)
        ensures
            final(self).backend == old(self).backend,
            final(self).luminance is Some ==> final(self).luminance->Some_0 == LUMINANCE,
            final(self).calls@ == old(self).calls@.push(DdcCall::Refresh(outcome(r))),
    {
        let r = update_capabilities(self);
        self.luminance = feature_entry(&self.display, LUMINANCE);
        r
    }
}

} // verus!
