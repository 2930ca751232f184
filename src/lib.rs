//! Brightness control for displays over DDC/CI, through the MCCS
//! Luminance feature.
mod brightness;
mod displays;
mod error;
mod monitor;

pub use brightness::{
    get_brightness, get_brightness_at, get_brightness_from, lemma_no_luminance_no_request,
    lemma_request_then_pause, luminance_code, read_brightness, read_step, reads_at, set_brightness,
    set_brightness_at, set_brightness_from, write_brightness, write_step, writes_at,
};
pub use displays::{
    get_display, get_displays, has_nvapi, kept_of, lemma_listing_with_nvapi, lemma_listing_without_nvapi, lemma_nvapi_preferred,
    lemma_retained_exclusive,
    lists, not_winapi, pick_display, pick_from, picks, refresh_failed_at, refresh_ok, refresh_winapi,
    refreshed_ok, retain_displays, retained,
};
pub use error::{reports, transport_result, Error, ErrorKind};
pub use monitor::{outcome, Backend, DdcCall, Monitor, LUMINANCE};
