use vstd::prelude::*;
use crate::displays::{get_displays, lists};
use crate::error::{no_brightness_message, no_display_message, reports, transport_result, Error, ErrorKind};
use crate::monitor::{outcome, get_vcp_feature, pause, set_vcp_feature, DdcCall, Monitor};

verus! {

/// Reading the brightness took display `before` to `after` and gave `r`:
/// without a Luminance entry, `Unsupported` and only the pause; with one,
/// the VCP get request, reported as its outcome (see `reports`), then the
/// pause.
pub open spec fn read_step(before: Monitor<ddc_hi::Display>, after: Monitor<ddc_hi::Display>, r: Result<ddc::VcpValue, Error>) -> bool {
    &&& after.backend == before.backend
    &&& after.luminance == before.luminance
    &&& before.luminance is None ==> {
        &&& after.calls@ == before.calls@.push(DdcCall::Pause)
        &&& r is Err && r->Err_0.kind == ErrorKind::Unsupported
    }
    &&& before.luminance is Some ==> exists|o: Result<ddc::VcpValue, Seq<char>>| {
        &&& #[trigger] reports(r, o)
        &&& after.calls@ == before.calls@.push(DdcCall::GetFeature(before.luminance->Some_0, o)).push(DdcCall::Pause)
    }
}

/// Setting the brightness to `value` took display `before` to `after` and
/// gave `r`, as `read_step` says with a VCP set request.
pub open spec fn write_step(before: Monitor<ddc_hi::Display>, after: Monitor<ddc_hi::Display>, value: u16, r: Result<(), Error>) -> bool {
    &&& after.backend == before.backend
    &&& after.luminance == before.luminance
    &&& before.luminance is None ==> {
        &&& after.calls@ == before.calls@.push(DdcCall::Pause)
        &&& r is Err && r->Err_0.kind == ErrorKind::Unsupported
    }
    &&& before.luminance is Some ==> exists|o: Result<(), Seq<char>>| {
        &&& #[trigger] reports(r, o)
        &&& after.calls@ == before.calls@.push(DdcCall::SetFeature(before.luminance->Some_0, value, o)).push(DdcCall::Pause)
    }
}

/// Display `id` of `before` was read as `read_step` says, the others left
/// as they were; with no display `id`, `Unsupported` and nothing changed.
pub open spec fn reads_at(before: Seq<Monitor<ddc_hi::Display>>, after: Seq<Monitor<ddc_hi::Display>>, id: usize, r: Result<ddc::VcpValue, Error>) -> bool {
    &&& after.len() == before.len()
    &&& forall|j: int| 0 <= j < before.len() && j != id ==> #[trigger] after[j] == before[j]
    &&& id >= before.len() ==> r is Err && r->Err_0.kind == ErrorKind::Unsupported && after == before
    &&& id < before.len() ==> read_step(before[id as int], after[id as int], r)
}

/// As `reads_at`, for setting the brightness to `value`.
pub open spec fn writes_at(before: Seq<Monitor<ddc_hi::Display>>, after: Seq<Monitor<ddc_hi::Display>>, id: usize, value: u16, r: Result<(), Error>) -> bool {
    &&& after.len() == before.len()
    &&& forall|j: int| 0 <= j < before.len() && j != id ==> #[trigger] after[j] == before[j]
    &&& id >= before.len() ==> r is Err && r->Err_0.kind == ErrorKind::Unsupported && after == before
    &&& id < before.len() ==> write_step(before[id as int], after[id as int], value, r)
}

/// Law: on a display whose feature table has no Luminance entry, reading
/// and setting the brightness both give `Unsupported` and make no request
/// over the transport, only the pause.
pub proof fn lemma_no_luminance_no_request(
    before: Monitor<ddc_hi::Display>,
    read: Monitor<ddc_hi::Display>,
    r: Result<ddc::VcpValue, Error>,
    written: Monitor<ddc_hi::Display>,
    value: u16,
    w: Result<(), Error>,
)
    requires
        read_step(before, read, r),
        write_step(before, written, value, w),
        before.luminance is None,
    ensures
        r is Err && r->Err_0.kind == ErrorKind::Unsupported,
        w is Err && w->Err_0.kind == ErrorKind::Unsupported,
        read.calls@ == before.calls@.push(DdcCall::Pause),
        written.calls@ == before.calls@.push(DdcCall::Pause),
{
}

/// Law: reading or setting the brightness of a display with a Luminance
/// entry makes exactly one request and then the pause, whatever the
/// transport answered; a failed request gives `TimedOut` with the
/// transport's message, a successful one its value.
pub proof fn lemma_request_then_pause(
    before: Monitor<ddc_hi::Display>,
    read: Monitor<ddc_hi::Display>,
    r: Result<ddc::VcpValue, Error>,
)
    requires
        read_step(before, read, r),
        before.luminance is Some,
    ensures
        read.calls@.len() == before.calls@.len() + 2,
        read.calls@.last() == DdcCall::Pause,
        read.calls@[before.calls@.len() as int] matches DdcCall::GetFeature(code, o)
            && code == before.luminance->Some_0 && reports(r, o),
{
    let o = choose|o: Result<ddc::VcpValue, Seq<char>>| {
        &&& #[trigger] reports(r, o)
        &&& read.calls@ == before.calls@.push(DdcCall::GetFeature(before.luminance->Some_0, o)).push(DdcCall::Pause)
    };
    assert(read.calls@[before.calls@.len() as int] == DdcCall::GetFeature(before.luminance->Some_0, o));
}

/// The feature code that brightness requests go to, or `Unsupported` when
/// the display's feature table has no Luminance entry.
pub fn luminance_code<H>(m: &Monitor<H>) -> (r: Result<u8, Error>)
    ensures
        m.luminance is Some ==> r == Ok::<u8, Error>(m.luminance->Some_0),
        m.luminance is None ==> r is Err && r->Err_0.kind == ErrorKind::Unsupported,
{
    match m.luminance {
        Some(code) => Ok(code),
        None => Err(Error::new(ErrorKind::Unsupported, no_brightness_message())),
    }
}

/// Reads the display's brightness, then pauses as the protocol asks.
pub fn read_brightness(m: &mut Monitor<ddc_hi::Display>) -> (r: Result<ddc::VcpValue, Error>)
    ensures
        read_step(*old(m), *final(m), r),
{
    let ghost start = *m;
    let ghost mut seen: Result<ddc::VcpValue, Seq<char>> = Err(Seq::empty());
    let result = match luminance_code(m) {
        Ok(code) => {
            let answer = get_vcp_feature(m, code);
            proof {
                seen = outcome(answer);
            }
            transport_result(answer)
        },
        Err(e) => Err(e),
    };
    pause(m);
    proof {
        if start.luminance is Some {
            assert(reports(result, seen));
        }
    }
    result
}

/// Sets the display's brightness to `value`, then pauses as the protocol
/// asks.
pub fn write_brightness(m: &mut Monitor<ddc_hi::Display>, value: u16) -> (r: Result<(), Error>)
    ensures
        write_step(*old(m), *final(m), value, r),
{
    let ghost start = *m;
    let ghost mut seen: Result<(), Seq<char>> = Err(Seq::empty());
    let result = match luminance_code(m) {
        Ok(code) => {
            let answer = set_vcp_feature(m, code, value);
            proof {
                seen = outcome(answer);
            }
            transport_result(answer)
        },
        Err(e) => Err(e),
    };
    pause(m);
    proof {
        if start.luminance is Some {
            assert(reports(result, seen));
        }
    }
    result
}

/// Reads the brightness of the display at position `id`, leaving every
/// other display as it was.
pub fn get_brightness_at(displays: &mut Vec<Monitor<ddc_hi::Display>>, id: usize) -> (r: Result<ddc::VcpValue, Error>)
    ensures
        reads_at(old(displays)@, final(displays)@, id, r),
{
    if id >= displays.len() {
        return Err(Error::new(ErrorKind::Unsupported, no_display_message(id)));
    }
    let ghost start = displays@;
    let mut m = displays.remove(id);
    let r = read_brightness(&mut m);
    displays.insert(id, m);
    assert(displays@ =~= start.update(id as int, m));
    r
}

/// Sets the brightness of the display at position `id` to `value`, leaving
/// every other display as it was.
pub fn set_brightness_at(displays: &mut Vec<Monitor<ddc_hi::Display>>, id: usize, value: u16) -> (r: Result<(), Error>)
    ensures
        writes_at(old(displays)@, final(displays)@, id, value, r),
{
    if id >= displays.len() {
        return Err(Error::new(ErrorKind::Unsupported, no_display_message(id)));
    }
    let ghost start = displays@;
    let mut m = displays.remove(id);
    let r = write_brightness(&mut m, value);
    displays.insert(id, m);
    assert(displays@ =~= start.update(id as int, m));
    r
}

/// Reads the brightness of display `id` of `listing`, or passes on the
/// error that `listing` holds.
pub fn get_brightness_from(listing: Result<Vec<Monitor<ddc_hi::Display>>, Error>, id: usize) -> (r: Result<ddc::VcpValue, Error>)
    ensures
        listing is Err ==> r == Err::<ddc::VcpValue, Error>(listing->Err_0),
        listing is Ok ==> exists|after: Seq<Monitor<ddc_hi::Display>>|
            #[trigger] reads_at(listing->Ok_0@, after, id, r),
{
    match listing {
        Ok(displays) => {
            let mut displays = displays;
            let r = get_brightness_at(&mut displays, id);
            assert(reads_at(listing->Ok_0@, displays@, id, r));
            r
        },
        Err(e) => Err(e),
    }
}

/// Sets the brightness of display `id` of `listing` to `value`, or passes
/// on the error that `listing` holds.
pub fn set_brightness_from(listing: Result<Vec<Monitor<ddc_hi::Display>>, Error>, id: usize, value: u16) -> (r: Result<(), Error>)
    ensures
        listing is Err ==> r == Err::<(), Error>(listing->Err_0),
        listing is Ok ==> exists|after: Seq<Monitor<ddc_hi::Display>>|
            #[trigger] writes_at(listing->Ok_0@, after, id, value, r),
{
    match listing {
        Ok(displays) => {
            let mut displays = displays;
            let r = set_brightness_at(&mut displays, id, value);
            assert(writes_at(listing->Ok_0@, displays@, id, value, r));
            r
        },
        Err(e) => Err(e),
    }
}

/// Reads the brightness of display `id`, among the displays found now, with
/// their capabilities refreshed.
pub fn get_brightness(id: usize) -> (r: Result<ddc::VcpValue, Error>)
    ensures
        exists|
            found: Seq<Monitor<ddc_hi::Display>>,
            after: Seq<Monitor<ddc_hi::Display>>,
            listing: Result<Vec<Monitor<ddc_hi::Display>>, Error>,
        | #[trigger] lists(found, after, true, listing) && {
            &&& listing is Err ==> r == Err::<ddc::VcpValue, Error>(listing->Err_0)
            &&& listing is Ok ==> exists|done: Seq<Monitor<ddc_hi::Display>>|
                #[trigger] reads_at(listing->Ok_0@, done, id, r)
        },
{
    let listing = get_displays(true);
    let ghost l = listing;
    get_brightness_from(listing, id)
}

/// Sets the brightness of display `id`, among the displays found now, with
/// their capabilities refreshed, to `value`.
pub fn set_brightness(id: usize, value: u16) -> (r: Result<(), Error>)
    ensures
        exists|
            found: Seq<Monitor<ddc_hi::Display>>,
            after: Seq<Monitor<ddc_hi::Display>>,
            listing: Result<Vec<Monitor<ddc_hi::Display>>, Error>,
        | #[trigger] lists(found, after, true, listing) && {
            &&& listing is Err ==> r == Err::<(), Error>(listing->Err_0)
            &&& listing is Ok ==> exists|done: Seq<Monitor<ddc_hi::Display>>|
                #[trigger] writes_at(listing->Ok_0@, done, id, value, r)
        },
{
    let listing = get_displays(true);
    let ghost l = listing;
    set_brightness_from(listing, id, value)
}

} // verus!
