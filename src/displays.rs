use vstd::prelude::*;
use crate::error::{no_display_message, transport_result, Error, ErrorKind};
use crate::monitor::{enumerate_displays, Backend, DdcCall, Monitor, LUMINANCE};

verus! {

/// Whether one of the displays is reached through NVAPI.
pub open spec fn has_nvapi<H>(found: Seq<Monitor<H>>) -> bool {
    exists|i: int| 0 <= i < found.len() && #[trigger] found[i].backend == Backend::Nvapi
}

/// The test that keeps a display when NVAPI is preferred.
pub open spec fn not_winapi<H>() -> spec_fn(Monitor<H>) -> bool {
    |m: Monitor<H>| m.backend != Backend::WinApi
}

/// The displays kept from `found`: with `prefer_nvapi`, those reached
/// through WinAPI are left out; otherwise all of them, in order.
pub open spec fn kept_of<H>(found: Seq<Monitor<H>>, prefer_nvapi: bool) -> Seq<Monitor<H>> {
    if prefer_nvapi {
        found.filter(not_winapi())
    } else {
        found
    }
}

/// The displays that operations address. When an NVAPI display is present,
/// the same physical display is also reported through WinAPI, and NVAPI is
/// preferred: the WinAPI displays are left out.
pub open spec fn retained<H>(found: Seq<Monitor<H>>) -> Seq<Monitor<H>> {
    kept_of(found, has_nvapi(found))
}

/// `after` is display `before` once refreshed if it is reached through
/// WinAPI, the refresh having succeeded; any other display is left as it was.
pub open spec fn refreshed_ok<H>(before: Monitor<H>, after: Monitor<H>) -> bool {
    if before.backend == Backend::WinApi {
        &&& after.backend == before.backend
        &&& after.calls@ == before.calls@.push(DdcCall::Refresh(Ok(())))
        &&& (after.luminance is Some ==> after.luminance->Some_0 == LUMINANCE)
    } else {
        after == before
    }
}

/// Every WinAPI display of `before` was refreshed once, with success, and
/// kept its position; every other display is unchanged.
pub open spec fn refresh_ok<H>(before: Seq<Monitor<H>>, after: Seq<Monitor<H>>) -> bool {
    &&& after.len() == before.len()
    &&& forall|j: int| 0 <= j < before.len() ==> #[trigger] refreshed_ok(before[j], after[j])
}

/// Refreshing went in order up to the WinAPI display at `k`, whose refresh
/// failed with `message`; the displays after it were not touched.
pub open spec fn refresh_failed_at<H>(
    before: Seq<Monitor<H>>,
    after: Seq<Monitor<H>>,
    k: int,
    message: Seq<char>,
) -> bool {
    &&& after.len() == before.len()
    &&& 0 <= k < before.len()
    &&& before[k].backend == Backend::WinApi
    &&& after[k].backend == before[k].backend
    &&& after[k].calls@ == before[k].calls@.push(DdcCall::Refresh(Err(message)))
    &&& forall|j: int| 0 <= j < k ==> #[trigger] refreshed_ok(before[j], after[j])
    &&& forall|j: int| k < j < before.len() ==> #[trigger] after[j] == before[j]
}

/// `r` is what listing gives when enumeration found `found`: the displays
/// that operations address (see `retained`), their WinAPI displays refreshed
/// when `needs_caps`; on a failed refresh, `TimedOut` with its message, the
/// displays being left as `after`.
pub open spec fn lists<H>(
    found: Seq<Monitor<H>>,
    after: Seq<Monitor<H>>,
    needs_caps: bool,
    r: Result<Vec<Monitor<H>>, Error>,
) -> bool {
    &&& forall|j: int| 0 <= j < found.len() ==> {
        &&& #[trigger] found[j].calls@ == Seq::<DdcCall>::empty()
        &&& (found[j].luminance is Some ==> found[j].luminance->Some_0 == LUMINANCE)
    }
    &&& !needs_caps ==> r is Ok && r->Ok_0@ == retained(found)
    &&& needs_caps && r is Ok ==> refresh_ok(retained(found), r->Ok_0@)
    &&& needs_caps && r is Err ==> {
        &&& r->Err_0.kind == ErrorKind::TimedOut
        &&& exists|k: int| #[trigger] refresh_failed_at(retained(found), after, k, r->Err_0.message@)
    }
}

/// `r` is display `id` of `listing`, or the error that `listing` holds, or
/// `Unsupported` when there is no display `id`.
pub open spec fn picks<H>(listing: Result<Vec<Monitor<H>>, Error>, id: usize, r: Result<Monitor<H>, Error>) -> bool {
    &&& listing is Err ==> r == Err::<Monitor<H>, Error>(listing->Err_0)
    &&& listing is Ok && id < listing->Ok_0@.len() ==> r == Ok::<Monitor<H>, Error>(listing->Ok_0@[id as int])
    &&& listing is Ok && id >= listing->Ok_0@.len() ==> r is Err && r->Err_0.kind == ErrorKind::Unsupported
}

fn find_nvapi<H>(found: &Vec<Monitor<H>>) -> (r: bool)
    ensures
        r == has_nvapi(found@),
{
    let mut i: usize = 0;
    while i < found.len()
        invariant
            i <= found.len(),
            forall|k: int| 0 <= k < i ==> found@[k].backend != Backend::Nvapi,
        decreases found.len() - i,
    {
        if found[i].backend == Backend::Nvapi {
            assert(found@[i as int].backend == Backend::Nvapi);
            return true;
        }
        i += 1;
    }
    false
}

/// Keeps, in order, the displays that operations address (see `retained`).
pub fn retain_displays<H>(found: Vec<Monitor<H>>) -> (r: Vec<Monitor<H>>)
    ensures
        r@ == retained(found@),
{
    let prefer_nvapi = find_nvapi(&found);
    let ghost input = found@;
    let mut rest = found;
    let mut kept: Vec<Monitor<H>> = Vec::new();
    while rest.len() > 0
        invariant
            rest@.len() <= input.len(),
            rest@ == input.skip(input.len() - rest@.len()),
            prefer_nvapi == has_nvapi(input),
            kept@ == kept_of(input.take(input.len() - rest@.len()), prefer_nvapi),
        decreases rest.len(),
    {
        let ghost k = input.len() - rest@.len();
        let m = rest.remove(0);
        assert(m == input[k]);
        assert(rest@ =~= input.skip(k + 1));
        if !(prefer_nvapi && m.backend == Backend::WinApi) {
            kept.push(m);
        }
        proof {
            reveal(Seq::filter);
            assert(input.take(k + 1).drop_last() =~= input.take(k));
            assert(input.take(k + 1) =~= input.take(k).push(input[k]));
            assert(kept@ =~= kept_of(input.take(k + 1), prefer_nvapi));
        }
    }
    assert(input.take(input.len() as int) =~= input);
    kept
}

/// Refreshes the capabilities of each WinAPI display in turn, in place,
/// stopping at the first refresh that fails, which is reported as `TimedOut`
/// with its message.
pub fn refresh_winapi(displays: &mut Vec<Monitor<ddc_hi::Display>>) -> (r: Result<(), Error>)
    ensures
        r is Ok ==> refresh_ok(old(displays)@, final(displays)@),
        r is Err ==> r->Err_0.kind == ErrorKind::TimedOut && exists|k: int|
            #[trigger] refresh_failed_at(old(displays)@, final(displays)@, k, r->Err_0.message@),
{
    let ghost start = displays@;
    let mut i: usize = 0;
    while i < displays.len()
        invariant
            start == old(displays)@,
            displays@.len() == start.len(),
            i <= start.len(),
            forall|j: int| 0 <= j < i ==> #[trigger] refreshed_ok(start[j], displays@[j]),
            forall|j: int| i <= j < start.len() ==> #[trigger] displays@[j] == start[j],
        decreases start.len() - i,
    {
        if displays[i].backend == Backend::WinApi {
            let ghost ahead = displays@;
            let mut m = displays.remove(i);
            let outcome = m.refresh();
            displays.insert(i, m);
            assert(displays@ =~= ahead.update(i as int, m));
            match transport_result(outcome) {
                Err(e) => {
                    assert(refresh_failed_at(start, displays@, i as int, e.message@));
                    return Err(e);
                },
                Ok(()) => {
                    assert(refreshed_ok(start[i as int], displays@[i as int]));
                },
            }
        }
        i += 1;
    }
    Ok(())
}

/// The display at position `id`, or `Unsupported` when there is none.
pub fn pick_display<H>(displays: Vec<Monitor<H>>, id: usize) -> (r: Result<Monitor<H>, Error>)
    ensures
        id < displays.len() ==> r == Ok::<Monitor<H>, Error>(displays@[id as int]),
        id >= displays.len() ==> r is Err && r->Err_0.kind == ErrorKind::Unsupported,
{
    let mut displays = displays;
    if id < displays.len() {
        Ok(displays.swap_remove(id))
    } else {
        Err(Error::new(ErrorKind::Unsupported, no_display_message(id)))
    }
}

/// Law: when an NVAPI display is present, no WinAPI display is retained
/// and every other display is; when none is present, all displays are
/// retained as found.
pub proof fn lemma_nvapi_preferred<H>(found: Seq<Monitor<H>>)
    ensures
        has_nvapi(found) ==> forall|i: int|
            0 <= i < retained(found).len() ==> #[trigger] retained(found)[i].backend != Backend::WinApi,
        has_nvapi(found) ==> forall|i: int|
            0 <= i < found.len() && found[i].backend != Backend::WinApi
                ==> #[trigger] retained(found).contains(found[i]),
        !has_nvapi(found) ==> retained(found) == found,
{
    broadcast use Seq::lemma_filter_pred, Seq::lemma_filter_contains;
    if has_nvapi(found) {
        let f = not_winapi::<H>();
        assert forall|i: int| 0 <= i < retained(found).len() implies
            #[trigger] retained(found)[i].backend != Backend::WinApi by {
            assert(f(found.filter(f)[i]));
        }
        assert forall|i: int| 0 <= i < found.len() && found[i].backend != Backend::WinApi
            implies #[trigger] retained(found).contains(found[i]) by {
            assert(f(found[i]));
        }
    }
}

/// Law: among the retained displays, an NVAPI display and a WinAPI display
/// never stand together.
pub proof fn lemma_retained_exclusive<H>(found: Seq<Monitor<H>>)
    ensures
        forall|i: int, j: int|
            0 <= i < retained(found).len() && 0 <= j < retained(found).len()
                && #[trigger] retained(found)[i].backend == Backend::Nvapi
                ==> #[trigger] retained(found)[j].backend != Backend::WinApi,
{
    lemma_nvapi_preferred(found);
    if !has_nvapi(found) {
        assert forall|i: int, j: int|
            0 <= i < retained(found).len() && 0 <= j < retained(found).len()
                && #[trigger] retained(found)[i].backend == Backend::Nvapi
                implies #[trigger] retained(found)[j].backend != Backend::WinApi by {
            assert(found[i].backend == Backend::Nvapi);
        }
    }
}

/// Law: when an NVAPI display is found, listing succeeds, with or without
/// refresh, and gives exactly the displays not reached through WinAPI, in
/// order and untouched.
pub proof fn lemma_listing_with_nvapi<H>(
    found: Seq<Monitor<H>>,
    after: Seq<Monitor<H>>,
    needs_caps: bool,
    r: Result<Vec<Monitor<H>>, Error>,
)
    requires
        lists(found, after, needs_caps, r),
        has_nvapi(found),
    ensures
        r is Ok,
        r->Ok_0@ == found.filter(not_winapi()),
{
    lemma_nvapi_preferred(found);
    let kept = retained(found);
    if needs_caps {
        if r is Err {
            let k = choose|k: int| #[trigger] refresh_failed_at(kept, after, k, r->Err_0.message@);
            assert(kept[k].backend != Backend::WinApi);
        }
        let out = r->Ok_0@;
        assert forall|j: int| 0 <= j < kept.len() implies out[j] == kept[j] by {
            assert(refreshed_ok(kept[j], out[j]));
            assert(kept[j].backend != Backend::WinApi);
        }
        assert(out =~= kept);
    }
}

/// Law: when no NVAPI display is found, listing keeps every display at its
/// position: untouched without refresh, and with refresh (when it succeeds)
/// each WinAPI display refreshed once and the others untouched.
pub proof fn lemma_listing_without_nvapi<H>(
    found: Seq<Monitor<H>>,
    after: Seq<Monitor<H>>,
    needs_caps: bool,
    r: Result<Vec<Monitor<H>>, Error>,
)
    requires
        lists(found, after, needs_caps, r),
        !has_nvapi(found),
    ensures
        !needs_caps ==> r is Ok && r->Ok_0@ == found,
        needs_caps && r is Ok ==> refresh_ok(found, r->Ok_0@),
{
    lemma_nvapi_preferred(found);
}

/// Wraps each display that enumeration gave, in order.
fn adopt_displays(handles: Vec<ddc_hi::Display>) -> (r: Vec<Monitor<ddc_hi::Display>>)
    ensures
        r@.len() == handles@.len(),
        forall|j: int| #![trigger r@[j]] 0 <= j < r@.len() ==> {
            &&& r@[j].display == handles@[j]
            &&& r@[j].calls@ == Seq::<DdcCall>::empty()
            &&& (r@[j].luminance is Some ==> r@[j].luminance->Some_0 == LUMINANCE)
        },
{
    let ghost input = handles@;
    let mut rest = handles;
    let mut done: Vec<Monitor<ddc_hi::Display>> = Vec::new();
    while rest.len() > 0
        invariant
            rest@.len() <= input.len(),
            rest@ == input.skip(input.len() - rest@.len()),
            done@.len() == input.len() - rest@.len(),
            forall|j: int| #![trigger done@[j]] 0 <= j < done@.len() ==> {
                &&& done@[j].display == input[j]
                &&& done@[j].calls@ == Seq::<DdcCall>::empty()
                &&& (done@[j].luminance is Some ==> done@[j].luminance->Some_0 == LUMINANCE)
            },
        decreases rest.len(),
    {
        let ghost k = input.len() - rest@.len();
        let d = rest.remove(0);
        assert(rest@ =~= input.skip(k + 1));
        done.push(Monitor::new(d));
    }
    done
}

/// All connected displays that operations address (see `retained`), the
/// WinAPI ones among them refreshed when `needs_caps`.
pub fn get_displays(needs_caps: bool) -> (r: Result<Vec<Monitor<ddc_hi::Display>>, Error>)
    ensures
        exists|found: Seq<Monitor<ddc_hi::Display>>, after: Seq<Monitor<ddc_hi::Display>>|
            #[trigger] lists(found, after, needs_caps, r),
{
    let found = adopt_displays(enumerate_displays());
    let ghost all = found@;
    let mut kept = retain_displays(found);
    if needs_caps {
        match refresh_winapi(&mut kept) {
            Err(e) => {
                let r: Result<Vec<Monitor<ddc_hi::Display>>, Error> = Err(e);
                assert(lists(all, kept@, needs_caps, r));
                return r;
            },
            Ok(()) => {},
        }
    }
    let ghost after = kept@;
    let r: Result<Vec<Monitor<ddc_hi::Display>>, Error> = Ok(kept);
    assert(lists(all, after, needs_caps, r));
    r
}

/// Display `id` of `listing`, or the error that `listing` holds.
pub fn pick_from<H>(listing: Result<Vec<Monitor<H>>, Error>, id: usize) -> (r: Result<Monitor<H>, Error>)
    ensures
        picks(listing, id, r),
{
    match listing {
        Ok(displays) => pick_display(displays, id),
        Err(e) => Err(e),
    }
}

/// The display at position `id` among `get_displays(needs_caps)`.
pub fn get_display(needs_caps: bool, id: usize) -> (r: Result<Monitor<ddc_hi::Display>, Error>)
    ensures
        exists|
            found: Seq<Monitor<ddc_hi::Display>>,
            after: Seq<Monitor<ddc_hi::Display>>,
            listing: Result<Vec<Monitor<ddc_hi::Display>>, Error>,
        | #[trigger] lists(found, after, needs_caps, listing) && picks(listing, id, r),
{
    let listing = get_displays(needs_caps);
    let ghost l = listing;
    pick_from(listing, id)
}

} // verus!
