use crate::event_bus::{EventBus, Subscriber};
use crate::info::{PeripheralInfo, PeripheralInfoView};
use crate::peripheral::{peripheral_links, InnerPeripheral, PeripheralHandle, PeripheralView};
use crate::link::{first_refusal, lemma_refusal_stays, BackendLink, LinkState};
use crate::registry::{
    distinct_addresses, entry_for, info_views, lemma_taken_in, taken_in, PeripheralSet,
};
use crate::types::Error;
use vstd::prelude::*;

verus! {

/// What happened to a scan, as its observers learn of it.
#[derive(Clone)]
pub enum ScanEvent {
    Started,
    Stopped,
    /// A peripheral was seen for the first time in this scan.
    Found(PeripheralInfo),
    /// A peripheral that was seen before has advertised again.
    Updated(PeripheralInfo),
}

/// What a `ScanEvent` holds.
pub enum ScanEventView {
    Started,
    Stopped,
    Found(PeripheralInfoView),
    Updated(PeripheralInfoView),
}

impl View for ScanEvent {
    type V = ScanEventView;

    open spec fn view(&self) -> ScanEventView {
        match self {
            ScanEvent::Started => ScanEventView::Started,
            ScanEvent::Stopped => ScanEventView::Stopped,
            ScanEvent::Found(peripheral) => ScanEventView::Found(peripheral@),
            ScanEvent::Updated(peripheral) => ScanEventView::Updated(peripheral@),
        }
    }
}

/// What the events of a scan bus's history hold.
pub open spec fn scan_event_views(events: Seq<ScanEvent>) -> Seq<ScanEventView> {
    events.map_values(|e: ScanEvent| e@)
}

/// What the transport is asked to do for an adapter.
#[derive(Debug, Clone, Copy, PartialEq, Eq, Structural)]
pub enum AdapterRequest {
    ScanStart,
    ScanStop,
    /// Scan for this many milliseconds, then stop.
    ScanFor { timeout_ms: i32 },
}

/// An adapter as the transport's enumeration hands it over: who it is,
/// whether the transport says that it scans, and the transport's answer to
/// its registration.
pub struct AdapterHandle {
    pub identifier: String,
    pub address: String,
    pub scanning: bool,
    pub link: Result<(), Error>,
}

/// What an adapter is, as its contracts see it.
pub struct AdapterView {
    pub identifier: Seq<char>,
    pub address: Seq<char>,
    pub link: LinkState,
    pub scanning: bool,
    /// Every scan event published so far, in order.
    pub scan_events: Seq<ScanEventView>,
    /// The peripherals seen since the last scan was asked for, at most one
    /// for each address, in the order in which they were first seen.
    pub discovered: Seq<PeripheralInfoView>,
}

impl AdapterView {
    pub open spec fn is_linked(self) -> bool {
        self.link == LinkState::Linked
    }

    /// No two discovered peripherals have the same address.
    pub open spec fn wf(self) -> bool {
        distinct_addresses(self.discovered)
    }

    /// A new adapter: not linked, scanning or idle as the transport says,
    /// nothing published or discovered.
    pub open spec fn fresh(identifier: Seq<char>, address: Seq<char>, scanning: bool)
        -> AdapterView {
        AdapterView {
            identifier,
            address,
            link: LinkState::Unlinked,
            scanning,
            scan_events: Seq::empty(),
            discovered: Seq::empty(),
        }
    }

    /// The transport reports that the scan has started: the adapter scans,
    /// and `Started` is published.
    pub open spec fn scan_started(self) -> AdapterView {
        AdapterView {
            scanning: true,
            scan_events: self.scan_events.push(ScanEventView::Started),
            ..self
        }
    }

    /// The transport reports that the scan has stopped: the adapter is
    /// idle, and `Stopped` is published.
    pub open spec fn scan_stopped(self) -> AdapterView {
        AdapterView {
            scanning: false,
            scan_events: self.scan_events.push(ScanEventView::Stopped),
            ..self
        }
    }

    /// A scan is asked for: what earlier scans discovered is forgotten.
    pub open spec fn scan_requested(self) -> AdapterView {
        AdapterView { discovered: Seq::empty(), ..self }
    }

    /// The transport has answered a request to start scanning: after a
    /// success the adapter scans. Nothing is published: that is the
    /// callback's.
    pub open spec fn scan_start_finished(self, succeeded: bool) -> AdapterView {
        if succeeded {
            AdapterView { scanning: true, ..self }
        } else {
            self
        }
    }

    /// The transport has answered a request to stop scanning, or a request
    /// to scan for a while, which ends with the scan stopped: after a
    /// success the adapter is idle. Nothing is published: that is the
    /// callback's.
    pub open spec fn scan_stop_finished(self, succeeded: bool) -> AdapterView {
        if succeeded {
            AdapterView { scanning: false, ..self }
        } else {
            self
        }
    }

    /// The transport reports a peripheral that it sees for the first time.
    /// The report is taken into the discovered set, and the entry that
    /// then stands for the peripheral is published as found.
    pub open spec fn found(self, report: PeripheralInfoView) -> AdapterView {
        AdapterView {
            discovered: taken_in(self.discovered, report),
            scan_events: self.scan_events.push(
                ScanEventView::Found(entry_for(self.discovered, report)),
            ),
            ..self
        }
    }

    /// The transport reports the peripherals of `reports` as found, one
    /// after the other.
    pub open spec fn all_found(self, reports: Seq<PeripheralInfoView>) -> AdapterView
        decreases reports.len(),
    {
        if reports.len() == 0 {
            self
        } else {
            self.all_found(reports.drop_last()).found(reports.last())
        }
    }

    /// The transport reports a peripheral that has advertised again. The
    /// report is taken into the discovered set, and the entry that then
    /// stands for the peripheral is published as updated.
    pub open spec fn updated(self, report: PeripheralInfoView) -> AdapterView {
        AdapterView {
            discovered: taken_in(self.discovered, report),
            scan_events: self.scan_events.push(
                ScanEventView::Updated(entry_for(self.discovered, report)),
            ),
            ..self
        }
    }
}

/// The transport's answers to the registrations of `handles`, in order.
pub open spec fn adapter_links(handles: Seq<AdapterHandle>) -> Seq<Result<(), Error>> {
    handles.map_values(|h: AdapterHandle| h.link)
}

/// One adapter: who it is, its link to the transport, its scan, and what
/// the scan discovered.
pub struct InnerAdapter {
    identifier: String,
    address: String,
    link: BackendLink,
    scanning: bool,
    on_scan_event: EventBus<ScanEvent>,
    discovered: PeripheralSet,
}

impl View for InnerAdapter {
    type V = AdapterView;

    closed spec fn view(&self) -> AdapterView {
        AdapterView {
            identifier: self.identifier@,
            address: self.address@,
            link: self.link@,
            scanning: self.scanning,
            scan_events: scan_event_views(self.on_scan_event@),
            discovered: self.discovered@,
        }
    }
}

impl InnerAdapter {
    /// The scan bus is the adapter's own, and the view is well-formed.
    pub closed spec fn wf(&self) -> bool {
        &&& self.on_scan_event.topic() is None
        &&& self@.wf()
    }

    /// A well-formed adapter has a well-formed view.
    pub proof fn lemma_wf_view(&self)
        requires
            self.wf(),
        ensures
            self@.wf(),
    {
    }

    /// A new adapter: not linked, scanning or idle as the transport says,
    /// nothing published or discovered.
    pub fn new(identifier: String, address: String, scanning: bool) -> (adapter: Self)
        ensures
            adapter.wf(),
            adapter@ == AdapterView::fresh(identifier@, address@, scanning),
    {
        let adapter = InnerAdapter {
            identifier,
            address,
            link: BackendLink::new(),
            scanning,
            on_scan_event: EventBus::new(),
            discovered: PeripheralSet::new(),
        };
        assert(adapter@.scan_events =~= Seq::empty());
        adapter
    }

    /// Records the transport's answer to the registration of this adapter.
    /// A refusal is handed on and leaves the adapter released.
    pub fn link(&mut self, outcome: Result<(), Error>) -> (result: Result<(), Error>)
        requires
            old(self).wf(),
            old(self)@.link == LinkState::Unlinked,
        ensures
            final(self).wf(),
            result == outcome,
            final(self)@ == (AdapterView {
                link: if outcome is Ok {
                    LinkState::Linked
                } else {
                    LinkState::Released
                },
                ..old(self)@
            }),
    {
        self.link.link(outcome)
    }

    /// Records the transport's answer to the deregistration of this
    /// adapter, which is released whatever the answer. A failure is handed
    /// on.
    pub fn unlink(&mut self, outcome: Result<(), Error>) -> (result: Result<(), Error>)
        requires
            old(self).wf(),
            old(self)@.is_linked(),
        ensures
            final(self).wf(),
            result == outcome,
            final(self)@ == (AdapterView { link: LinkState::Released, ..old(self)@ }),
    {
        self.link.unlink(outcome)
    }

    fn link_all(handles: Vec<AdapterHandle>) -> (result: Result<Vec<InnerAdapter>, Error>)
        ensures
            match first_refusal(adapter_links(handles@)) {
                Some(at) => 0 <= at < handles.len() && result == Err::<Vec<InnerAdapter>, Error>(
                    handles[at].link->Err_0,
                ),
                None => result matches Ok(adapters) && adapters.len() == handles.len()
                    && forall|k: int|
                    0 <= k < adapters.len() ==> (#[trigger] adapters[k]).wf() && adapters[k]@
                        == (AdapterView {
                        link: LinkState::Linked,
                        ..AdapterView::fresh(
                            handles[k].identifier@,
                            handles[k].address@,
                            handles[k].scanning,
                        )
                    }),
            },
    {
        let ghost all = handles@;
        let ghost links = adapter_links(all);
        let mut pending = handles;
        let mut i: usize = 0;
        while i < pending.len()
            invariant
                i <= pending.len(),
                pending@ == all,
                handles@ == all,
                links == adapter_links(all),
                first_refusal(links.subrange(0, i as int)) is None,
            decreases pending.len() - i,
        {
            proof {
                let upto = links.subrange(0, i + 1);
                assert(upto.drop_last() =~= links.subrange(0, i as int));
                assert(upto.last() == all[i as int].link);
            }
            if pending[i].link.is_err() {
                proof {
                    assert(first_refusal(links.subrange(0, i + 1)) == Some(i as int));
                    lemma_refusal_stays(links.subrange(0, i + 1), links);
                }
                let refused = pending.swap_remove(i);
                return Err(refused.link.unwrap_err());
            }
            i += 1;
        }
        assert(links.subrange(0, i as int) =~= links);
        let mut adapters: Vec<InnerAdapter> = Vec::new();
        let mut k: usize = 0;
        while k < pending.len()
            invariant
                k <= pending.len(),
                pending@ == all,
                handles@ == all,
                adapters.len() == k,
                forall|j: int|
                    0 <= j < k ==> (#[trigger] adapters[j]).wf() && adapters[j]@ == (AdapterView {
                        link: LinkState::Linked,
                        ..AdapterView::fresh(all[j].identifier@, all[j].address@, all[j].scanning)
                    }),
            decreases pending.len() - k,
        {
            let mut adapter = InnerAdapter::new(
                pending[k].identifier.clone(),
                pending[k].address.clone(),
                pending[k].scanning,
            );
            let _ = adapter.link(Ok(()));
            adapters.push(adapter);
            k += 1;
        }
        Ok(adapters)
    }

    /// Makes the adapters of what the transport's enumeration handed over,
    /// in its order, each one linked. A failed enumeration is handed on,
    /// and so is the first refused registration: then no adapter is
    /// returned.
    pub fn get_adapters(enumerated: Result<Vec<AdapterHandle>, Error>) -> (result: Result<
        Vec<InnerAdapter>,
        Error,
    >)
        ensures
            match enumerated {
                Ok(handles) => match first_refusal(adapter_links(handles@)) {
                    Some(at) => 0 <= at < handles.len() && result == Err::<
                        Vec<InnerAdapter>,
                        Error,
                    >(handles[at].link->Err_0),
                    None => result matches Ok(adapters) && adapters.len() == handles.len()
                        && forall|k: int|
                        0 <= k < adapters.len() ==> (#[trigger] adapters[k]).wf() && adapters[k]@
                            == (AdapterView {
                            link: LinkState::Linked,
                            ..AdapterView::fresh(
                            handles[k].identifier@,
                            handles[k].address@,
                            handles[k].scanning,
                        )
                        }),
                },
                Err(error) => result == Err::<Vec<InnerAdapter>, Error>(error),
            },
    {
        match enumerated {
            Ok(handles) => Self::link_all(handles),
            Err(error) => Err(error),
        }
    }

    pub fn is_linked(&self) -> (linked: bool)
        ensures
            linked == self@.is_linked(),
    {
        self.link.is_linked()
    }

    pub fn identifier(&self) -> (result: Result<String, Error>)
        ensures
            result matches Ok(identifier) && identifier@ == self@.identifier,
    {
        Ok(self.identifier.clone())
    }

    pub fn address(&self) -> (result: Result<String, Error>)
        ensures
            result matches Ok(address) && address@ == self@.address,
    {
        Ok(self.address.clone())
    }

    /// Starts a scan: what earlier scans discovered is forgotten, and the
    /// transport is to be asked to start scanning, whether a scan is
    /// running or not. Its answer goes to `scan_start_finished`.
    pub fn scan_start(&mut self) -> (result: Result<AdapterRequest, Error>)
        requires
            old(self).wf(),
            old(self)@.is_linked(),
        ensures
            final(self).wf(),
            final(self)@ == old(self)@.scan_requested(),
            result matches Ok(request) && request == AdapterRequest::ScanStart,
    {
        self.discovered.clear();
        Ok(AdapterRequest::ScanStart)
    }

    /// Takes the transport's answer to a request to start scanning and
    /// hands it on. After a success the adapter is scanning. Nothing is
    /// published: the observers hear of the start through the transport's
    /// callback.
    pub fn scan_start_finished(&mut self, outcome: Result<(), Error>) -> (result: Result<
        (),
        Error,
    >)
        requires
            old(self).wf(),
            old(self)@.is_linked(),
        ensures
            final(self).wf(),
            result == outcome,
            final(self)@ == old(self)@.scan_start_finished(outcome is Ok),
    {
        if outcome.is_ok() {
            self.scanning = true;
        }
        outcome
    }

    /// The request to stop scanning, whether a scan is running or not. The
    /// transport's answer goes to `scan_stop_finished`.
    pub fn scan_stop(&self) -> (result: Result<AdapterRequest, Error>)
        requires
            self@.is_linked(),
        ensures
            result matches Ok(request) && request == AdapterRequest::ScanStop,
    {
        Ok(AdapterRequest::ScanStop)
    }

    /// Takes the transport's answer to a request to stop scanning and
    /// hands it on. After a success the adapter is idle. Nothing is
    /// published: the observers hear of the stop through the transport's
    /// callback.
    pub fn scan_stop_finished(&mut self, outcome: Result<(), Error>) -> (result: Result<(), Error>)
        requires
            old(self).wf(),
            old(self)@.is_linked(),
        ensures
            final(self).wf(),
            result == outcome,
            final(self)@ == old(self)@.scan_stop_finished(outcome is Ok),
    {
        if outcome.is_ok() {
            self.scanning = false;
        }
        outcome
    }

    /// Starts a scan of a fixed length: what earlier scans discovered is
    /// forgotten, and the transport is to be asked to scan for
    /// `timeout_ms` milliseconds and then stop. Its answer goes to
    /// `scan_for_finished`.
    pub fn scan_for(&mut self, timeout_ms: i32) -> (result: Result<AdapterRequest, Error>)
        requires
            old(self).wf(),
            old(self)@.is_linked(),
        ensures
            final(self).wf(),
            final(self)@ == old(self)@.scan_requested(),
            result matches Ok(request) && request == (AdapterRequest::ScanFor { timeout_ms }),
    {
        self.discovered.clear();
        Ok(AdapterRequest::ScanFor { timeout_ms })
    }

    /// Takes the transport's answer to a request to scan for a while and
    /// hands it on. After a success the scan is over and the adapter is
    /// idle. Nothing is published: the observers hear of the start and the
    /// stop through the transport's callbacks.
    pub fn scan_for_finished(&mut self, outcome: Result<(), Error>) -> (result: Result<(), Error>)
        requires
            old(self).wf(),
            old(self)@.is_linked(),
        ensures
            final(self).wf(),
            result == outcome,
            final(self)@ == old(self)@.scan_stop_finished(outcome is Ok),
    {
        if outcome.is_ok() {
            self.scanning = false;
        }
        outcome
    }

    /// Takes what the transport answered when asked whether the adapter
    /// scans, and hands it on. The transport is the one that knows: after
    /// an answer the adapter scans or is idle as it says. Nothing is
    /// published. A failed query changes nothing.
    pub fn scan_is_active(&mut self, answer: Result<bool, Error>) -> (result: Result<bool, Error>)
        requires
            old(self).wf(),
            old(self)@.is_linked(),
        ensures
            final(self).wf(),
            result == answer,
            final(self)@ == (AdapterView {
                scanning: match answer {
                    Ok(active) => active,
                    Err(_) => old(self)@.scanning,
                },
                ..old(self)@
            }),
    {
        if let Ok(active) = &answer {
            self.scanning = *active;
        }
        answer
    }

    /// Whether the adapter scans, as far as it was told.
    pub fn is_scanning(&self) -> (scanning: bool)
        ensures
            scanning == self@.scanning,
    {
        self.scanning
    }

    /// The peripherals seen since the last scan was asked for, each a copy
    /// that its holder owns, in the order in which they were first seen.
    pub fn scan_get_results(&self) -> (result: Result<Vec<PeripheralInfo>, Error>)
        requires
            self.wf(),
        ensures
            result matches Ok(peripherals) && info_views(peripherals@) == self@.discovered
                && distinct_addresses(info_views(peripherals@)),
    {
        Ok(self.discovered.to_vec())
    }

    /// Makes the paired peripherals of what the transport handed over
    /// when asked for them: one peripheral for each handle, in the
    /// transport's order, each one linked. A failed query is handed on,
    /// and so is the first refused registration: then no peripheral is
    /// returned. Neither the scan nor what it discovered has a part in it.
    pub fn get_paired_peripherals(&self, fetched: Result<Vec<PeripheralHandle>, Error>) -> (result:
        Result<Vec<InnerPeripheral>, Error>)
        ensures
            match fetched {
                Ok(handles) => match first_refusal(peripheral_links(handles@)) {
                    Some(at) => 0 <= at < handles.len() && result == Err::<
                        Vec<InnerPeripheral>,
                        Error,
                    >(handles[at].link->Err_0),
                    None => result matches Ok(paired) && paired.len() == handles.len()
                        && forall|k: int|
                        0 <= k < paired.len() ==> (#[trigger] paired[k]).wf() && paired[k]@
                            == (PeripheralView {
                            link: LinkState::Linked,
                            ..PeripheralView::fresh(handles[k].info@, handles[k].connected)
                        }),
                },
                Err(error) => result == Err::<Vec<InnerPeripheral>, Error>(error),
            },
    {
        match fetched {
            Ok(handles) => InnerPeripheral::from_handles(handles),
            Err(error) => Err(error),
        }
    }

    /// The transport reports that the scan has started: the adapter is
    /// scanning, and `Started` is published, whatever the adapter was told
    /// before.
    pub fn on_callback_scan_start(&mut self)
        requires
            old(self).wf(),
            old(self)@.is_linked(),
        ensures
            final(self).wf(),
            final(self)@ == old(self)@.scan_started(),
    {
        self.scanning = true;
        self.on_scan_event.publish(ScanEvent::Started);
        assert(self@.scan_events =~= old(self)@.scan_events.push(ScanEventView::Started));
    }

    /// The transport reports that the scan has stopped: the adapter is
    /// idle, and `Stopped` is published, whatever the adapter was told
    /// before.
    pub fn on_callback_scan_stop(&mut self)
        requires
            old(self).wf(),
            old(self)@.is_linked(),
        ensures
            final(self).wf(),
            final(self)@ == old(self)@.scan_stopped(),
    {
        self.scanning = false;
        self.on_scan_event.publish(ScanEvent::Stopped);
        assert(self@.scan_events =~= old(self)@.scan_events.push(ScanEventView::Stopped));
    }

    /// The transport reports a peripheral that it sees for the first time.
    /// The report is taken into the discovered set and the entry that then
    /// stands for the peripheral is published as found, in one step.
    pub fn on_callback_scan_found(&mut self, peripheral: PeripheralInfo)
        requires
            old(self).wf(),
            old(self)@.is_linked(),
        ensures
            final(self).wf(),
            final(self)@ == old(self)@.found(peripheral@),
    {
        proof {
            self.discovered.lemma_wf();
        }
        let entry = self.discovered.take_in(peripheral);
        let ghost shown = ScanEventView::Found(entry@);
        self.on_scan_event.publish(ScanEvent::Found(entry));
        proof {
            self.discovered.lemma_wf();
            assert(self@.scan_events =~= old(self)@.scan_events.push(shown));
        }
    }

    /// The transport reports a peripheral that has advertised again. The
    /// report is taken into the discovered set and the entry that then
    /// stands for the peripheral is published as updated, in one step.
    pub fn on_callback_scan_updated(&mut self, peripheral: PeripheralInfo)
        requires
            old(self).wf(),
            old(self)@.is_linked(),
        ensures
            final(self).wf(),
            final(self)@ == old(self)@.updated(peripheral@),
    {
        proof {
            self.discovered.lemma_wf();
        }
        let entry = self.discovered.take_in(peripheral);
        let ghost shown = ScanEventView::Updated(entry@);
        self.on_scan_event.publish(ScanEvent::Updated(entry));
        proof {
            self.discovered.lemma_wf();
            assert(self@.scan_events =~= old(self)@.scan_events.push(shown));
        }
    }

    /// A new subscriber to the scan events, which begins after the scan
    /// events published so far: the first that it can see is the next one
    /// published.
    pub fn on_scan_event(&self) -> (subscriber: Subscriber<ScanEvent>)
        requires
            self.wf(),
        ensures
            subscriber.topic() is None,
            subscriber.start() == self@.scan_events.len(),
    {
        self.on_scan_event.subscribe()
    }
}


/// Every step keeps a well-formed adapter well-formed.
pub proof fn lemma_scan_steps_keep_wf(
    adapter: AdapterView,
    report: PeripheralInfoView,
    succeeded: bool,
)
    requires
        adapter.wf(),
    ensures
        adapter.scan_started().wf(),
        adapter.scan_stopped().wf(),
        adapter.scan_requested().wf(),
        adapter.scan_start_finished(succeeded).wf(),
        adapter.scan_stop_finished(succeeded).wf(),
        adapter.found(report).wf(),
        adapter.updated(report).wf(),
{
    lemma_taken_in(adapter.discovered, report);
}

/// A scan begins with nothing discovered: after a scan is asked for and two
/// peripherals of different addresses are found, exactly these two are
/// discovered; after the next scan is asked for and a third is found,
/// exactly that one.
pub proof fn lemma_fresh_scan_discovers_what_is_found(
    adapter: AdapterView,
    first: PeripheralInfoView,
    second: PeripheralInfoView,
    third: PeripheralInfoView,
)
    requires
        first.address != second.address,
    ensures
        adapter.scan_requested().found(first).found(second).discovered == seq![first, second],
        adapter.scan_requested().found(first).found(second).scan_requested().found(
            third,
        ).discovered == seq![third],
{
    let none = Seq::<PeripheralInfoView>::empty();
    assert(taken_in(none, first) =~= seq![first]);
    let one = seq![first];
    assert(!crate::registry::knows(one, second.address)) by {
        if crate::registry::knows(one, second.address) {
            let i = crate::registry::place_of(one, second.address);
            assert(one[i] == first);
        }
    }
    assert(taken_in(one, second) =~= seq![first, second]);
    assert(taken_in(none, third) =~= seq![third]);
}

/// Reports accumulate: after any number of found peripherals the
/// discovered set has no address twice, holds an entry for every address
/// that was reported and for every address that it held before, and one
/// event was published for each report.
pub proof fn lemma_found_reports_accumulate(adapter: AdapterView, reports: Seq<PeripheralInfoView>)
    requires
        adapter.wf(),
    ensures
        adapter.all_found(reports).wf(),
        forall|i: int|
            0 <= i < reports.len() ==> crate::registry::knows(
                adapter.all_found(reports).discovered,
                (#[trigger] reports[i]).address,
            ),
        forall|address: Seq<char>|
            crate::registry::knows(adapter.discovered, address) ==> crate::registry::knows(
                adapter.all_found(reports).discovered,
                address,
            ),
        adapter.all_found(reports).discovered.len() <= adapter.discovered.len() + reports.len(),
        adapter.all_found(reports).scan_events.len() == adapter.scan_events.len() + reports.len(),
        adapter.all_found(reports).scanning == adapter.scanning,
    decreases reports.len(),
{
    if reports.len() > 0 {
        let before = adapter.all_found(reports.drop_last());
        let after = adapter.all_found(reports);
        lemma_found_reports_accumulate(adapter, reports.drop_last());
        lemma_taken_in(before.discovered, reports.last());
        assert forall|address: Seq<char>|
            crate::registry::knows(before.discovered, address) implies crate::registry::knows(
            after.discovered,
            address,
        ) by {
            if address != reports.last().address {
                assert(crate::registry::knows(after.discovered, address)
                    <==> crate::registry::knows(before.discovered, address));
            }
        }
        assert forall|i: int| 0 <= i < reports.len() implies crate::registry::knows(
            after.discovered,
            (#[trigger] reports[i]).address,
        ) by {
            if i < reports.len() - 1 {
                assert(reports[i] == reports.drop_last()[i]);
            }
        }
    }
}

/// What is published as found or updated is what the discovered set then
/// holds for that address.
pub proof fn lemma_published_peripheral_is_discovered(
    adapter: AdapterView,
    report: PeripheralInfoView,
)
    requires
        adapter.wf(),
    ensures
        crate::registry::knows(adapter.found(report).discovered, report.address),
        adapter.found(report).discovered[crate::registry::place_of(
            adapter.found(report).discovered,
            report.address,
        )] == entry_for(adapter.discovered, report),
        adapter.found(report).scan_events.last() == ScanEventView::Found(
            entry_for(adapter.discovered, report),
        ),
        adapter.updated(report).discovered == adapter.found(report).discovered,
        adapter.updated(report).scan_events.last() == ScanEventView::Updated(
            entry_for(adapter.discovered, report),
        ),
{
    lemma_taken_in(adapter.discovered, report);
}

} // verus!
