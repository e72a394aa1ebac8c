//! The device registry, the record it keeps of each device and the queue of
//! transfers that waits for the device.

use crate::soap::{
    BodyView, DeviceId, DeviceIdView, Envelope, EnvelopeView, ParameterList, ParameterValue,
    ParameterValueView, SetParameterValuesView,
};
use std::collections::VecDeque;
use vstd::prelude::*;

verus! {

/// The parameter in which a device reports where it takes connection requests.
pub const CONNREQ_URL: &'static str = "Device.ManagementServer.ConnectionRequestURL";

/// The parameter that holds the user name a connection request must present.
pub const CONNREQ_USERNAME: &'static str = "Device.ManagementServer.ConnectionRequestUsername";

/// The parameter that holds the password a connection request must present.
pub const CONNREQ_PASSWORD: &'static str = "Device.ManagementServer.ConnectionRequestPassword";

/// The type under which the server writes text parameters.
pub const XSD_STRING: &'static str = "xsd:string";

/// The parameter key of the directive that sets the connection-request credentials.
pub const CONNREQ_KEY: u32 = 1;

/// How the server reaches a device between its sessions.
#[derive(Debug, Clone, PartialEq, Eq)]
pub struct Connreq {
    pub url: String,
    pub username: String,
    pub password: String,
}

/// [`Connreq`] as a mathematical value.
pub struct ConnreqView {
    pub url: Seq<char>,
    pub username: Seq<char>,
    pub password: Seq<char>,
}

impl View for Connreq {
    type V = ConnreqView;

    open spec fn view(&self) -> ConnreqView {
        ConnreqView { url: self.url@, username: self.username@, password: self.password@ }
    }
}

impl ConnreqView {
    pub open spec fn unset() -> ConnreqView {
        ConnreqView { url: Seq::empty(), username: Seq::empty(), password: Seq::empty() }
    }

    /// The directive that sets a device's connection-request credentials to these.
    pub open spec fn directive(self) -> EnvelopeView {
        EnvelopeView {
            id: 0,
            body: BodyView::SetParameterValues(
                SetParameterValuesView {
                    parameter_list: seq![
                        ParameterValueView {
                            name: CONNREQ_USERNAME@,
                            xsi_type: XSD_STRING@,
                            value: self.username,
                        },
                        ParameterValueView {
                            name: CONNREQ_PASSWORD@,
                            xsi_type: XSD_STRING@,
                            value: self.password,
                        },
                    ],
                    parameter_key: CONNREQ_KEY,
                },
            ),
        }
    }
}

impl Default for Connreq {
    fn default() -> (r: Self)
        ensures
            r@ == ConnreqView::unset(),
    {
        Connreq { url: String::new(), username: String::new(), password: String::new() }
    }
}

impl Connreq {
    /// The directive that sets a device's connection-request credentials to these.
    pub fn directive(&self) -> (r: Envelope)
        ensures
            r@ == self@.directive(),
    {
        let mut list = ParameterList::new();
        list.push(ParameterValue::new(CONNREQ_USERNAME, XSD_STRING, self.username.as_str()));
        list.push(ParameterValue::new(CONNREQ_PASSWORD, XSD_STRING, self.password.as_str()));
        let mut msg = Envelope::new(0);
        msg.add_spv(CONNREQ_KEY, list);
        proof {
            assert(list@ =~= self@.directive().body->SetParameterValues_0.parameter_list);
        }
        msg
    }
}

/// One message that waits to be sent to a device, and who waits for the answer.
///
/// `O` is the handle of an observer: whoever holds it can hand the device's
/// answer to the party that asked for the transfer.
#[derive(Debug, PartialEq, Eq)]
pub struct Transfer<O> {
    pub msg: Envelope,
    pub observer: Option<O>,
}

/// [`Transfer`] as a mathematical value.
pub struct TransferView<O> {
    pub msg: EnvelopeView,
    pub observer: Option<O>,
}

impl<O> View for Transfer<O> {
    type V = TransferView<O>;

    open spec fn view(&self) -> TransferView<O> {
        TransferView { msg: self.msg@, observer: self.observer }
    }
}

impl<O> Transfer<O> {
    /// A transfer of an empty envelope that nobody observes.
    pub fn new() -> (r: Self)
        ensures
            r@ == (TransferView::<O> {
                msg: EnvelopeView { id: 0, body: BodyView::Empty },
                observer: None,
            }),
    {
        Transfer { msg: Envelope::new(0), observer: None }
    }
}

/// The views of the transfers of a queue, front first.
pub open spec fn transfer_views<O>(queue: Seq<Transfer<O>>) -> Seq<TransferView<O>> {
    queue.map_values(|t: Transfer<O>| t@)
}

/// What the server knows of one device, and what waits to be sent to it.
#[derive(Debug, PartialEq, Eq)]
pub struct CPE<O> {
    pub device_id: DeviceId,
    pub connreq: Connreq,
    pub transfers: VecDeque<Transfer<O>>,
}

/// [`CPE`] as a mathematical value.
pub struct CpeView<O> {
    pub device_id: DeviceIdView,
    pub connreq: ConnreqView,
    /// The pending transfers, in the order in which they will be sent.
    pub transfers: Seq<TransferView<O>>,
}

impl<O> View for CPE<O> {
    type V = CpeView<O>;

    open spec fn view(&self) -> CpeView<O> {
        CpeView {
            device_id: self.device_id@,
            connreq: self.connreq@,
            transfers: transfer_views(self.transfers@),
        }
    }
}

impl<O> CpeView<O> {
    /// The record of a device of which nothing is known yet.
    pub open spec fn fresh() -> CpeView<O> {
        CpeView {
            device_id: DeviceIdView::unknown(),
            connreq: ConnreqView::unset(),
            transfers: Seq::empty(),
        }
    }

    /// The transfer that re-asserts the stored connection-request credentials.
    pub open spec fn corrective(self) -> TransferView<O> {
        TransferView { msg: self.connreq.directive(), observer: None }
    }

    /// Whether an Inform that reports `url` finds the record out of date.
    pub open spec fn diverges(self, url: Seq<char>) -> bool {
        self.connreq.url != url
    }

    /// The record after a device has introduced itself as `device_id`, reachable at `url`.
    pub open spec fn informed(self, device_id: DeviceIdView, url: Seq<char>) -> CpeView<O> {
        if self.diverges(url) {
            CpeView {
                device_id,
                connreq: ConnreqView { url, ..self.connreq },
                transfers: self.transfers.push(self.corrective()),
            }
        } else {
            CpeView { device_id, ..self }
        }
    }

    /// The record with `transfer` added at the back of the queue.
    pub open spec fn enqueued(self, transfer: TransferView<O>) -> CpeView<O> {
        CpeView { transfers: self.transfers.push(transfer), ..self }
    }

    /// The transfer that is sent next, if one is pending.
    pub open spec fn next(self) -> Option<TransferView<O>> {
        if self.transfers.len() > 0 {
            Some(self.transfers[0])
        } else {
            None
        }
    }

    /// The record once the next transfer has left the queue.
    pub open spec fn dispatched(self) -> CpeView<O> {
        if self.transfers.len() > 0 {
            CpeView { transfers: self.transfers.drop_first(), ..self }
        } else {
            self
        }
    }
}

impl<O> Default for CPE<O> {
    fn default() -> (r: Self)
        ensures
            r@ == CpeView::<O>::fresh(),
    {
        let r = CPE {
            device_id: DeviceId::default(),
            connreq: Connreq::default(),
            transfers: VecDeque::new(),
        };
        proof {
            assert(r@.transfers =~= Seq::empty());
        }
        r
    }
}

impl<O> CPE<O> {
    /// Takes note of an Inform: records the identity, and where the reported
    /// address differs from the stored one, stores it and queues the transfer
    /// that re-asserts the credentials. Returns whether it queued one.
    pub fn reconcile(&mut self, device_id: DeviceId, connreq_url: &str) -> (queued: bool)
        ensures
            final(self)@ == old(self)@.informed(device_id@, connreq_url@),
            queued == old(self)@.diverges(connreq_url@),
    {
        self.device_id = device_id;
        let reported = connreq_url.to_owned();
        if self.connreq.url != reported {
            self.connreq.url = reported;
            let transfer = Transfer { msg: self.connreq.directive(), observer: None };
            self.transfers.push_back(transfer);
            proof {
                assert(self@.transfers =~= old(self)@.transfers.push(old(self)@.corrective()));
            }
            true
        } else {
            false
        }
    }

    /// Adds `transfer` at the back of the queue.
    pub fn enqueue(&mut self, transfer: Transfer<O>)
        ensures
            final(self)@ == old(self)@.enqueued(transfer@),
    {
        self.transfers.push_back(transfer);
        proof {
            assert(self@.transfers =~= old(self)@.transfers.push(transfer@));
        }
    }

    /// Removes the transfer at the front of the queue and returns it.
    pub fn next_transfer(&mut self) -> (r: Option<Transfer<O>>)
        ensures
            final(self)@ == old(self)@.dispatched(),
            match r {
                Some(transfer) => old(self)@.next() == Some(transfer@),
                None => old(self)@.next() is None,
            },
    {
        let r = self.transfers.pop_front();
        proof {
            assert(self@.transfers =~= old(self)@.dispatched().transfers);
        }
        r
    }
}

/// The registry of devices, by serial number, and the credential that every
/// device must present.
pub struct Acs<O> {
    basicauth: String,
    serials: Vec<String>,
    cpe_list: Vec<CPE<O>>,
}

/// [`Acs`] as a mathematical value.
pub struct AcsView<O> {
    pub basicauth: Seq<char>,
    /// The record of each known device, by serial number.
    pub devices: Map<Seq<char>, CpeView<O>>,
}

impl<O> AcsView<O> {
    pub open spec fn knows(self, serial: Seq<char>) -> bool {
        self.devices.contains_key(serial)
    }

    /// The registry with `record` as the record of the device `serial`.
    pub open spec fn with_device(self, serial: Seq<char>, record: CpeView<O>) -> AcsView<O> {
        AcsView { devices: self.devices.insert(serial, record), ..self }
    }

    /// The registry once the device `serial` has a record: its own if it had
    /// one, else a fresh one.
    pub open spec fn resolved(self, serial: Seq<char>) -> AcsView<O> {
        if self.knows(serial) {
            self
        } else {
            self.with_device(serial, CpeView::fresh())
        }
    }

    /// The registry after the device `serial` has introduced itself.
    pub open spec fn informed(
        self,
        serial: Seq<char>,
        device_id: DeviceIdView,
        url: Seq<char>,
    ) -> AcsView<O> {
        let resolved = self.resolved(serial);
        resolved.with_device(serial, resolved.devices[serial].informed(device_id, url))
    }

    /// The registry with `transfer` queued for the device `serial`, if it is known.
    pub open spec fn enqueued(self, serial: Seq<char>, transfer: TransferView<O>) -> AcsView<O> {
        if self.knows(serial) {
            self.with_device(serial, self.devices[serial].enqueued(transfer))
        } else {
            self
        }
    }

    /// The transfer that the device `serial` is sent next.
    pub open spec fn next(self, serial: Seq<char>) -> Option<TransferView<O>> {
        if self.knows(serial) {
            self.devices[serial].next()
        } else {
            None
        }
    }

    /// The registry once the next transfer of the device `serial` has left its queue.
    pub open spec fn dispatched(self, serial: Seq<char>) -> AcsView<O> {
        if self.next(serial) is Some {
            self.with_device(serial, self.devices[serial].dispatched())
        } else {
            self
        }
    }
}

impl<O> View for Acs<O> {
    type V = AcsView<O>;

    closed spec fn view(&self) -> AcsView<O> {
        AcsView {
            basicauth: self.basicauth@,
            devices: Map::new(
                |serial: Seq<char>| self.holds(serial),
                |serial: Seq<char>| self.cpe_list@[self.position(serial)]@,
            ),
        }
    }
}

impl<O> Acs<O> {
    #[verifier::type_invariant]
    spec fn inv(self) -> bool {
        &&& self.serials@.len() == self.cpe_list@.len()
        &&& forall|i: int, j: int|
            0 <= i < j < self.serials@.len() ==> self.serials@[i]@ != self.serials@[j]@
    }

    spec fn at(self, serial: Seq<char>, i: int) -> bool {
        0 <= i < self.serials@.len() && self.serials@[i]@ == serial
    }

    spec fn holds(self, serial: Seq<char>) -> bool {
        exists|i: int| self.at(serial, i)
    }

    spec fn position(self, serial: Seq<char>) -> int {
        choose|i: int| self.at(serial, i)
    }

    proof fn lemma_position(self, serial: Seq<char>, i: int)
        requires
            self.inv(),
            self.at(serial, i),
        ensures
            self.holds(serial),
            self.position(serial) == i,
            self@.knows(serial),
            self@.devices[serial] == self.cpe_list@[i]@,
    {
    }

    /// A registry without devices, which admits the credential `basicauth`.
    pub fn new(basicauth: String) -> (r: Self)
        ensures
            r@ == (AcsView::<O> { basicauth: basicauth@, devices: Map::empty() }),
    {
        let r = Acs { basicauth, serials: Vec::new(), cpe_list: Vec::new() };
        proof {
            assert(r@.devices =~= Map::empty());
        }
        r
    }

    /// The credential that every device must present.
    pub fn basicauth(&self) -> (r: &str)
        ensures
            r@ == self@.basicauth,
    {
        self.basicauth.as_str()
    }

    /// The number of devices that have a record.
    pub fn len(&self) -> (r: usize)
        ensures
            self@.devices.dom().finite(),
            r == self@.devices.dom().len(),
    {
        proof {
            use_type_invariant(self);
            let keys = self.serials@.map_values(|s: String| s@);
            assert forall|k: Seq<char>| keys.to_set().contains(k) <==> self@.devices.dom().contains(
                k,
            ) by {
                if keys.contains(k) {
                    let i: int = choose|i: int| 0 <= i < keys.len() && keys[i] == k;
                    assert(self.at(k, i));
                }
                if self.holds(k) {
                    assert(keys[self.position(k)] == k);
                }
            }
            assert(keys.to_set() =~= self@.devices.dom());
            keys.unique_seq_to_set();
        }
        self.serials.len()
    }

    fn find(&self, serial: &str) -> (r: Option<usize>)
        ensures
            match r {
                Some(i) => self.at(serial@, i as int),
                None => !self.holds(serial@),
            },
    {
        let wanted = serial.to_owned();
        let mut i: usize = 0;
        while i < self.serials.len()
            invariant
                i <= self.serials@.len(),
                wanted@ == serial@,
                forall|k: int| 0 <= k < i ==> !self.at(serial@, k),
            decreases self.serials@.len() - i,
        {
            if self.serials[i] == wanted {
                return Some(i);
            }
            i = i + 1;
        }
        None
    }

    /// Whether the device `serial` has a record.
    pub fn contains(&self, serial: &str) -> (r: bool)
        ensures
            r == self@.knows(serial@),
    {
        self.find(serial).is_some()
    }

    /// The record of the device `serial`.
    pub fn lookup(&self, serial: &str) -> (r: Option<&CPE<O>>)
        ensures
            match r {
                Some(record) => self@.knows(serial@) && self@.devices[serial@] == record@,
                None => !self@.knows(serial@),
            },
    {
        match self.find(serial) {
            Some(i) => {
                proof {
                    use_type_invariant(self);
                }
                Some(&self.cpe_list[i])
            },
            None => None,
        }
    }

    /// Gives the device `serial` a fresh record unless it has one. Returns
    /// where its record is, and whether it is a new one.
    fn resolve(&mut self, serial: &str) -> (r: (usize, bool))
        ensures
            final(self)@ == old(self)@.resolved(serial@),
            final(self).at(serial@, r.0 as int),
            r.1 == !old(self)@.knows(serial@),
    {
        proof {
            use_type_invariant(&*self);
        }
        match self.find(serial) {
            Some(i) => (i, false),
            None => {
                proof {
                    assert forall|i: int| 0 <= i < self.serials@.len() implies self.serials@[i]@
                        != serial@ by {
                        assert(!self.at(serial@, i));
                    }
                }
                // The two lists grow together: the registry is taken apart,
                // extended and put back, so that at no point a serial number
                // is without its record.
                let mut taken = Acs {
                    basicauth: String::new(),
                    serials: Vec::new(),
                    cpe_list: Vec::new(),
                };
                std::mem::swap(self, &mut taken);
                let Acs { basicauth, mut serials, mut cpe_list } = taken;
                let i: usize = serials.len();
                serials.push(serial.to_owned());
                cpe_list.push(CPE::default());
                *self = Acs { basicauth, serials, cpe_list };
                proof {
                    let after = old(self)@.resolved(serial@);
                    assert(self.at(serial@, i as int));
                    assert forall|k: Seq<char>| old(self).holds(k) implies self.holds(k) by {
                        assert(self.at(k, old(self).position(k)));
                    }
                    assert forall|k: Seq<char>| self.holds(k) && k != serial@ implies old(
                        self,
                    ).holds(k) by {
                        assert(old(self).at(k, self.position(k)));
                    }
                    assert(self@.devices =~= after.devices);
                }
                (i, true)
            },
        }
    }

    /// Gives the device `serial` a fresh record unless it has one. Returns
    /// whether it made one.
    pub fn resolve_or_create(&mut self, serial: &str) -> (created: bool)
        ensures
            final(self)@ == old(self)@.resolved(serial@),
            created == !old(self)@.knows(serial@),
    {
        self.resolve(serial).1
    }

    proof fn lemma_record_replaced(self, before: Self, i: int)
        requires
            before.inv(),
            0 <= i < before.cpe_list@.len(),
            self.basicauth == before.basicauth,
            self.serials == before.serials,
            self.cpe_list@ == before.cpe_list@.update(i, self.cpe_list@[i]),
        ensures
            self@ == before@.with_device(before.serials@[i]@, self.cpe_list@[i]@),
    {
        let serial = before.serials@[i]@;
        let after = before@.with_device(serial, self.cpe_list@[i]@);
        before.lemma_position(serial, i);
        assert forall|k: Seq<char>| self.holds(k) <==> before.holds(k) by {
            if self.holds(k) {
                assert(before.at(k, self.position(k)));
            }
            if before.holds(k) {
                assert(self.at(k, before.position(k)));
            }
        }
        assert(self@.devices =~= after.devices);
    }

    /// Makes `record` the record of the device `serial`, in place of the one
    /// it may have had.
    pub fn insert(&mut self, serial: &str, record: CPE<O>)
        ensures
            final(self)@ == old(self)@.with_device(serial@, record@),
    {
        let (i, _) = self.resolve(serial);
        proof {
            use_type_invariant(&*self);
        }
        let ghost resolved = *self;
        self.cpe_list[i] = record;
        proof {
            self.lemma_record_replaced(resolved, i as int);
            assert(self@.devices =~= old(self)@.with_device(serial@, record@).devices);
        }
    }

    /// Queues `transfer` for the device `serial`. A device without a record
    /// has no queue: the transfer comes back.
    pub fn enqueue(&mut self, serial: &str, transfer: Transfer<O>) -> (r: Result<(), Transfer<O>>)
        ensures
            final(self)@ == old(self)@.enqueued(serial@, transfer@),
            match r {
                Ok(_) => old(self)@.knows(serial@),
                Err(rejected) => !old(self)@.knows(serial@) && rejected == transfer,
            },
    {
        proof {
            use_type_invariant(&*self);
        }
        match self.find(serial) {
            Some(i) => {
                self.cpe_list[i].enqueue(transfer);
                proof {
                    self.lemma_record_replaced(*old(self), i as int);
                }
                Ok(())
            },
            None => Err(transfer),
        }
    }

    /// Takes note of an Inform of the device `serial`, which gets a record if
    /// it had none. Returns whether a corrective transfer was queued.
    pub fn reconcile(&mut self, serial: &str, device_id: DeviceId, connreq_url: &str) -> (queued:
        bool)
        ensures
            final(self)@ == old(self)@.informed(serial@, device_id@, connreq_url@),
            queued == old(self)@.resolved(serial@).devices[serial@].diverges(connreq_url@),
    {
        let (i, _) = self.resolve(serial);
        proof {
            use_type_invariant(&*self);
        }
        let ghost resolved = *self;
        let queued = self.cpe_list[i].reconcile(device_id, connreq_url);
        proof {
            self.lemma_record_replaced(resolved, i as int);
        }
        queued
    }

    /// Removes the transfer at the front of the queue of the device `serial`
    /// and returns it.
    pub fn next_transfer(&mut self, serial: &str) -> (r: Option<Transfer<O>>)
        ensures
            final(self)@ == old(self)@.dispatched(serial@),
            match r {
                Some(transfer) => old(self)@.next(serial@) == Some(transfer@),
                None => old(self)@.next(serial@) is None,
            },
    {
        proof {
            use_type_invariant(&*self);
        }
        match self.find(serial) {
            Some(i) => {
                let r = self.cpe_list[i].next_transfer();
                proof {
                    self.lemma_record_replaced(*old(self), i as int);
                    if r is None {
                        assert(self@.devices =~= old(self)@.devices);
                    }
                }
                r
            },
            None => None,
        }
    }
}

impl<O> CpeView<O> {
    /// The record once its next `n` transfers have left the queue.
    pub open spec fn dispatched_times(self, n: nat) -> CpeView<O>
        decreases n,
    {
        if n == 0 {
            self
        } else {
            self.dispatched().dispatched_times((n - 1) as nat)
        }
    }
}

/// Dispatching `n` transfers removes the first `n` of the queue and leaves
/// the others in their order.
pub proof fn lemma_dispatched_times<O>(record: CpeView<O>, n: nat)
    requires
        n <= record.transfers.len(),
    ensures
        record.dispatched_times(n).transfers == record.transfers.skip(n as int),
    decreases n,
{
    if n > 0 {
        lemma_dispatched_times(record.dispatched(), (n - 1) as nat);
    }
}

/// Transfers leave a queue in the order in which they entered it: of two
/// transfers queued one after the other, the first is sent once everything
/// queued before it has been sent, and the second right after the first.
pub proof fn lemma_fifo<O>(record: CpeView<O>, first: TransferView<O>, second: TransferView<O>)
    ensures
        ({
            let queued = record.enqueued(first).enqueued(second);
            let ahead: nat = record.transfers.len();
            &&& forall|k: nat|
                k < ahead ==> (#[trigger] queued.dispatched_times(k)).next() == Some(
                    record.transfers[k as int],
                )
            &&& queued.dispatched_times(ahead).next() == Some(first)
            &&& queued.dispatched_times((ahead + 1) as nat).next() == Some(second)
            &&& queued.dispatched_times((ahead + 2) as nat).next() is None
        }),
{
    let queued = record.enqueued(first).enqueued(second);
    let ahead: nat = record.transfers.len();
    assert forall|k: nat| k <= ahead + 2 implies (#[trigger] queued.dispatched_times(k)).transfers
        == queued.transfers.skip(k as int) by {
        lemma_dispatched_times(queued, k);
    }
    assert(queued.dispatched_times((ahead + 1) as nat).transfers == queued.transfers.skip(
        (ahead + 1) as int,
    ));
    assert(queued.dispatched_times((ahead + 2) as nat).transfers == queued.transfers.skip(
        (ahead + 2) as int,
    ));
}

/// An Inform that reports an address other than the stored one queues
/// exactly one transfer, the corrective one, behind what was queued. An
/// Inform that reports the stored address queues nothing: so a second Inform
/// with the same address queues nothing further.
pub proof fn lemma_corrective_once<O>(
    record: CpeView<O>,
    first: DeviceIdView,
    second: DeviceIdView,
    url: Seq<char>,
)
    ensures
        record.diverges(url) ==> record.informed(first, url).transfers == record.transfers.push(
            record.corrective(),
        ),
        !record.diverges(url) ==> record.informed(first, url).transfers == record.transfers,
        !record.informed(first, url).diverges(url),
        record.informed(first, url).informed(second, url).transfers == record.informed(
            first,
            url,
        ).transfers,
{
}

/// Resolving a device is idempotent: it leaves the device with a record,
/// leaves a device that had one as it was, and done a second time changes
/// nothing, so that no device ever has two records or two queues.
pub proof fn lemma_resolve_idempotent<O>(acs: AcsView<O>, serial: Seq<char>)
    ensures
        acs.resolved(serial).knows(serial),
        acs.knows(serial) ==> acs.resolved(serial) == acs,
        !acs.knows(serial) ==> acs.resolved(serial).devices[serial] == CpeView::<O>::fresh(),
        acs.resolved(serial).resolved(serial) == acs.resolved(serial),
{
}

/// Two Informs of one device that report the same address queue at most one
/// transfer between them: the first queues the corrective transfer if the
/// address is news, the second queues nothing.
pub proof fn lemma_inform_enqueues_once<O>(
    acs: AcsView<O>,
    serial: Seq<char>,
    first: DeviceIdView,
    second: DeviceIdView,
    url: Seq<char>,
)
    ensures
        ({
            let before = acs.resolved(serial).devices[serial];
            let once = acs.informed(serial, first, url);
            let twice = once.informed(serial, second, url);
            &&& once.knows(serial) && twice.knows(serial)
            &&& before.diverges(url) ==> once.devices[serial].transfers == before.transfers.push(
                before.corrective(),
            )
            &&& !before.diverges(url) ==> once.devices[serial].transfers == before.transfers
            &&& twice.devices[serial].transfers == once.devices[serial].transfers
        }),
{
    lemma_corrective_once(acs.resolved(serial).devices[serial], first, second, url);
}

/// What happens to one device leaves every other device as it was.
pub proof fn lemma_devices_independent<O>(
    acs: AcsView<O>,
    serial: Seq<char>,
    other: Seq<char>,
    device_id: DeviceIdView,
    url: Seq<char>,
    transfer: TransferView<O>,
)
    requires
        serial != other,
    ensures
        ({
            let resolved = acs.resolved(other);
            let informed = acs.informed(other, device_id, url);
            let enqueued = acs.enqueued(other, transfer);
            let dispatched = acs.dispatched(other);
            &&& resolved.knows(serial) == acs.knows(serial)
            &&& informed.knows(serial) == acs.knows(serial)
            &&& enqueued.knows(serial) == acs.knows(serial)
            &&& dispatched.knows(serial) == acs.knows(serial)
            &&& acs.knows(serial) ==> {
                &&& resolved.devices[serial] == acs.devices[serial]
                &&& informed.devices[serial] == acs.devices[serial]
                &&& enqueued.devices[serial] == acs.devices[serial]
                &&& dispatched.devices[serial] == acs.devices[serial]
            }
        }),
{
}

} // verus!
