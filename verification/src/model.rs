use vstd::prelude::*;
use vstd::string::StringExecFns;
use crate::cell::ObservableCell;

verus! {

/// The service address derived from a host and a port:
/// `"http://" + host + ":" + port`.
pub open spec fn address_spec(host: Seq<char>, port: Seq<char>) -> Seq<char> {
    "http://"@ + host + ":"@ + port
}

/// The URL probed by a health check against a given address:
/// `address + "/healthz"`.
pub open spec fn check_url_spec(address: Seq<char>) -> Seq<char> {
    address + "/healthz"@
}

/// The outcome of one completed health check: either an HTTP status code or
/// a transport-level failure (name resolution, connection refused, timeout,
/// aborted request).
#[derive(Clone, Copy, Debug, PartialEq, Eq, Structural)]
pub enum CheckOutcome {
    Status(u16),
    TransportFailure,
}

/// Whether a completed check outcome counts as healthy: a response with
/// status code exactly 200 does; any other status code and any transport
/// failure does not.
pub open spec fn outcome_healthy(outcome: CheckOutcome) -> bool {
    outcome == CheckOutcome::Status(200u16)
}

/// A health check handed out by the model for the surrounding glue to
/// perform: an HTTP GET of `url`, whose outcome is to be reported back
/// through `complete_check` under this `id`.
#[derive(Debug)]
pub struct CheckRequest {
    /// Identifies this check when its outcome is reported back.
    pub id: u64,
    /// The service address this check targets.
    pub addr: String,
    /// The URL to probe: `addr + "/healthz"`.
    pub url: String,
}

/// One launched, not yet completed health check, tagged with the address it
/// targets.
struct InFlightCheck {
    id: u64,
    addr: String,
}

/// Format the service address for a host and a port. The address is a pure
/// function of its two arguments; it carries no hidden state.
pub fn format_addr(host: &str, port: &str) -> (r: String)
    ensures
        r@ == address_spec(host@, port@),
{
    let mut s = String::from_str("http://");
    s.append(host);
    s.append(":");
    s.append(port);
    proof {
        assert(s@ =~= address_spec(host@, port@));
    }
    s
}

/// For every host and port, the derived address is exactly
/// `"http://" + host + ":" + port`: a pure function of the two strings, with
/// no hidden state.
pub proof fn lemma_address_formula(host: Seq<char>, port: Seq<char>)
    ensures
        address_spec(host, port) == "http://"@ + host + ":"@ + port,
{
}

/// True when the sequence of in-flight checks holds one with this id.
pub open spec fn has_flight(flights: Seq<(u64, Seq<char>)>, id: u64) -> bool {
    exists|i: int| 0 <= i < flights.len() && (#[trigger] flights[i]).0 == id
}

/// The index of the in-flight check with this id (unique when ids are
/// distinct).
pub open spec fn flight_index(flights: Seq<(u64, Seq<char>)>, id: u64) -> int {
    choose|i: int| 0 <= i < flights.len() && (#[trigger] flights[i]).0 == id
}

/// The reactive address/health model.
///
/// `host` and `port` are observable cells; the service address is derived
/// from them and recomputed on every read, so it is always consistent with
/// the current host and port. A reactive effect watches the derived address:
/// whenever a committed write changes it (change detection is equality-based
/// on the address value), the effect fires and launches one health check for
/// the new address. The model does not perform HTTP itself: a fired effect
/// hands back a `CheckRequest`, and the glue that performed the request
/// reports the outcome through `complete_check`, which settles `healthy`.
///
/// Checks are asynchronous: several may be in flight at once, and the one
/// that completes last wins, even if the address it targeted has changed in
/// the meantime. That completion-order race is accepted, not mitigated;
/// each in-flight check is tagged with its target address so callers can
/// observe which address an outcome belongs to.
pub struct AddressHealthModel {
    host: ObservableCell<String>,
    port: ObservableCell<String>,
    healthy: ObservableCell<bool>,
    /// The derived address read by the effect's most recent run.
    effect_addr: String,
    in_flight: Vec<InFlightCheck>,
    next_id: u64,
}

impl AddressHealthModel {
    /// The current host, for contracts.
    pub closed spec fn host_view(&self) -> Seq<char> {
        self.host.value_spec()@
    }

    /// The current port, for contracts.
    pub closed spec fn port_view(&self) -> Seq<char> {
        self.port.value_spec()@
    }

    /// The derived service address: always a pure function of the current
    /// host and port, with no intermediate inconsistent state.
    pub open spec fn address_view(&self) -> Seq<char> {
        address_spec(self.host_view(), self.port_view())
    }

    /// The current health flag, for contracts.
    pub closed spec fn healthy_view(&self) -> bool {
        self.healthy.value_spec()
    }

    /// The address the effect saw on its most recent run, for contracts.
    pub closed spec fn effect_address_view(&self) -> Seq<char> {
        self.effect_addr@
    }

    /// The launched, not yet completed checks, each as (id, target address),
    /// oldest first.
    pub closed spec fn in_flight_view(&self) -> Seq<(u64, Seq<char>)> {
        self.in_flight@.map_values(|c: InFlightCheck| (c.id, c.addr@))
    }

    /// How many checks have been launched since construction.
    pub closed spec fn launched_view(&self) -> u64 {
        self.next_id
    }

    /// The effect is in sync: its most recent run saw the current derived
    /// address, so nothing is left for `update_address` to commit.
    pub open spec fn in_sync(&self) -> bool {
        self.effect_address_view() == self.address_view()
    }

    /// Bookkeeping of check ids: every in-flight id was issued before
    /// `launched_view()`, and no id is in flight twice.
    pub open spec fn ids_ok(&self) -> bool {
        &&& forall|i: int|
            0 <= i < self.in_flight_view().len() ==> (#[trigger] self.in_flight_view()[i]).0
                < self.launched_view()
        &&& forall|i: int, j: int|
            0 <= i < j < self.in_flight_view().len() ==> self.in_flight_view()[i].0
                != self.in_flight_view()[j].0
    }

    /// A well-formed model: id bookkeeping holds and the effect is in sync.
    /// Construction establishes this and every operation preserves it.
    pub open spec fn wf(&self) -> bool {
        self.ids_ok() && self.in_sync()
    }

    /// Construct the model with initial host and port. The health flag
    /// starts at `false`; the registered effect executes once immediately,
    /// so exactly one health check — the returned request, with id 0 — is
    /// launched before any explicit `update_address` call.
    pub fn new(host: String, port: String) -> (r: (AddressHealthModel, CheckRequest))
        ensures
            r.0.wf(),
            r.0.host_view() == host@,
            r.0.port_view() == port@,
            r.0.healthy_view() == false,
            r.0.launched_view() == 1,
            r.0.in_flight_view() == seq![(0u64, r.0.address_view())],
            r.1.id == 0,
            r.1.addr@ == r.0.address_view(),
            r.1.url@ == check_url_spec(r.0.address_view()),
    {
        let addr = format_addr(host.as_str(), port.as_str());
        let mut url = addr.clone();
        url.append("/healthz");
        let mut in_flight: Vec<InFlightCheck> = Vec::new();
        in_flight.push(InFlightCheck { id: 0, addr: addr.clone() });
        let model = AddressHealthModel {
            host: ObservableCell::new(host),
            port: ObservableCell::new(port),
            healthy: ObservableCell::new(false),
            effect_addr: addr.clone(),
            in_flight,
            next_id: 1,
        };
        let request = CheckRequest { id: 0, addr, url };
        proof {
            assert(model.in_flight_view() =~= seq![(0u64, model.address_view())]);
        }
        (model, request)
    }

    /// One run of the reactive effect: read the current derived address and,
    /// if it differs from the address the effect saw on its most recent run
    /// (change detection is equality-based), launch a health check for it.
    /// The effect never fires twice for one and the same address value.
    fn fire_effect(&mut self) -> (r: Option<CheckRequest>)
        requires
            old(self).ids_ok(),
            old(self).launched_view() < u64::MAX,
        ensures
            final(self).host_view() == old(self).host_view(),
            final(self).port_view() == old(self).port_view(),
            final(self).healthy_view() == old(self).healthy_view(),
            final(self).ids_ok(),
            final(self).in_sync(),
            old(self).in_sync() ==> r is None
                && final(self).launched_view() == old(self).launched_view()
                && final(self).in_flight_view() == old(self).in_flight_view(),
            !old(self).in_sync() ==> (r matches Some(req)
                && req.id == old(self).launched_view()
                && req.addr@ == old(self).address_view()
                && req.url@ == check_url_spec(old(self).address_view())
                && final(self).launched_view() == old(self).launched_view() + 1
                && final(self).in_flight_view() == old(self).in_flight_view().push((req.id, req.addr@))),
    {
        let addr = format_addr(self.host.get().as_str(), self.port.get().as_str());
        if addr == self.effect_addr {
            None
        } else {
            let id: u64 = self.next_id;
            self.next_id = id + 1;
            let mut url = addr.clone();
            url.append("/healthz");
            self.effect_addr = addr.clone();
            self.in_flight.push(InFlightCheck { id, addr: addr.clone() });
            proof {
                assert(self.in_flight_view() =~= old(self).in_flight_view().push((id, addr@)));
            }
            Some(CheckRequest { id, addr, url })
        }
    }

    /// Commit a new host value. The write notifies the effect, which fires
    /// if and only if it changes the derived address; setting the host to
    /// its current value re-triggers nothing.
    pub fn set_host(&mut self, host: String) -> (r: Option<CheckRequest>)
        requires
            old(self).ids_ok(),
            old(self).launched_view() < u64::MAX,
        ensures
            final(self).host_view() == host@,
            final(self).port_view() == old(self).port_view(),
            final(self).healthy_view() == old(self).healthy_view(),
            final(self).ids_ok(),
            final(self).in_sync(),
            address_spec(host@, old(self).port_view()) == old(self).effect_address_view() ==> (
                r is None
                && final(self).launched_view() == old(self).launched_view()
                && final(self).in_flight_view() == old(self).in_flight_view()),
            address_spec(host@, old(self).port_view()) != old(self).effect_address_view() ==> (
                r matches Some(req)
                && req.id == old(self).launched_view()
                && req.addr@ == address_spec(host@, old(self).port_view())
                && req.url@ == check_url_spec(address_spec(host@, old(self).port_view()))
                && final(self).launched_view() == old(self).launched_view() + 1
                && final(self).in_flight_view() == old(self).in_flight_view().push((req.id, req.addr@))),
            host@ == old(self).host_view() && old(self).in_sync() ==> r is None,
    {
        self.host.set(host);
        proof {
            assert(self.in_flight_view() == old(self).in_flight_view());
            assert(self.ids_ok());
        }
        self.fire_effect()
    }

    /// Commit a new port value. The write notifies the effect, which fires
    /// if and only if it changes the derived address; setting the port to
    /// its current value re-triggers nothing.
    pub fn set_port(&mut self, port: String) -> (r: Option<CheckRequest>)
        requires
            old(self).ids_ok(),
            old(self).launched_view() < u64::MAX,
        ensures
            final(self).host_view() == old(self).host_view(),
            final(self).port_view() == port@,
            final(self).healthy_view() == old(self).healthy_view(),
            final(self).ids_ok(),
            final(self).in_sync(),
            address_spec(old(self).host_view(), port@) == old(self).effect_address_view() ==> (
                r is None
                && final(self).launched_view() == old(self).launched_view()
                && final(self).in_flight_view() == old(self).in_flight_view()),
            address_spec(old(self).host_view(), port@) != old(self).effect_address_view() ==> (
                r matches Some(req)
                && req.id == old(self).launched_view()
                && req.addr@ == address_spec(old(self).host_view(), port@)
                && req.url@ == check_url_spec(address_spec(old(self).host_view(), port@))
                && final(self).launched_view() == old(self).launched_view() + 1
                && final(self).in_flight_view() == old(self).in_flight_view().push((req.id, req.addr@))),
            port@ == old(self).port_view() && old(self).in_sync() ==> r is None,
    {
        self.port.set(port);
        proof {
            assert(self.in_flight_view() == old(self).in_flight_view());
            assert(self.ids_ok());
        }
        self.fire_effect()
    }

    /// Explicit trigger: re-read host and port and, if the derived address
    /// differs from the one the effect saw on its most recent run, re-fire
    /// the effect, launching a fresh health check. On a model whose effect
    /// is already in sync — as it is after every operation of this type —
    /// no duplicate check is launched and nothing changes.
    pub fn update_address(&mut self) -> (r: Option<CheckRequest>)
        requires
            old(self).ids_ok(),
            old(self).launched_view() < u64::MAX,
        ensures
            final(self).host_view() == old(self).host_view(),
            final(self).port_view() == old(self).port_view(),
            final(self).healthy_view() == old(self).healthy_view(),
            final(self).ids_ok(),
            final(self).in_sync(),
            old(self).in_sync() ==> r is None
                && final(self).launched_view() == old(self).launched_view()
                && final(self).in_flight_view() == old(self).in_flight_view(),
            !old(self).in_sync() ==> (r matches Some(req)
                && req.id == old(self).launched_view()
                && req.addr@ == old(self).address_view()
                && req.url@ == check_url_spec(old(self).address_view())
                && final(self).launched_view() == old(self).launched_view() + 1
                && final(self).in_flight_view() == old(self).in_flight_view().push((req.id, req.addr@))),
    {
        self.fire_effect()
    }

    /// The index of the in-flight check with this id, if any.
    fn find_flight(&self, id: u64) -> (r: Option<usize>)
        ensures
            r matches Some(i) ==> (i < self.in_flight_view().len()
                && self.in_flight_view()[i as int].0 == id),
            r is None ==> !has_flight(self.in_flight_view(), id),
    {
        let n: usize = self.in_flight.len();
        let mut idx: usize = 0;
        while idx < n
            invariant
                idx <= n,
                n == self.in_flight@.len(),
                forall|k: int| 0 <= k < idx ==> (#[trigger] self.in_flight@[k]).id != id,
            decreases n - idx,
        {
            if self.in_flight[idx].id == id {
                proof {
                    assert(self.in_flight_view()[idx as int].0 == id);
                }
                return Some(idx);
            }
            idx += 1;
        }
        proof {
            assert forall|k: int|
                0 <= k < self.in_flight_view().len() implies (#[trigger] self.in_flight_view()[k]).0
                != id by {
                assert(self.in_flight_view()[k].0 == self.in_flight@[k].id);
            }
        }
        None
    }

    /// Report the outcome of a launched check back to the model. The
    /// in-flight check with this id, if there is one, is retired and the
    /// health flag is settled from the outcome: `true` for status 200,
    /// `false` for any other status and for a transport failure. An id that
    /// is not in flight changes nothing and yields `false`.
    ///
    /// Completion order is whatever the network gives: when several checks
    /// are in flight, the one completed last determines the health flag,
    /// even if the address it targeted is stale by then.
    pub fn complete_check(&mut self, id: u64, outcome: CheckOutcome) -> (r: bool)
        requires
            old(self).ids_ok(),
        ensures
            final(self).host_view() == old(self).host_view(),
            final(self).port_view() == old(self).port_view(),
            final(self).effect_address_view() == old(self).effect_address_view(),
            final(self).launched_view() == old(self).launched_view(),
            final(self).ids_ok(),
            r == has_flight(old(self).in_flight_view(), id),
            has_flight(old(self).in_flight_view(), id) ==> (
                final(self).healthy_view() == outcome_healthy(outcome)
                && final(self).in_flight_view() == old(self).in_flight_view().remove(
                    flight_index(old(self).in_flight_view(), id))),
            !has_flight(old(self).in_flight_view(), id) ==> (
                final(self).healthy_view() == old(self).healthy_view()
                && final(self).in_flight_view() == old(self).in_flight_view()),
    {
        match self.find_flight(id) {
            Some(idx) => {
                let ghost old_view = self.in_flight_view();
                self.in_flight.remove(idx);
                let good = match outcome {
                    CheckOutcome::Status(code) => code == 200,
                    CheckOutcome::TransportFailure => false,
                };
                self.healthy.set(good);
                proof {
                    let chosen = flight_index(old_view, id);
                    assert(0 <= chosen < old_view.len() && old_view[chosen].0 == id);
                    assert(chosen == idx as int);
                    assert forall|k: int|
                        0 <= k < self.in_flight_view().len() implies #[trigger] self.in_flight_view()[k]
                        == old_view.remove(idx as int)[k] by {
                        if k < idx as int {
                            assert(self.in_flight@[k] == old(self).in_flight@[k]);
                        } else {
                            assert(self.in_flight@[k] == old(self).in_flight@[k + 1]);
                        }
                    }
                    assert(self.in_flight_view() =~= old_view.remove(idx as int));
                    assert(self.ids_ok());
                }
                true
            },
            None => {
                false
            },
        }
    }

    /// The current host.
    pub fn host_value(&self) -> (r: &String)
        ensures
            r@ == self.host_view(),
    {
        self.host.get()
    }

    /// The current port.
    pub fn port_value(&self) -> (r: &String)
        ensures
            r@ == self.port_view(),
    {
        self.port.get()
    }

    /// The derived service address, recomputed from the current host and
    /// port on every read: readers never see a stale or inconsistent value.
    pub fn address_value(&self) -> (r: String)
        ensures
            r@ == self.address_view(),
    {
        format_addr(self.host.get().as_str(), self.port.get().as_str())
    }

    /// The current health flag: the outcome of the most recently completed
    /// check, `false` until the first check completes.
    pub fn healthy_value(&self) -> (r: bool)
        ensures
            r == self.healthy_view(),
    {
        *self.healthy.get()
    }

    /// How many checks are currently in flight.
    pub fn in_flight_count(&self) -> (r: usize)
        ensures
            r == self.in_flight_view().len(),
    {
        self.in_flight.len()
    }

    /// How many checks have been launched since construction.
    pub fn checks_launched(&self) -> (r: u64)
        ensures
            r == self.launched_view(),
    {
        self.next_id
    }
}

} // verus!
