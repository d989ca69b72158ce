//! Request planning and response interpretation for the compute
//! control-plane client.
//!
//! The provider's operations are split into a verified planning half and an
//! unverified transport half. This module is the planning half: it builds
//! every request the client issues (URL, method, bearer token, body length)
//! and interprets each decoded response. The transport half executes a
//! [`Request`] over HTTPS, decodes the JSON body, and hands the plain values
//! back in.

use crate::ids::{spec_decode, spec_decode_model, spec_encode, Id};
use crate::model::{spec_detect_state, Instance, InstanceView, List, VirtualMachine, VirtualMachineView};
use vstd::prelude::*;

verus! {

/// A response arrived with a status code outside the 2xx range.
#[derive(Debug, Clone, Copy, PartialEq, Eq, Structural)]
pub struct ServerError {
    pub status_code: u16,
}

/// Everything that can go wrong in a provider operation.
#[derive(Debug, Clone, Copy, PartialEq, Eq, Structural)]
pub enum Error {
    /// The connection failed before any response arrived.
    Transport,
    /// A response arrived with a status code outside the 2xx range.
    Server(ServerError),
    /// A response body was not valid JSON for the expected shape.
    Decode,
    /// An identifier did not match the expected shape.
    IdParse,
    /// Renewing the auth token failed.
    Auth,
}

/// Accepts a response status: any 2xx code is success, anything else is a
/// [`ServerError`] carrying the numeric code.
pub fn check_status(status_code: u16) -> (r: Result<(), ServerError>)
    ensures
        r is Ok <==> 200 <= status_code < 300,
        r matches Err(e) ==> e.status_code == status_code,
{
    if 200 <= status_code && status_code < 300 {
        Ok(())
    } else {
        Err(ServerError { status_code })
    }
}

/// The HTTP method of a planned request.
#[derive(Debug, Clone, Copy, PartialEq, Eq, Structural)]
pub enum Method {
    Get,
    Post,
}

/// A fully planned control-plane request: the transport half executes it
/// without further decisions.
#[derive(Debug, Clone, PartialEq, Eq)]
pub struct Request {
    pub method: Method,
    pub url: String,
    /// The bearer token carried in the authorization header.
    pub bearer_token: String,
    /// An explicit content length; every POST declares zero.
    pub content_length: Option<u64>,
}

/// The URL of one machine's resource, with an action sub-path and extra
/// query parameters.
pub open spec fn spec_vm_url(
    subscription_id: Seq<char>,
    group: Seq<char>,
    name: Seq<char>,
    action: Seq<char>,
    query_extras: Seq<char>,
) -> Seq<char> {
    "https://management.azure.com/subscriptions/"@ + subscription_id + "/resourceGroups/"@ + group
        + "/providers/Microsoft.Compute/virtualMachines/"@ + name + action
        + "?api-version=2021-07-01"@ + query_extras
}

/// The URL listing every machine of a subscription, first page.
pub open spec fn spec_list_url(subscription_id: Seq<char>) -> Seq<char> {
    "https://management.azure.com/subscriptions/"@ + subscription_id
        + "/providers/Microsoft.Compute/virtualMachines?api-version=2021-07-01&statusOnly=true"@
}

/// The planning core of one provider instance: everything it decides is a
/// function of the subscription and the operation's inputs.
pub struct Provider {
    pub subscription_id: String,
}

impl Provider {
    /// The URL of one machine's resource.
    pub fn build_vm_url(&self, id: &Id, action: &str, query_extras: &str) -> (r: String)
        ensures
            r@ == spec_vm_url(
                self.subscription_id@,
                id.resource_group_name@,
                id.vm_name@,
                action@,
                query_extras@,
            ),
    {
        let s = String::from_str("https://management.azure.com/subscriptions/");
        let s = s.concat(self.subscription_id.as_str());
        let s = s.concat("/resourceGroups/");
        let s = s.concat(id.resource_group_name.as_str());
        let s = s.concat("/providers/Microsoft.Compute/virtualMachines/");
        let s = s.concat(id.vm_name.as_str());
        let s = s.concat(action);
        let s = s.concat("?api-version=2021-07-01");
        let s = s.concat(query_extras);
        s
    }

    /// The URL of the subscription-wide listing.
    pub fn build_all_vms_list_url(&self, subscription_id: &str) -> (r: String)
        ensures
            r@ == spec_list_url(subscription_id@),
    {
        let s = String::from_str("https://management.azure.com/subscriptions/");
        let s = s.concat(subscription_id);
        let s = s.concat(
            "/providers/Microsoft.Compute/virtualMachines?api-version=2021-07-01&statusOnly=true",
        );
        s
    }

    /// Plans one request: it carries the bearer token, and a POST declares
    /// an explicit zero content length.
    pub fn build_request(&self, auth_token: &str, method: Method, url: &str) -> (r: Request)
        ensures
            r.method == method,
            r.url@ == url@,
            r.bearer_token@ == auth_token@,
            r.content_length == if method is Post {
                Some(0u64)
            } else {
                None::<u64>
            },
    {
        let content_length = if method == Method::Post {
            Some(0u64)
        } else {
            None
        };
        Request {
            method,
            url: String::from_str(url),
            bearer_token: String::from_str(auth_token),
            content_length,
        }
    }

    /// Plans the request that starts a machine: a POST to the resource's
    /// `/start` sub-path. Nothing of the machine's state is reported back; a
    /// later detail fetch observes it.
    pub fn start_request(&self, id: &str, auth_token: &str) -> (r: Result<Request, Error>)
        ensures
            r is Ok <==> spec_decode(id@) is Some,
            r matches Ok(req) ==> {
                &&& req.method == Method::Post
                &&& req.url@ == spec_vm_url(
                    self.subscription_id@,
                    spec_decode(id@).unwrap().0,
                    spec_decode(id@).unwrap().1,
                    "/start"@,
                    ""@,
                )
                &&& req.bearer_token@ == auth_token@
                &&& req.content_length == Some(0u64)
            },
            r matches Err(e) ==> e == Error::IdParse,
    {
        let parsed = match Id::from_opaque(id) {
            Ok(parsed) => parsed,
            Err(_) => {
                return Err(Error::IdParse);
            },
        };
        let url = self.build_vm_url(&parsed, "/start", "");
        Ok(self.build_request(auth_token, Method::Post, url.as_str()))
    }

    /// Plans the request that stops a machine: a POST to the resource's
    /// `/deallocate` sub-path, releasing its compute rather than merely
    /// powering it off. Nothing of the machine's state is reported back; a
    /// later detail fetch observes it.
    pub fn stop_request(&self, id: &str, auth_token: &str) -> (r: Result<Request, Error>)
        ensures
            r is Ok <==> spec_decode(id@) is Some,
            r matches Ok(req) ==> {
                &&& req.method == Method::Post
                &&& req.url@ == spec_vm_url(
                    self.subscription_id@,
                    spec_decode(id@).unwrap().0,
                    spec_decode(id@).unwrap().1,
                    "/deallocate"@,
                    ""@,
                )
                &&& req.bearer_token@ == auth_token@
                &&& req.content_length == Some(0u64)
            },
            r matches Err(e) ==> e == Error::IdParse,
    {
        let parsed = match Id::from_opaque(id) {
            Ok(parsed) => parsed,
            Err(_) => {
                return Err(Error::IdParse);
            },
        };
        let url = self.build_vm_url(&parsed, "/deallocate", "");
        Ok(self.build_request(auth_token, Method::Post, url.as_str()))
    }

    /// Plans the detail fetch for one machine: a GET with the instance-view
    /// expansion.
    pub fn get_request(&self, id: &str, auth_token: &str) -> (r: Result<Request, Error>)
        ensures
            r is Ok <==> spec_decode(id@) is Some,
            r matches Ok(req) ==> {
                &&& req.method == Method::Get
                &&& req.url@ == spec_vm_url(
                    self.subscription_id@,
                    spec_decode(id@).unwrap().0,
                    spec_decode(id@).unwrap().1,
                    ""@,
                    "&$expand=instanceView"@,
                )
                &&& req.bearer_token@ == auth_token@
                &&& req.content_length is None
            },
            r matches Err(e) ==> e == Error::IdParse,
    {
        let parsed = match Id::from_opaque(id) {
            Ok(parsed) => parsed,
            Err(_) => {
                return Err(Error::IdParse);
            },
        };
        let url = self.build_vm_url(&parsed, "", "&$expand=instanceView");
        Ok(self.build_request(auth_token, Method::Get, url.as_str()))
    }

    /// Plans the first page of the listing.
    pub fn list_request(&self, auth_token: &str) -> (r: Request)
        ensures
            r.method == Method::Get,
            r.url@ == spec_list_url(self.subscription_id@),
            r.bearer_token@ == auth_token@,
            r.content_length is None,
    {
        let url = self.build_all_vms_list_url(self.subscription_id.as_str());
        self.build_request(auth_token, Method::Get, url.as_str())
    }

    /// Plans the fetch of a continuation page: a GET of the link exactly as
    /// the previous page reported it.
    pub fn page_request(&self, url: &str, auth_token: &str) -> (r: Request)
        ensures
            r.method == Method::Get,
            r.url@ == url@,
            r.bearer_token@ == auth_token@,
            r.content_length is None,
    {
        self.build_request(auth_token, Method::Get, url)
    }
}

/// The normalized instance of one remote machine record whose composite
/// path parses.
pub open spec fn spec_instance_of(vm: VirtualMachineView) -> InstanceView
    recommends
        spec_decode_model(vm.id) is Some,
{
    InstanceView {
        id: spec_encode(spec_decode_model(vm.id).unwrap().0, spec_decode_model(vm.id).unwrap().1),
        display_name: vm.name,
        state: spec_detect_state(vm.statuses),
    }
}

/// The normalized instances of a page of machine records, in page order.
pub open spec fn spec_instances_of(vms: Seq<VirtualMachineView>) -> Seq<InstanceView> {
    vms.map_values(|vm: VirtualMachineView| spec_instance_of(vm))
}

/// Every machine record of the page has a composite path that parses.
pub open spec fn spec_vms_ok(vms: Seq<VirtualMachineView>) -> bool {
    forall|i: int| 0 <= i < vms.len() ==> spec_decode_model((#[trigger] vms[i]).id) is Some
}

/// Normalizes one remote machine record: its composite path becomes the
/// opaque identifier and its status codes become the power state.
pub fn model_to_instance(vm: &VirtualMachine) -> (r: Result<Instance, Error>)
    ensures
        r is Ok <==> spec_decode_model(vm.id@) is Some,
        r matches Ok(inst) ==> inst@ == spec_instance_of(vm@),
        r matches Err(e) ==> e == Error::IdParse,
{
    let id = match Id::from_model(vm.id.as_str()) {
        Ok(id) => id,
        Err(_) => {
            return Err(Error::IdParse);
        },
    };
    let state = crate::model::detect_state(&vm.properties.instance_view.statuses);
    Ok(Instance { id: id.to_opaque(), display_name: vm.name.clone(), state })
}

/// Interprets the response to a detail fetch. Absence (a 404) is a normal
/// empty result, not an error; any other non-2xx response is an error
/// carrying the status code; a 2xx body that did not decode is a decode
/// error; otherwise the machine record is normalized.
pub fn get_outcome(status_code: u16, body: Option<VirtualMachine>) -> (r: Result<
    Option<Instance>,
    Error,
>)
    ensures
        status_code == 404 ==> r == Ok::<Option<Instance>, Error>(None),
        status_code != 404 && !(200 <= status_code < 300) ==> (r matches Err(e) && e matches
            Error::Server(s) && s.status_code == status_code),
        200 <= status_code < 300 ==> match body {
            Some(vm) => {
                if spec_decode_model(vm.id@) is Some {
                    r matches Ok(inst) && inst matches Some(i) && i@ == spec_instance_of(vm@)
                } else {
                    r == Err::<Option<Instance>, Error>(Error::IdParse)
                }
            },
            None => r == Err::<Option<Instance>, Error>(Error::Decode),
        },
{
    if status_code == 404 {
        return Ok(None);
    }
    match check_status(status_code) {
        Err(e) => Err(Error::Server(e)),
        Ok(()) => match body {
            None => Err(Error::Decode),
            Some(vm) => match model_to_instance(&vm) {
                Ok(inst) => Ok(Some(inst)),
                Err(e) => Err(e),
            },
        },
    }
}

/// Interprets the response to a start or stop action: any 2xx response is
/// success, anything else is an error carrying the status code. The action
/// reports no machine state back; a later detail fetch observes it.
pub fn action_outcome(status_code: u16) -> (r: Result<(), Error>)
    ensures
        r is Ok <==> 200 <= status_code < 300,
        r matches Err(e) ==> (e matches Error::Server(s) && s.status_code == status_code),
{
    match check_status(status_code) {
        Ok(()) => Ok(()),
        Err(e) => Err(Error::Server(e)),
    }
}

/// Accumulates the pages of a listing, in page order.
pub struct ListSession {
    instances: Vec<Instance>,
}

impl ListSession {
    /// The instances accumulated so far, abstractly.
    pub closed spec fn spec_instances(&self) -> Seq<InstanceView> {
        self.instances.deep_view()
    }

    /// An empty listing, before the first page.
    pub fn new() -> (r: ListSession)
        ensures
            r.spec_instances() == Seq::<InstanceView>::empty(),
    {
        let r = ListSession { instances: Vec::new() };
        proof {
            assert(r.spec_instances() =~= Seq::<InstanceView>::empty());
        }
        r
    }

    /// Folds one decoded page into the listing: appends each machine's
    /// normalized instance in page order and hands back the page's
    /// continuation link, so the caller fetches pages until none is left. A
    /// machine whose composite path does not parse fails the listing.
    pub fn push_page(&mut self, page: List<VirtualMachine>) -> (r: Result<Option<String>, Error>)
        ensures
            match r {
                Ok(next) => {
                    &&& spec_vms_ok(page.value.deep_view())
                    &&& final(self).spec_instances() == old(self).spec_instances()
                        + spec_instances_of(page.value.deep_view())
                    &&& next == page.next_link
                },
                Err(e) => {
                    &&& e == Error::IdParse
                    &&& !spec_vms_ok(page.value.deep_view())
                },
            },
    {
        let List { value, next_link } = page;
        let mut i: usize = 0;
        while i < value.len()
            invariant
                i <= value.len(),
                value == page.value,
                spec_vms_ok(value.deep_view().take(i as int)),
                self.spec_instances() == old(self).spec_instances() + spec_instances_of(
                    value.deep_view().take(i as int),
                ),
            decreases value.len() - i,
        {
            match model_to_instance(&value[i]) {
                Ok(inst) => {
                    let ghost prev = self.instances.deep_view();
                    let ghost prev_vms = value.deep_view().take(i as int);
                    self.instances.push(inst);
                    proof {
                        assert(value.deep_view()[i as int] == value[i as int]@);
                        assert(self.instances.deep_view() =~= prev.push(inst@));
                        assert(value.deep_view().take(i + 1) =~= prev_vms.push(
                            value.deep_view()[i as int],
                        ));
                        assert(spec_instances_of(value.deep_view().take(i + 1))
                            =~= spec_instances_of(prev_vms).push(spec_instance_of(
                            value.deep_view()[i as int],
                        )));
                        assert(spec_vms_ok(value.deep_view().take(i + 1)));
                    }
                },
                Err(e) => {
                    proof {
                        assert(value.deep_view()[i as int] == value[i as int]@);
                        assert(!spec_vms_ok(value.deep_view()));
                    }
                    return Err(e);
                },
            }
            i = i + 1;
        }
        proof {
            assert(value.deep_view().take(value.len() as int) =~= value.deep_view());
        }
        Ok(next_link)
    }

    /// Hands the accumulated listing out, the concatenation of the pages in
    /// the order they were folded in.
    pub fn into_instances(self) -> (r: Vec<Instance>)
        ensures
            r.deep_view() == self.spec_instances(),
    {
        self.instances
    }
}

} // verus!
