//! Remote resource shapes and the normalized instance.
//!
//! The listing and detail endpoints report machines in the cloud's own
//! shape; the library normalizes each into an [`Instance`] with an opaque
//! identifier and a [`State`] derived from the reported status codes.

use vstd::prelude::*;

verus! {

/// A normalized power state, chosen conservatively under ambiguity.
#[derive(Debug, Clone, Copy, PartialEq, Eq, Structural)]
pub enum State {
    On,
    Off,
    InProgress,
    Other,
}

/// A normalized, controllable virtual machine.
#[derive(Debug, Clone, PartialEq, Eq)]
pub struct Instance {
    /// The opaque `"group/name"` identifier.
    pub id: String,
    /// The resource's display name.
    pub display_name: String,
    /// The normalized power state.
    pub state: State,
}

/// Mathematical model of an [`Instance`].
#[verifier::ext_equal]
pub struct InstanceView {
    pub id: Seq<char>,
    pub display_name: Seq<char>,
    pub state: State,
}

impl View for Instance {
    type V = InstanceView;

    open spec fn view(&self) -> InstanceView {
        InstanceView { id: self.id@, display_name: self.display_name@, state: self.state }
    }
}

impl DeepView for Instance {
    type V = InstanceView;

    open spec fn deep_view(&self) -> InstanceView {
        self.view()
    }
}

/// One status flag reported for a resource; its model is the code itself.
#[derive(Debug, Clone)]
pub struct InstanceViewStatus {
    /// The status code.
    pub code: String,
}

impl View for InstanceViewStatus {
    type V = Seq<char>;

    open spec fn view(&self) -> Seq<char> {
        self.code@
    }
}

impl DeepView for InstanceViewStatus {
    type V = Seq<char>;

    open spec fn deep_view(&self) -> Seq<char> {
        self.code@
    }
}

/// The cloud's structure reporting the current status codes of a resource.
#[derive(Debug, Clone)]
pub struct VirtualMachineInstanceView {
    /// The resource status information.
    pub statuses: Vec<InstanceViewStatus>,
}

/// Properties of a remote machine record.
#[derive(Debug, Clone)]
pub struct VirtualMachineProperties {
    /// The virtual machine instance view.
    pub instance_view: VirtualMachineInstanceView,
}

/// A remote machine record, as the control plane reports it.
#[derive(Debug, Clone)]
pub struct VirtualMachine {
    /// Resource name.
    pub name: String,
    /// The composite resource path.
    pub id: String,
    /// Properties.
    pub properties: VirtualMachineProperties,
}

/// Mathematical model of a [`VirtualMachine`]: its name, its composite
/// path, and the reported status codes.
#[verifier::ext_equal]
pub struct VirtualMachineView {
    pub name: Seq<char>,
    pub id: Seq<char>,
    pub statuses: Seq<Seq<char>>,
}

impl View for VirtualMachine {
    type V = VirtualMachineView;

    open spec fn view(&self) -> VirtualMachineView {
        VirtualMachineView {
            name: self.name@,
            id: self.id@,
            statuses: self.properties.instance_view.statuses.deep_view(),
        }
    }
}

impl DeepView for VirtualMachine {
    type V = VirtualMachineView;

    open spec fn deep_view(&self) -> VirtualMachineView {
        self.view()
    }
}

/// One page of a listing: its items and the continuation link, if any.
#[derive(Debug, Clone)]
pub struct List<T> {
    pub value: Vec<T>,
    pub next_link: Option<String>,
}

/// Whether any reported status carries exactly this code.
pub open spec fn spec_has_code(statuses: Seq<Seq<char>>, code: Seq<char>) -> bool {
    exists|i: int| 0 <= i < statuses.len() && statuses[i] == code
}

/// The normalized state derived from the reported status codes: `Off` if
/// any status reports stopped or deallocated, `On` if any reports running,
/// `InProgress` if any reports stopping, deallocating or starting. Exactly
/// one of the three conditions yields its state; none or several yield
/// `Other`.
pub open spec fn spec_detect_state(statuses: Seq<Seq<char>>) -> State {
    let is_off = spec_has_code(statuses, "PowerState/stopped"@) || spec_has_code(
        statuses,
        "PowerState/deallocated"@,
    );
    let is_on = spec_has_code(statuses, "PowerState/running"@);
    let is_in_progress = spec_has_code(statuses, "PowerState/stopping"@) || spec_has_code(
        statuses,
        "PowerState/deallocating"@,
    ) || spec_has_code(statuses, "PowerState/starting"@);
    if is_on && !is_off && !is_in_progress {
        State::On
    } else if !is_on && is_off && !is_in_progress {
        State::Off
    } else if !is_on && !is_off && is_in_progress {
        State::InProgress
    } else {
        State::Other
    }
}

/// Whether any reported status carries exactly this code.
fn has_code(statuses: &Vec<InstanceViewStatus>, code: &str) -> (r: bool)
    ensures
        r == spec_has_code(statuses.deep_view(), code@),
{
    let needle = String::from_str(code);
    let mut i: usize = 0;
    while i < statuses.len()
        invariant
            i <= statuses.len(),
            needle@ == code@,
            forall|k: int| 0 <= k < i ==> statuses.deep_view()[k] != code@,
        decreases statuses.len() - i,
    {
        if statuses[i].code == needle {
            proof {
                assert(statuses.deep_view()[i as int] == code@);
            }
            return true;
        }
        i = i + 1;
    }
    false
}

/// Derives the normalized state from the reported status codes.
pub fn detect_state(statuses: &Vec<InstanceViewStatus>) -> (r: State)
    ensures
        r == spec_detect_state(statuses.deep_view()),
{
    let is_stopped = has_code(statuses, "PowerState/stopped");
    let is_deallocated = has_code(statuses, "PowerState/deallocated");
    let is_off = is_stopped || is_deallocated;

    let is_running = has_code(statuses, "PowerState/running");
    let is_on = is_running;

    let is_stopping = has_code(statuses, "PowerState/stopping");
    let is_deallocing = has_code(statuses, "PowerState/deallocating");
    let is_starting = has_code(statuses, "PowerState/starting");
    let is_in_progress = is_stopping || is_deallocing || is_starting;

    if is_on && !is_off && !is_in_progress {
        State::On
    } else if !is_on && is_off && !is_in_progress {
        State::Off
    } else if !is_on && !is_off && is_in_progress {
        State::InProgress
    } else {
        State::Other
    }
}

} // verus!
