use vm_onoff::model::{
    Instance, InstanceViewStatus, List, State, VirtualMachine, VirtualMachineInstanceView,
    VirtualMachineProperties,
};
use vm_onoff::provider::{
    action_outcome, check_status, get_outcome, Error, ListSession, Method, Provider, ServerError,
};

fn vm(name: &str, group: &str, codes: &[&str]) -> VirtualMachine {
    VirtualMachine {
        name: name.into(),
        id: format!(
            "/subscriptions/sub/resourceGroups/{}/providers/Microsoft.Compute/virtualMachines/{}",
            group, name
        ),
        properties: VirtualMachineProperties {
            instance_view: VirtualMachineInstanceView {
                statuses: codes
                    .iter()
                    .map(|code| InstanceViewStatus {
                        code: (*code).into(),
                    })
                    .collect(),
            },
        },
    }
}

fn ids_of(instances: &[Instance]) -> Vec<String> {
    instances.iter().map(|inst| inst.id.clone()).collect()
}

#[test]
fn check_status_accepts_exactly_2xx() {
    assert!(check_status(200).is_ok());
    assert!(check_status(299).is_ok());
    assert_eq!(check_status(199), Err(ServerError { status_code: 199 }));
    assert_eq!(check_status(300), Err(ServerError { status_code: 300 }));
    assert_eq!(check_status(404), Err(ServerError { status_code: 404 }));
}

#[test]
fn start_targets_the_start_sub_path() {
    let provider = Provider {
        subscription_id: "sub".into(),
    };
    let req = provider.start_request("myrg/vm0", "tok").unwrap();
    assert_eq!(req.method, Method::Post);
    assert_eq!(
        req.url,
        "https://management.azure.com/subscriptions/sub/resourceGroups/myrg/providers/Microsoft.Compute/virtualMachines/vm0/start?api-version=2021-07-01"
    );
    assert_eq!(req.bearer_token, "tok");
    assert_eq!(req.content_length, Some(0));
}

#[test]
fn stop_targets_the_deallocate_sub_path() {
    let provider = Provider {
        subscription_id: "sub".into(),
    };
    let req = provider.stop_request("myrg/vm0", "tok").unwrap();
    assert_eq!(req.method, Method::Post);
    assert_eq!(
        req.url,
        "https://management.azure.com/subscriptions/sub/resourceGroups/myrg/providers/Microsoft.Compute/virtualMachines/vm0/deallocate?api-version=2021-07-01"
    );
    assert_eq!(req.content_length, Some(0));
}

#[test]
fn start_and_stop_reject_malformed_ids() {
    let provider = Provider {
        subscription_id: "sub".into(),
    };
    assert_eq!(provider.start_request("novm", "tok"), Err(Error::IdParse));
    assert_eq!(provider.stop_request("a/b/c", "tok"), Err(Error::IdParse));
}

#[test]
fn action_outcome_reports_no_state() {
    assert_eq!(action_outcome(202), Ok(()));
    assert_eq!(
        action_outcome(409),
        Err(Error::Server(ServerError { status_code: 409 }))
    );
}

#[test]
fn get_request_expands_the_instance_view() {
    let provider = Provider {
        subscription_id: "sub".into(),
    };
    let req = provider.get_request("myrg/vm0", "tok").unwrap();
    assert_eq!(req.method, Method::Get);
    assert_eq!(
        req.url,
        "https://management.azure.com/subscriptions/sub/resourceGroups/myrg/providers/Microsoft.Compute/virtualMachines/vm0?api-version=2021-07-01&$expand=instanceView"
    );
    assert_eq!(req.content_length, None);
}

#[test]
fn list_request_uses_the_subscription_wide_url() {
    let provider = Provider {
        subscription_id: "sub".into(),
    };
    let req = provider.list_request("tok");
    assert_eq!(req.method, Method::Get);
    assert_eq!(
        req.url,
        "https://management.azure.com/subscriptions/sub/providers/Microsoft.Compute/virtualMachines?api-version=2021-07-01&statusOnly=true"
    );
}

#[test]
fn page_request_follows_the_link_unchanged() {
    let provider = Provider {
        subscription_id: "sub".into(),
    };
    let req = provider.page_request("https://example.invalid/page2", "tok");
    assert_eq!(req.method, Method::Get);
    assert_eq!(req.url, "https://example.invalid/page2");
}

#[test]
fn get_on_404_is_absence_not_an_error() {
    assert_eq!(get_outcome(404, None), Ok(None));
}

#[test]
fn get_on_500_is_an_error_carrying_the_code() {
    assert_eq!(
        get_outcome(500, None),
        Err(Error::Server(ServerError { status_code: 500 }))
    );
}

#[test]
fn get_on_success_normalizes_the_machine() {
    let instance = get_outcome(200, Some(vm("vm0", "myrg", &["PowerState/running"])))
        .unwrap()
        .unwrap();
    assert_eq!(instance.id, "myrg/vm0");
    assert_eq!(instance.display_name, "vm0");
    assert_eq!(instance.state, State::On);
}

#[test]
fn get_without_a_decoded_body_is_a_decode_error() {
    assert_eq!(get_outcome(200, None), Err(Error::Decode));
}

#[test]
fn get_with_a_malformed_path_is_an_id_error() {
    let mut machine = vm("vm0", "myrg", &[]);
    machine.id = "not/a/composite/path".into();
    assert_eq!(get_outcome(200, Some(machine)), Err(Error::IdParse));
}

#[test]
fn listing_concatenates_pages_in_order() {
    let page1 = List {
        value: vec![
            vm("a", "g", &["PowerState/running"]),
            vm("b", "g", &["PowerState/stopped"]),
        ],
        next_link: Some("u2".into()),
    };
    let page2 = List {
        value: vec![vm("c", "g", &["PowerState/starting"])],
        next_link: None,
    };

    let mut session = ListSession::new();
    assert_eq!(session.push_page(page1).unwrap(), Some("u2".into()));
    assert_eq!(session.push_page(page2).unwrap(), None);

    let instances = session.into_instances();
    assert_eq!(ids_of(&instances), vec!["g/a", "g/b", "g/c"]);
    assert_eq!(instances[0].state, State::On);
    assert_eq!(instances[1].state, State::Off);
    assert_eq!(instances[2].state, State::InProgress);
}

#[test]
fn listing_fails_on_a_malformed_machine_path() {
    let mut bad = vm("b", "g", &[]);
    bad.id = "mangled".into();
    let page = List {
        value: vec![vm("a", "g", &[]), bad],
        next_link: None,
    };
    let mut session = ListSession::new();
    assert_eq!(session.push_page(page), Err(Error::IdParse));
}

#[test]
fn normalized_instance_uses_the_opaque_id() {
    let instance =
        vm_onoff::provider::model_to_instance(&vm("vm1", "rg1", &["PowerState/deallocated"]))
            .unwrap();
    assert_eq!(instance.id, "rg1/vm1");
    assert_eq!(instance.display_name, "vm1");
    assert_eq!(instance.state, State::Off);
}
