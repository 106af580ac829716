use qrmi::{
    Acquire, Device, ErrorKind, Payload, PyQuantumResource, ResourceType, Target, TaskStatus,
};

const KINDS: [ResourceType; 3] = [
    ResourceType::IBMDirectAccess,
    ResourceType::IBMQiskitRuntimeService,
    ResourceType::PasqalCloud,
];

fn payload(text: &str) -> Payload {
    Payload { data: text.as_bytes().to_vec() }
}

#[test]
fn every_method_callable_before_any_lease() {
    for kind in KINDS {
        let mut dev = Device::new("dev");
        let h = PyQuantumResource::new("dev", kind);
        assert_eq!(h.resource_type(), kind);
        assert!(h.is_accessible(&dev));
        assert_eq!(h.release(&mut dev, "t1").unwrap_err().kind(), ErrorKind::NotFound);
        assert_eq!(
            h.task_start(&mut dev, payload("p")).unwrap_err().kind(),
            ErrorKind::OwnershipViolation
        );
        assert_eq!(h.task_stop(&mut dev, "job-1").unwrap_err().kind(), ErrorKind::NotFound);
        assert_eq!(h.task_status(&dev, "job-1").unwrap_err().kind(), ErrorKind::NotFound);
        assert_eq!(h.task_result(&dev, "job-1").unwrap_err().kind(), ErrorKind::NotFound);
        assert!(h.target(&dev).unwrap().data.is_empty());
        assert_eq!(h.metadata().len(), 2);
        assert!(h.acquire(&mut dev).is_ok());
    }
}

#[test]
fn acquire_release_and_wrong_token_on_every_kind() {
    for kind in KINDS {
        let mut dev = Device::new("dev");
        let h = PyQuantumResource::new("dev", kind);
        assert_eq!(h.acquire(&mut dev).unwrap(), Acquire::Granted("t1".to_string()));
        let e = h.release(&mut dev, "t2").unwrap_err();
        assert_eq!(e.kind(), ErrorKind::OwnershipViolation);
        assert!(!e.to_string().is_empty());
        assert!(h.release(&mut dev, "t1").is_ok());
    }
}

#[test]
fn two_handles_on_one_resource_exclude_each_other() {
    let mut dev = Device::new("shared");
    let h1 = PyQuantumResource::new("shared", ResourceType::IBMDirectAccess);
    let h2 = PyQuantumResource::new("shared", ResourceType::IBMDirectAccess);
    assert_eq!(h1.acquire(&mut dev).unwrap(), Acquire::Granted("t1".to_string()));
    let h3 = PyQuantumResource::new("shared", ResourceType::IBMDirectAccess);
    assert_eq!(h2.acquire(&mut dev).unwrap(), Acquire::Wait);
    assert_eq!(h3.acquire(&mut dev).unwrap(), Acquire::Wait);
    assert_eq!(h2.release(&mut dev, "t2").unwrap_err().kind(), ErrorKind::OwnershipViolation);
    assert!(h1.release(&mut dev, "t1").is_ok());
    assert_eq!(h2.acquire(&mut dev).unwrap(), Acquire::Granted("t2".to_string()));
    assert_eq!(h1.acquire(&mut dev).unwrap(), Acquire::Wait);
}

#[test]
fn new_handle_sees_the_resource_state() {
    let mut dev = Device::new("shared");
    let h1 = PyQuantumResource::new("shared", ResourceType::PasqalCloud);
    h1.acquire(&mut dev).unwrap();
    let id = h1.task_start(&mut dev, payload("p")).unwrap();
    let h2 = PyQuantumResource::new("shared", ResourceType::PasqalCloud);
    assert_eq!(h2.task_status(&dev, &id).unwrap(), TaskStatus::Queued);
    assert!(h2.task_start(&mut dev, payload("q")).is_ok());
    assert_eq!(h2.acquire(&mut dev).unwrap(), Acquire::Wait);
}

#[test]
fn end_to_end_task_run() {
    let mut dev = Device::new("ibm_dev");
    let h = PyQuantumResource::new("ibm_dev", ResourceType::IBMDirectAccess);
    assert!(h.is_accessible(&dev));
    let token = match h.acquire(&mut dev).unwrap() {
        Acquire::Granted(t) => t,
        Acquire::Wait => panic!("a free lease must be granted"),
    };
    assert_eq!(token, "t1");
    let id = h.task_start(&mut dev, payload("{\"circuit\": \"bell\"}")).unwrap();
    assert_eq!(id, "job-1");
    assert_eq!(h.task_status(&dev, "job-1").unwrap(), TaskStatus::Queued);
    dev.task_progress("job-1", TaskStatus::Running, Vec::new()).unwrap();
    dev.task_progress("job-1", TaskStatus::Completed, b"{\"00\": 512}".to_vec()).unwrap();
    assert_eq!(h.task_status(&dev, "job-1").unwrap(), TaskStatus::Completed);
    assert_eq!(h.task_result(&dev, "job-1").unwrap().data, b"{\"00\": 512}".to_vec());
    assert!(h.release(&mut dev, "t1").is_ok());
}

#[test]
fn wrong_token_then_right_token() {
    let mut dev = Device::new("pasqal_dev");
    let h = PyQuantumResource::new("pasqal_dev", ResourceType::PasqalCloud);
    assert_eq!(h.acquire(&mut dev).unwrap(), Acquire::Granted("t1".to_string()));
    assert_eq!(h.release(&mut dev, "t2").unwrap_err().kind(), ErrorKind::OwnershipViolation);
    assert!(h.release(&mut dev, "t1").is_ok());
}

#[test]
fn unreachable_device_fails_fallible_operations() {
    let mut dev = Device::new("dev");
    let h = PyQuantumResource::new("dev", ResourceType::IBMQiskitRuntimeService);
    assert_eq!(h.acquire(&mut dev).unwrap(), Acquire::Granted("t1".to_string()));
    dev.set_accessible(false);
    assert!(!h.is_accessible(&dev));
    let e = h.acquire(&mut dev).unwrap_err();
    assert_eq!(e.kind(), ErrorKind::Unreachable);
    assert!(e.to_string().starts_with("unreachable"));
    assert_eq!(h.release(&mut dev, "t1").unwrap_err().kind(), ErrorKind::Unreachable);
    assert_eq!(h.task_start(&mut dev, payload("p")).unwrap_err().kind(), ErrorKind::Unreachable);
    assert_eq!(h.task_stop(&mut dev, "job-1").unwrap_err().kind(), ErrorKind::Unreachable);
    assert_eq!(h.task_status(&dev, "job-1").unwrap_err().kind(), ErrorKind::Unreachable);
    assert_eq!(h.task_result(&dev, "job-1").unwrap_err().kind(), ErrorKind::Unreachable);
    assert_eq!(h.target(&dev).unwrap_err().kind(), ErrorKind::Unreachable);
    assert_eq!(h.metadata().len(), 2);
    dev.set_accessible(true);
    assert!(h.release(&mut dev, "t1").is_ok());
}

#[test]
fn stop_after_completion_keeps_status() {
    let mut dev = Device::new("dev");
    let h = PyQuantumResource::new("dev", ResourceType::IBMDirectAccess);
    h.acquire(&mut dev).unwrap();
    let id = h.task_start(&mut dev, payload("p")).unwrap();
    dev.task_progress(&id, TaskStatus::Running, Vec::new()).unwrap();
    dev.task_progress(&id, TaskStatus::Completed, b"r".to_vec()).unwrap();
    assert!(h.task_stop(&mut dev, &id).is_ok());
    assert_eq!(h.task_status(&dev, &id).unwrap(), TaskStatus::Completed);
}

#[test]
fn error_message_names_kind_and_detail() {
    let e = qrmi::QrmiError::new(ErrorKind::NotReady, "job-3");
    assert_eq!(e.to_string(), "not ready: job-3");
}

#[test]
fn metadata_and_target() {
    let mut dev = Device::new("ibm_torino");
    let h = PyQuantumResource::new("ibm_torino", ResourceType::IBMQiskitRuntimeService);
    let m = h.metadata();
    assert_eq!(m[0], ("resource_id".to_string(), "ibm_torino".to_string()));
    assert_eq!(
        m[1],
        ("resource_type".to_string(), "IBMQiskitRuntimeService".to_string())
    );
    assert_eq!(h.resource_id(), "ibm_torino");
    assert_eq!(dev.resource_id(), "ibm_torino");
    dev.update_target(Target { data: b"{\"n_qubits\": 133}".to_vec() });
    assert_eq!(h.target(&dev).unwrap().data, b"{\"n_qubits\": 133}".to_vec());
}
