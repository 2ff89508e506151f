use riftrace::controller::{ControllerTrait, InstanceController};
use riftrace::error::Error;
use riftrace::memory::MemoryStore;
use riftrace::store::{ConfigRead, WriteOutcome};
use riftrace::{Tracer, TracingControl, TracingStat};

const CONTROL_MOUNTS: &str = "tracefs /sys/kernel/tracing tracefs rw,relatime 0 0\n";

fn control_files() -> MemoryStore {
    let mut files = MemoryStore::new();
    files.create("/sys/kernel/tracing/available_tracers", "function_graph function nop\n");
    files.create("/sys/kernel/tracing/current_tracer", "nop\n");
    files.create("/sys/kernel/tracing/tracing_on", "0\n");
    files
}

fn control_read(files: &MemoryStore, ctrl: &TracingControl, subpath: &str) -> String {
    let request = ConfigRead { path: ctrl.get_joined_path(subpath).unwrap() };
    request.finish(files.read(&request)).unwrap()
}

fn control_select(files: &mut MemoryStore, ctrl: &TracingControl, tracer: Tracer) {
    let available = control_read(files, ctrl, "available_tracers");
    let write = ctrl.set_current_tracer(tracer, &available).unwrap();
    write.finish(files.write(&write)).unwrap();
}

fn control_current(files: &MemoryStore, ctrl: &TracingControl) -> Tracer {
    let current = control_read(files, ctrl, "current_tracer");
    ctrl.get_current_tracer(&current).unwrap()
}

fn control_cleanup(files: &mut MemoryStore, ctrl: &TracingControl) {
    let available = control_read(files, ctrl, "available_tracers");
    let writes = ctrl.cleanup_tracing(&available).unwrap();
    assert_eq!(files.write_all(&writes), WriteOutcome::Done);
}

fn control_switch(files: &mut MemoryStore, ctrl: &TracingControl, stat: TracingStat) {
    let write = ctrl.set_tracing_on(stat).unwrap();
    write.finish(files.write(&write)).unwrap();
}

fn control_is_on(files: &MemoryStore, ctrl: &TracingControl) -> bool {
    let switch = control_read(files, ctrl, "tracing_on");
    ctrl.is_tracing_on(&switch).unwrap()
}

#[test]
fn tracecontrol_should_set_current_tracer() {
    let mut files = control_files();
    let trace_ctrl = TracingControl::new(CONTROL_MOUNTS);
    control_select(&mut files, &trace_ctrl, Tracer::Function);
    assert_eq!(control_current(&files, &trace_ctrl), Tracer::Function);

    control_select(&mut files, &trace_ctrl, Tracer::FunctionGraph);
    assert_eq!(control_current(&files, &trace_ctrl), Tracer::FunctionGraph);

    control_cleanup(&mut files, &trace_ctrl);
}

#[test]
fn tracecontrol_should_enable_disable_tracer() {
    let mut files = control_files();
    let trace_ctrl = TracingControl::new(CONTROL_MOUNTS);
    control_switch(&mut files, &trace_ctrl, TracingStat::On);
    assert!(control_is_on(&files, &trace_ctrl));

    control_switch(&mut files, &trace_ctrl, TracingStat::Off);
    assert!(!control_is_on(&files, &trace_ctrl));

    control_cleanup(&mut files, &trace_ctrl);
}

#[test]
fn should_create_instance() {
    let trace_ctrl = TracingControl::obtain_instance("bar", CONTROL_MOUNTS)
        .unwrap()
        .finish(Ok(()))
        .unwrap();
    assert!(trace_ctrl.get_path().unwrap().ends_with("instances/bar"));
}

#[test]
fn tracecontrol_instance_needs_a_tracing_filesystem() {
    assert_eq!(
        TracingControl::obtain_instance("bar", "").unwrap_err(),
        Error::InstanceCreationFailed(libc::ENOENT)
    );
    let request = TracingControl::mount_tracefs();
    assert_eq!(request.target, "/sys/kernel/tracing");
    assert_eq!(request.finish(Ok(())), Ok(()));
}

#[test]
fn instance_controller_finds_its_directory() {
    let instance = InstanceController::new(Some("bar"), CONTROL_MOUNTS);
    assert_eq!(instance.get_path(), Some("/sys/kernel/tracing/instances/bar".to_string()));
    assert_eq!(InstanceController::new(None, CONTROL_MOUNTS).get_path(), None);
    assert_eq!(InstanceController::new(Some("bar"), "").get_path(), None);
}

#[test]
fn cleanup_twice_ends_in_the_same_state() {
    let mut files = control_files();
    let trace_ctrl = TracingControl::new(CONTROL_MOUNTS);
    control_select(&mut files, &trace_ctrl, Tracer::Function);
    control_switch(&mut files, &trace_ctrl, TracingStat::On);

    control_cleanup(&mut files, &trace_ctrl);
    assert_eq!(control_current(&files, &trace_ctrl), Tracer::Nop);
    assert!(!control_is_on(&files, &trace_ctrl));
    let tracer_once = control_read(&files, &trace_ctrl, "current_tracer");
    let switch_once = control_read(&files, &trace_ctrl, "tracing_on");

    control_cleanup(&mut files, &trace_ctrl);
    assert_eq!(control_current(&files, &trace_ctrl), Tracer::Nop);
    assert!(!control_is_on(&files, &trace_ctrl));
    assert_eq!(control_read(&files, &trace_ctrl, "current_tracer"), tracer_once);
    assert_eq!(control_read(&files, &trace_ctrl, "tracing_on"), switch_once);
    assert_eq!(tracer_once, "nop");
    assert_eq!(switch_once, "0");
}

#[test]
fn every_available_tracer_reads_back_after_it_is_set() {
    let all = [
        Tracer::Function,
        Tracer::FunctionGraph,
        Tracer::Block,
        Tracer::HardwareLatency,
        Tracer::IRQsOff,
        Tracer::PreemptOff,
        Tracer::PreemptIRQsOff,
        Tracer::Wakeup,
        Tracer::WakeupRealtime,
        Tracer::WakeupDeadline,
        Tracer::MMIOTrace,
        Tracer::Branch,
        Tracer::Nop,
    ];
    let mut files = control_files();
    files.create(
        "/sys/kernel/tracing/available_tracers",
        "function function_graph blk hwlat irqsoff preemptoff preemptirqsoff wakeup \
         wakeup_rt wakeup_dl mmiotrace branch nop\n",
    );
    let trace_ctrl = TracingControl::new(CONTROL_MOUNTS);
    for tracer in all {
        control_select(&mut files, &trace_ctrl, tracer);
        assert_eq!(control_current(&files, &trace_ctrl), tracer);
    }
}

#[test]
fn an_unavailable_tracer_is_refused_and_the_tracer_in_use_stays() {
    let mut files = control_files();
    let trace_ctrl = TracingControl::new(CONTROL_MOUNTS);
    control_select(&mut files, &trace_ctrl, Tracer::Function);
    let available = control_read(&files, &trace_ctrl, "available_tracers");
    let refused = trace_ctrl.set_current_tracer(Tracer::Block, &available);
    assert_eq!(refused.unwrap_err(), Error::InvalidTracer);
    assert_eq!(control_current(&files, &trace_ctrl), Tracer::Function);
    assert_eq!(control_read(&files, &trace_ctrl, "current_tracer"), "function");
    assert_eq!(
        trace_ctrl.set_current_tracer(Tracer::Function, "function_graph").unwrap_err(),
        Error::InvalidTracer
    );
}
