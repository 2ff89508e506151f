use riftrace::controller::{ControllerTrait, MainController};
use riftrace::error::{Error, IoFailure};
use riftrace::memory::MemoryStore;
use riftrace::operations::{FilterOps, MarkerOps};
use riftrace::store::{ConfigRead, WriteOutcome};
use riftrace::{Tracer, TracingStat};

const MAIN_MOUNTS: &str = "sysfs /sys sysfs rw,nosuid,nodev,noexec,relatime 0 0\n\
tracefs /sys/kernel/tracing tracefs rw,nosuid,nodev,noexec,relatime 0 0\n";

fn main_files() -> MemoryStore {
    let mut files = MemoryStore::new();
    files.create("/sys/kernel/tracing/available_tracers", "function_graph function nop\n");
    files.create("/sys/kernel/tracing/current_tracer", "nop\n");
    files.create("/sys/kernel/tracing/tracing_on", "0\n");
    files.create("/sys/kernel/tracing/set_ftrace_pid", "no pid\n");
    files
}

fn main_read(files: &MemoryStore, ctrl: &MainController, subpath: &str) -> String {
    let request = ConfigRead { path: ctrl.get_joined_path(subpath).unwrap() };
    request.finish(files.read(&request)).unwrap()
}

fn main_select(files: &mut MemoryStore, ctrl: &MainController, tracer: Tracer) {
    let available = main_read(files, ctrl, "available_tracers");
    let write = ctrl.set_current_tracer(tracer, &available).unwrap();
    write.finish(files.write(&write)).unwrap();
}

fn main_current(files: &MemoryStore, ctrl: &MainController) -> Tracer {
    let current = main_read(files, ctrl, "current_tracer");
    ctrl.get_current_tracer(&current).unwrap()
}

fn main_cleanup(files: &mut MemoryStore, ctrl: &MainController) {
    let available = main_read(files, ctrl, "available_tracers");
    let writes = ctrl.cleanup_tracing(&available).unwrap();
    assert_eq!(files.write_all(&writes), WriteOutcome::Done);
}

fn main_switch(files: &mut MemoryStore, ctrl: &MainController, stat: TracingStat) {
    let write = ctrl.set_tracing_on(stat).unwrap();
    write.finish(files.write(&write)).unwrap();
}

fn main_is_on(files: &MemoryStore, ctrl: &MainController) -> bool {
    let switch = main_read(files, ctrl, "tracing_on");
    ctrl.is_tracing_on(&switch).unwrap()
}

#[test]
fn mainctrl_should_set_current_tracer() {
    let mut files = main_files();
    let trace_ctrl = MainController::new(MAIN_MOUNTS);
    main_select(&mut files, &trace_ctrl, Tracer::Function);
    assert_eq!(main_current(&files, &trace_ctrl), Tracer::Function);

    main_select(&mut files, &trace_ctrl, Tracer::FunctionGraph);
    assert_eq!(main_current(&files, &trace_ctrl), Tracer::FunctionGraph);

    main_cleanup(&mut files, &trace_ctrl);
}

#[test]
fn mainctrl_should_enable_disable_tracer() {
    let mut files = main_files();
    let trace_ctrl = MainController::new(MAIN_MOUNTS);
    main_switch(&mut files, &trace_ctrl, TracingStat::On);
    assert!(main_is_on(&files, &trace_ctrl));

    main_switch(&mut files, &trace_ctrl, TracingStat::Off);
    assert!(!main_is_on(&files, &trace_ctrl));

    main_cleanup(&mut files, &trace_ctrl);
}

#[test]
fn should_obtain_instance() {
    let trace_ctrl = MainController::new(MAIN_MOUNTS);
    let instance = trace_ctrl.obtain_instance("bar").unwrap().finish(Ok(())).unwrap();
    assert!(instance.get_path().unwrap().ends_with("instances/bar"));
}

#[test]
fn obtaining_an_instance_twice_gives_the_same_path() {
    let trace_ctrl = MainController::new(MAIN_MOUNTS);
    let first = trace_ctrl.obtain_instance("bar").unwrap();
    assert_eq!(first.path, "/sys/kernel/tracing/instances/bar");
    assert_eq!(first.mode, 0o750);
    let first = first.finish(Ok(())).unwrap();
    let second = trace_ctrl.obtain_instance("bar").unwrap();
    assert_eq!(second.path, "/sys/kernel/tracing/instances/bar");
    let second = second.finish(Err(libc::EEXIST)).unwrap();
    assert_eq!(first.get_path().unwrap(), "/sys/kernel/tracing/instances/bar");
    assert_eq!(second.get_path(), first.get_path());
}

#[test]
fn a_refused_instance_keeps_the_error_number() {
    let trace_ctrl = MainController::new(MAIN_MOUNTS);
    let refused = trace_ctrl.obtain_instance("bar").unwrap().finish(Err(libc::EACCES));
    assert_eq!(refused.unwrap_err(), Error::InstanceCreationFailed(libc::EACCES));
    let refused = trace_ctrl.obtain_instance("bar").unwrap().finish(Err(libc::ENOENT));
    assert_eq!(refused.unwrap_err(), Error::InstanceCreationFailed(libc::ENOENT));

    let nowhere = MainController::new("proc /proc proc rw 0 0\n");
    assert_eq!(
        nowhere.obtain_instance("bar").unwrap_err(),
        Error::InstanceCreationFailed(libc::ENOENT)
    );
}

#[test]
fn the_error_numbers_are_those_of_linux() {
    let trace_ctrl = MainController::new(MAIN_MOUNTS);
    assert!(trace_ctrl.obtain_instance("bar").unwrap().finish(Err(17)).is_ok());
    assert_eq!(
        trace_ctrl.obtain_instance("bar").unwrap().finish(Err(2)).unwrap_err(),
        Error::InstanceCreationFailed(2)
    );
    assert_eq!(
        MainController::new("").obtain_instance("bar").unwrap_err(),
        Error::InstanceCreationFailed(2)
    );
    assert_eq!(libc::EEXIST, 17);
    assert_eq!(libc::ENOENT, 2);
}

#[test]
fn an_instance_has_the_control_files_of_its_own() {
    let trace_ctrl = MainController::new(MAIN_MOUNTS);
    let instance = trace_ctrl.obtain_instance("foo").unwrap().finish(Ok(())).unwrap();
    let write = instance.set_tracing_on(TracingStat::On).unwrap();
    assert_eq!(write.path, "/sys/kernel/tracing/instances/foo/tracing_on");
    assert_eq!(write.content, "1");
    let write = instance.set_current_tracer(Tracer::Function, "function nop").unwrap();
    assert_eq!(write.path, "/sys/kernel/tracing/instances/foo/current_tracer");
    assert_eq!(write.content, "function");
    assert_eq!(
        instance.trace("1").unwrap().path,
        "/sys/kernel/tracing/instances/foo/trace"
    );
    assert_eq!(instance.get_current_tracer("function\n").unwrap(), Tracer::Function);
}

#[test]
fn a_controller_can_be_moved_to_another_directory() {
    let mut trace_ctrl = MainController::new("");
    assert_eq!(trace_ctrl.get_path(), None);
    assert_eq!(
        trace_ctrl.set_tracing_on(TracingStat::On).unwrap_err(),
        Error::Io(IoFailure::NoTracefs)
    );
    assert_eq!(
        trace_ctrl.get_joined_path("trace").unwrap_err(),
        Error::Io(IoFailure::NoTracefs)
    );
    trace_ctrl.set_path(Some("/mnt/tracing".to_string()));
    assert_eq!(trace_ctrl.get_path(), Some("/mnt/tracing".to_string()));
    assert_eq!(trace_ctrl.get_joined_path("trace").unwrap(), "/mnt/tracing/trace");
    let write = trace_ctrl.write_to_subpath("trace_marker", true, "here").unwrap();
    assert_eq!(write.path, "/mnt/tracing/trace_marker");
    assert_eq!((write.content.as_str(), write.newline, write.append), ("here", false, true));
    assert_eq!(
        trace_ctrl.get_available_tracers(" nop\nblk ").unwrap(),
        vec!["nop".to_string(), "blk".to_string()]
    );
    assert_eq!(
        MainController::find_tracefs_dirs(MAIN_MOUNTS).unwrap(),
        vec!["/sys/kernel/tracing".to_string()]
    );
}

#[test]
fn pid_filter_takes_the_ids_separated_by_spaces() {
    let mut files = main_files();
    let trace_ctrl = MainController::new(MAIN_MOUNTS);
    let filters = FilterOps::new(&trace_ctrl);
    let write = filters.set_ftrace_pid(&[100, 200], false, "4194304").unwrap();
    assert_eq!(write.path, "/sys/kernel/tracing/set_ftrace_pid");
    assert_eq!(write.content, "100 200");
    assert!(!write.append);
    assert_eq!(files.write(&write), WriteOutcome::Done);
    assert_eq!(main_read(&files, &trace_ctrl, "set_ftrace_pid"), "100 200\n");
}

#[test]
fn pid_filter_works_on_the_maximum_as_the_kernel_gives_it() {
    let mut files = main_files();
    files.create("/proc/sys/kernel/pid_max", "4194304\n");
    let trace_ctrl = MainController::new(MAIN_MOUNTS);
    let filters = FilterOps::new(&trace_ctrl);
    let request = ConfigRead { path: riftrace::resolver::PID_MAX_PATH.to_string() };
    let pid_max = request.finish(files.read(&request)).unwrap();
    assert_eq!(pid_max, "4194304\n");
    assert_eq!(filters.pids_as_string(&[100, 200], &pid_max).unwrap(), "100 200");

    let write = filters.set_ftrace_pid(&[100, 200], false, &pid_max).unwrap();
    assert_eq!(write.path, "/sys/kernel/tracing/set_ftrace_pid");
    assert_eq!(write.content, "100 200");
    assert_eq!(files.write(&write), WriteOutcome::Done);
    assert_eq!(main_read(&files, &trace_ctrl, "set_ftrace_pid"), "100 200\n");

    let before = main_read(&files, &trace_ctrl, "set_ftrace_pid");
    assert_eq!(
        filters.set_ftrace_pid(&[4200000], false, &pid_max).unwrap_err(),
        Error::InvalidProcessID
    );
    assert_eq!(
        filters.set_ftrace_notrace_pid(&[4200000], true, &pid_max).unwrap_err(),
        Error::InvalidProcessID
    );
    assert_eq!(main_read(&files, &trace_ctrl, "set_ftrace_pid"), before);
    let write = filters.set_ftrace_notrace_pid(&[300], true, &pid_max).unwrap();
    assert_eq!(write.content, "300");
    assert!(write.append);
}

#[test]
fn pid_above_the_maximum_is_refused_and_nothing_is_written() {
    let mut files = main_files();
    let trace_ctrl = MainController::new(MAIN_MOUNTS);
    let filters = FilterOps::new(&trace_ctrl);
    let before = main_read(&files, &trace_ctrl, "set_ftrace_pid");
    let refused = filters.set_ftrace_pid(&[4200000], false, "4194304");
    assert_eq!(refused.unwrap_err(), Error::InvalidProcessID);
    if let Ok(write) = filters.set_ftrace_pid(&[4200000], false, "4194304") {
        files.write(&write);
    }
    assert_eq!(main_read(&files, &trace_ctrl, "set_ftrace_pid"), before);
    assert_eq!(
        filters.set_ftrace_pid(&[100, 4200000, 200], true, "4194304").unwrap_err(),
        Error::InvalidProcessID
    );
    assert_eq!(
        filters.set_ftrace_notrace_pid(&[4194305], false, "4194304").unwrap_err(),
        Error::InvalidProcessID
    );
    let write = filters.set_ftrace_notrace_pid(&[4194304], false, "4194304").unwrap();
    assert_eq!(write.path, "/sys/kernel/tracing/set_ftrace_notrace_pid");
    assert_eq!(write.content, "4194304");
    assert!(write.newline);
}

#[test]
fn filter_operations_pass_patterns_on() {
    let trace_ctrl = MainController::new(MAIN_MOUNTS);
    let filters = FilterOps::new(&trace_ctrl);
    let write = filters.set_ftrace_filter("net* !net_rx", false).unwrap();
    assert_eq!(write.path, "/sys/kernel/tracing/set_ftrace_filter");
    assert_eq!(
        (write.content.as_str(), write.newline, write.append),
        ("net* !net_rx", true, false)
    );
    let write = filters.set_ftrace_notrace("", true).unwrap();
    assert_eq!(write.path, "/sys/kernel/tracing/set_ftrace_notrace");
    assert_eq!((write.content.as_str(), write.newline, write.append), ("", true, true));
    let write = filters.set_graph_function("vfs_*", false).unwrap();
    assert_eq!(write.path, "/sys/kernel/tracing/set_graph_function");
    assert_eq!((write.content.as_str(), write.newline, write.append), ("vfs_*", true, false));
    assert_eq!(filters.pids_as_string(&[7, 8], "9").unwrap(), "7 8");

    let nowhere = MainController::new("");
    let filters = FilterOps::new(&nowhere);
    assert_eq!(
        filters.set_ftrace_filter("net*", false).unwrap_err(),
        Error::Io(IoFailure::NoTracefs)
    );
    assert_eq!(
        filters.set_ftrace_pid(&[1], false, "10").unwrap_err(),
        Error::Io(IoFailure::NoTracefs)
    );
    assert_eq!(
        filters.set_ftrace_pid(&[11], false, "10").unwrap_err(),
        Error::InvalidProcessID
    );
}

#[test]
fn markers_are_written_as_they_are() {
    let trace_ctrl = MainController::new(MAIN_MOUNTS);
    let markers = MarkerOps::new(&trace_ctrl);
    let write = markers.marker_write("start of run 7").unwrap();
    assert_eq!(write.path, "/sys/kernel/tracing/trace_marker");
    assert_eq!(write.content, "start of run 7");
    assert!(!write.newline);
    assert!(!write.append);
    let raw = markers.marker_write_raw(&[0, 255, 10, 13, 128]).unwrap();
    assert_eq!(raw.path, "/sys/kernel/tracing/trace_marker_raw");
    assert_eq!(raw.data, vec![0u8, 255, 10, 13, 128]);
    assert_eq!(raw.finish(WriteOutcome::Done), Ok(()));
    assert_eq!(raw.finish(WriteOutcome::OpenFailed), Err(Error::OpenToWriteFailed));

    let nowhere = MainController::new("");
    let markers = MarkerOps::new(&nowhere);
    assert_eq!(markers.marker_write("x").unwrap_err(), Error::Io(IoFailure::NoTracefs));
    assert_eq!(
        markers.marker_write_raw(&[1]).unwrap_err(),
        Error::Io(IoFailure::NoTracefs)
    );
}

#[test]
fn main_mount_request_is_restrictive() {
    let request = MainController::mount_tracefs();
    assert_eq!(request.source, "nodev");
    assert_eq!(request.target, "/sys/kernel/tracing");
    assert_eq!(request.fstype, "tracefs");
    assert!(request.nosuid && request.noexec && request.nodev);
    assert_eq!(
        request.finish(Err(libc::EBUSY)),
        Err(Error::TracefsMountFailed(libc::EBUSY))
    );
}
