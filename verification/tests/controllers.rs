use riftrace::error::Error;
use riftrace::memory::MemoryStore;
use riftrace::store::{ConfigRead, WriteOutcome};
use riftrace::{Tracer, TracingStat};

fn default_files() -> MemoryStore {
    let mut files = MemoryStore::new();
    files.create("/sys/kernel/tracing/available_tracers", "function_graph function nop\n");
    files.create("/sys/kernel/tracing/current_tracer", "nop\n");
    files.create("/sys/kernel/tracing/tracing_on", "0\n");
    files
}

fn default_read(files: &MemoryStore, path: &str) -> String {
    let request = ConfigRead { path: path.to_string() };
    request.finish(files.read(&request)).unwrap()
}

fn default_select(files: &mut MemoryStore, tracer: Tracer) {
    let available = default_read(files, "/sys/kernel/tracing/available_tracers");
    let write = riftrace::set_current_tracer(false, tracer, &available).unwrap();
    write.finish(files.write(&write)).unwrap();
}

fn default_current(files: &MemoryStore) -> Tracer {
    let current = default_read(files, "/sys/kernel/tracing/current_tracer");
    riftrace::get_current_tracer(false, &current).unwrap()
}

fn default_cleanup(files: &mut MemoryStore) {
    let available = default_read(files, "/sys/kernel/tracing/available_tracers");
    let writes = riftrace::cleanup_tracing(false, &available).unwrap();
    assert_eq!(files.write_all(&writes), WriteOutcome::Done);
}

fn default_switch(files: &mut MemoryStore, stat: TracingStat) {
    let write = riftrace::set_tracing_on(false, stat).unwrap();
    write.finish(files.write(&write)).unwrap();
}

fn default_is_on(files: &MemoryStore) -> bool {
    let switch = default_read(files, "/sys/kernel/tracing/tracing_on");
    riftrace::is_tracing_on(false, &switch).unwrap()
}

#[test]
fn controllers_should_set_current_tracer() {
    let mut files = default_files();
    default_select(&mut files, Tracer::Function);
    assert_eq!(default_current(&files), Tracer::Function);

    default_select(&mut files, Tracer::FunctionGraph);
    assert_eq!(default_current(&files), Tracer::FunctionGraph);

    default_cleanup(&mut files);
}

#[test]
fn controllers_should_enable_disable_tracer() {
    let mut files = default_files();
    default_switch(&mut files, TracingStat::On);
    assert_eq!(default_is_on(&files), true);

    default_switch(&mut files, TracingStat::Off);
    assert_eq!(default_is_on(&files), false);

    default_cleanup(&mut files);
}

#[test]
fn controllers_work_below_the_debug_filesystem_on_old_kernels() {
    let write = riftrace::set_tracing_on(true, TracingStat::On).unwrap();
    assert_eq!(write.path, "/sys/kernel/debug/tracing/tracing_on");
    assert_eq!(write.content, "1");
    let write = riftrace::set_tracing_on(false, TracingStat::Off).unwrap();
    assert_eq!(write.path, "/sys/kernel/tracing/tracing_on");
    assert_eq!(write.content, "0");
    assert!(!write.newline);
    assert!(!write.append);
}

#[test]
fn controllers_name_the_control_files() {
    let write = riftrace::set_ftrace_filter(false, "net*", false).unwrap();
    assert_eq!(write.path, "/sys/kernel/tracing/set_ftrace_filter");
    assert_eq!((write.content.as_str(), write.newline, write.append), ("net*", true, false));
    let write = riftrace::set_graph_function(true, "vfs_read", true).unwrap();
    assert_eq!(write.path, "/sys/kernel/debug/tracing/set_graph_function");
    assert_eq!((write.content.as_str(), write.newline, write.append), ("vfs_read", true, true));
    let write = riftrace::set_ftrace_notrace(false, "schedule", true).unwrap();
    assert_eq!(write.path, "/sys/kernel/tracing/set_ftrace_notrace");
    assert_eq!((write.content.as_str(), write.newline, write.append), ("schedule", true, true));
    let write = riftrace::trace_marker(false, "mark").unwrap();
    assert_eq!(write.path, "/sys/kernel/tracing/trace_marker");
    assert_eq!((write.content.as_str(), write.newline, write.append), ("mark", false, false));
    let write = riftrace::set_ftrace_pid(false, &[1, 22, 333], true, "4194304").unwrap();
    assert_eq!(write.path, "/sys/kernel/tracing/set_ftrace_pid");
    assert_eq!((write.content.as_str(), write.newline, write.append), ("1 22 333", true, true));
    let write = riftrace::set_current_tracer(false, Tracer::Wakeup, "wakeup nop").unwrap();
    assert_eq!(write.path, "/sys/kernel/tracing/current_tracer");
    assert_eq!((write.content.as_str(), write.newline, write.append), ("wakeup", false, false));
}

#[test]
fn controllers_take_the_pid_maximum_with_its_line_end() {
    let write = riftrace::set_ftrace_pid(false, &[100, 200], false, "4194304\n").unwrap();
    assert_eq!(write.path, "/sys/kernel/tracing/set_ftrace_pid");
    assert_eq!((write.content.as_str(), write.newline, write.append), ("100 200", true, false));
    assert_eq!(
        riftrace::set_ftrace_pid(false, &[4200000], false, "4194304\n").unwrap_err(),
        Error::InvalidProcessID
    );
}

#[test]
fn controllers_read_what_the_files_hold() {
    assert_eq!(
        riftrace::get_available_tracers(false, "blk  function\tnop\n").unwrap(),
        vec!["blk".to_string(), "function".to_string(), "nop".to_string()]
    );
    assert_eq!(riftrace::get_current_tracer(false, "blk\n").unwrap(), Tracer::Block);
    assert_eq!(riftrace::is_tracing_on(false, " 1 \n").unwrap(), true);
    assert_eq!(riftrace::is_tracing_on(false, "11").unwrap(), false);
    assert_eq!(riftrace::is_tracing_on(false, "").unwrap(), false);
    assert_eq!(riftrace::trace(false, "1\n").unwrap().path, "/sys/kernel/tracing/trace");
    assert_eq!(riftrace::trace(true, "1\n").unwrap().path, "/sys/kernel/debug/tracing/trace");
    assert_eq!(riftrace::trace(false, "0\n").unwrap_err(), Error::TracingDisabled);
}

#[test]
fn controllers_cleanup_selects_nop_before_switching_off() {
    let writes = riftrace::cleanup_tracing(false, "function nop").unwrap();
    assert_eq!(writes.len(), 2);
    assert_eq!(writes[0].path, "/sys/kernel/tracing/current_tracer");
    assert_eq!(writes[0].content, "nop");
    assert!(!writes[0].newline && !writes[0].append);
    assert_eq!(writes[1].path, "/sys/kernel/tracing/tracing_on");
    assert_eq!(writes[1].content, "0");
    assert!(!writes[1].newline && !writes[1].append);
    assert_eq!(
        riftrace::cleanup_tracing(false, "function").unwrap_err(),
        Error::InvalidTracer
    );
}
