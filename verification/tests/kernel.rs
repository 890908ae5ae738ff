use lib::hal::console::Console;
use lib::kernel::driver::{Driver, DriverRegistry, MAX_DRIVERS};
use lib::kernel::scheduler::{self, Scheduler};
use lib::kernel::task::{Task, TaskIds, TaskState, KERNEL_STACK_SIZE};
use std::cell::RefCell;

#[test]
fn task_new_takes_next_id_and_stack_top() {
    let mut ids = TaskIds::new();
    let t = Task::new(&mut ids, "hello", 1, 0x8000);
    assert_eq!(t.id, 1);
    assert_eq!(t.name, "hello");
    assert_eq!(t.state, TaskState::Ready);
    assert_eq!(t.priority, 1);
    assert_eq!(t.stack_base, 0x8000);
    assert_eq!(t.sp, 0x8000 + KERNEL_STACK_SIZE);
    assert_eq!(KERNEL_STACK_SIZE, 8192);
}

#[test]
fn task_ids_are_unique_and_increasing() {
    let mut ids = TaskIds::new();
    let mut seen = Vec::new();
    for i in 0..10 {
        let t = Task::new(&mut ids, "t", 0, 0x10_0000 + i * KERNEL_STACK_SIZE);
        assert!(!seen.contains(&t.id));
        seen.push(t.id);
    }
    assert_eq!(seen, (1..=10).collect::<Vec<usize>>());
}

#[test]
fn scheduler_init_sets_one_task() {
    let mut s = Scheduler { task_count: 7, current: 3 };
    scheduler::init(&mut s);
    assert_eq!(s.task_count, 1);
    assert_eq!(s.current, 0);
}

#[test]
fn schedule_with_one_task_keeps_it_running() {
    let mut s = Scheduler { task_count: 0, current: 0 };
    scheduler::init(&mut s);
    assert_eq!(scheduler::schedule(&mut s), 0);
    assert_eq!(scheduler::schedule(&mut s), 0);
    assert_eq!(s.task_count, 1);
}

#[test]
fn schedule_is_round_robin() {
    let mut s = Scheduler { task_count: 3, current: 0 };
    let order: Vec<usize> = (0..7).map(|_| scheduler::schedule(&mut s)).collect();
    assert_eq!(order, vec![1, 2, 0, 1, 2, 0, 1]);
    assert_eq!(s.current, 1);
}

#[test]
fn schedule_without_tasks_changes_nothing() {
    let mut s = Scheduler { task_count: 0, current: 5 };
    assert_eq!(scheduler::schedule(&mut s), 5);
    assert_eq!(s.current, 5);
}

#[derive(Clone, Copy)]
struct Recorder<'a> {
    name: &'static str,
    log: &'a RefCell<Vec<&'static str>>,
}

impl<'a> Driver for Recorder<'a> {
    fn name(&self) -> &'static str {
        self.name
    }
    fn init(&self) {
        self.log.borrow_mut().push(self.name);
    }
}

#[test]
fn drivers_init_in_registration_order() {
    let log = RefCell::new(Vec::new());
    let mut reg = DriverRegistry::new();
    reg.register(Recorder { name: "uart0", log: &log });
    reg.register(Recorder { name: "gpio-led", log: &log });
    reg.register(Recorder { name: "timer", log: &log });
    assert_eq!(reg.len(), 3);
    reg.init_all();
    assert_eq!(*log.borrow(), vec!["uart0", "gpio-led", "timer"]);
}

#[test]
fn driver_registry_drops_past_limit() {
    let log = RefCell::new(Vec::new());
    let mut reg = DriverRegistry::new();
    for _ in 0..MAX_DRIVERS {
        reg.register(Recorder { name: "d", log: &log });
    }
    reg.register(Recorder { name: "extra", log: &log });
    assert_eq!(reg.len(), 64);
    reg.init_all();
    assert_eq!(log.borrow().len(), 64);
    assert!(!log.borrow().contains(&"extra"));
}

#[test]
fn driver_shutdown_default_does_nothing() {
    let log = RefCell::new(Vec::new());
    let d = Recorder { name: "x", log: &log };
    d.shutdown();
    assert_eq!(d.name(), "x");
    assert!(log.borrow().is_empty());
}

struct BufConsole(RefCell<Vec<u8>>);

impl Console for BufConsole {
    fn write_byte(&self, byte: u8) {
        self.0.borrow_mut().push(byte);
    }
}

#[test]
fn console_writeln_appends_newline() {
    let c = BufConsole(RefCell::new(Vec::new()));
    c.write_str("[spiritos] ");
    c.writeln("Kernel starting...");
    assert_eq!(c.0.borrow().as_slice(), b"[spiritos] Kernel starting...\n");
}

#[test]
fn console_write_str_emits_utf8_bytes() {
    let c = BufConsole(RefCell::new(Vec::new()));
    c.write_str("é");
    assert_eq!(c.0.borrow().as_slice(), &[0xc3, 0xa9]);
}
