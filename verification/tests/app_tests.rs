use std::cell::RefCell;
use std::path::PathBuf;
use std::rc::Rc;

use vreader::app::{
    first_work_status, instruction_width, notification_look, show_notification, status_text, App, AppScreen,
    AppScreenEvent, AppWorkStatus,
};
use vreader::config::{AppHooks, Config, VReaderRole};

/// A screen that logs its lifecycle.
struct Logged {
    name: &'static str,
    log: Rc<RefCell<Vec<String>>>,
    busy: bool,
}

impl AppScreen for Logged {
    fn started(self) -> Self {
        self
    }

    fn paused(self) -> Self {
        self
    }

    fn unpaused(self) -> Self {
        self
    }

    fn start(&mut self) {
        self.log.borrow_mut().push(format!("start {}", self.name));
    }

    fn pause(&mut self) {
        self.log.borrow_mut().push(format!("pause {}", self.name));
    }

    fn unpause(&mut self) {
        self.log.borrow_mut().push(format!("unpause {}", self.name));
    }

    fn quit(&mut self) {
        self.log.borrow_mut().push(format!("quit {}", self.name));
    }

    fn work_status_spec(&self) -> AppWorkStatus {
        self.get_work_status()
    }

    fn get_work_status(&self) -> AppWorkStatus {
        if self.busy {
            AppWorkStatus::Working(1, 4, self.name.to_string())
        } else {
            AppWorkStatus::Idle
        }
    }
}

fn config() -> Config {
    Config { datapath: PathBuf::from("/d"), hooks: None, role: VReaderRole::Parent, vccread: None, llm: None, vchat: None }
}

fn screen(name: &'static str, log: &Rc<RefCell<Vec<String>>>) -> Logged {
    Logged { name, log: log.clone(), busy: false }
}

fn busy_screen(name: &'static str, log: &Rc<RefCell<Vec<String>>>) -> Logged {
    Logged { name, log: log.clone(), busy: true }
}

#[test]
fn screens_stack_up_and_unwind() {
    let log = Rc::new(RefCell::new(Vec::new()));
    let mut app: App<Logged, Logged, ()> = App::new(&config(), ());
    assert!(app.running);
    assert_eq!(app.role, VReaderRole::Parent);
    assert!(app.hooks.open_link.is_none());
    app.initmain(screen("main", &log), true, screen("welcome", &log));
    assert_eq!(app.dialog_queue.len(), 1);
    app.close_current_dialog();
    assert_eq!(app.dialog_queue.len(), 0);
    app.change_state(screen("reader", &log));
    assert_eq!(app.states_queue.len(), 1);
    app.exit_state();
    assert_eq!(app.current_state.as_ref().unwrap().name, "main");
    assert!(app.running);
    app.exit_state();
    assert!(app.current_state.is_none());
    assert!(!app.running);
    assert_eq!(
        *log.borrow(),
        vec![
            "start main",
            "pause main",
            "start welcome",
            "quit welcome",
            "pause main",
            "start reader",
            "quit reader",
            "unpause main",
            "quit main",
        ]
    );
}

#[test]
fn screen_events_are_carried_out() {
    let log = Rc::new(RefCell::new(Vec::new()));
    let mut config = config();
    config.hooks = Some(AppHooks { open_link: Some("firefox".to_string()) });
    let mut app: App<Logged, Logged, ()> = App::new(&config, ());
    assert_eq!(app.hooks.open_link.as_deref(), Some("firefox"));
    app.init(screen("main", &log));
    assert!(app.handle_screen_event::<&str>(AppScreenEvent::OpenDialog(screen("help", &log))).is_none());
    assert_eq!(app.dialog_queue.len(), 1);
    assert!(app.handle_screen_event::<&str>(AppScreenEvent::CloseDialog).is_none());
    assert_eq!(app.dialog_queue.len(), 0);
    assert_eq!(app.handle_screen_event(AppScreenEvent::Notify("hello")), Some("hello"));
    assert!(app.handle_screen_event::<&str>(AppScreenEvent::ChangeState(screen("reader", &log))).is_none());
    assert_eq!(app.states_queue.len(), 1);
    assert!(app.handle_screen_event::<&str>(AppScreenEvent::NoAction).is_none());
    assert!(app.handle_screen_event::<&str>(AppScreenEvent::ExitApp).is_none());
    assert!(!app.running);
}

#[test]
fn notifications_yield_to_work() {
    assert!(show_notification(true, true));
    assert!(show_notification(false, false));
    assert!(!show_notification(false, true));
}

#[test]
fn work_status_comes_from_the_first_busy_screen() {
    let log = Rc::new(RefCell::new(Vec::new()));
    let mut app: App<Logged, Logged, ()> = App::new(&config(), ());
    assert!(app.get_work_status().is_none());
    app.init(screen("main", &log));
    assert!(app.get_work_status().is_none());
    app.change_state(busy_screen("updating", &log));
    app.change_state(busy_screen("second", &log));
    app.change_state(screen("reader", &log));
    match app.get_work_status() {
        AppWorkStatus::Working(done, total, what) => {
            assert_eq!((done, total, what.as_str()), (1, 4, "updating"));
        }
        AppWorkStatus::Idle => panic!("a paused screen reports work"),
    }
    app.change_state(busy_screen("top", &log));
    match app.get_work_status() {
        AppWorkStatus::Working(_, _, what) => assert_eq!(what, "top"),
        AppWorkStatus::Idle => panic!("the current screen reports work"),
    }
}

#[test]
fn first_work_status_skips_idle_ones() {
    assert!(first_work_status(vec![]).is_none());
    assert!(first_work_status(vec![AppWorkStatus::Idle, AppWorkStatus::Idle]).is_none());
    match first_work_status(vec![
        AppWorkStatus::Idle,
        AppWorkStatus::Working(2, 3, "b".to_string()),
        AppWorkStatus::Working(5, 6, "c".to_string()),
    ]) {
        AppWorkStatus::Working(done, total, what) => assert_eq!((done, total, what.as_str()), (2, 3, "b")),
        AppWorkStatus::Idle => panic!("one status reports work"),
    }
}

#[test]
fn status_line_parts() {
    assert_eq!(status_text(&VReaderRole::Kid, "Reader"), "\u{f118} kid | Reader");
    assert_eq!(status_text(&VReaderRole::Operator, "Main"), "\u{f023} operator | Main");
    assert_eq!(instruction_width(""), 5);
    assert_eq!(instruction_width("\u{2193}\u{2191}ab"), 9);
    assert_eq!(instruction_width(&"x".repeat(200)), 90);
    assert_eq!(notification_look(true), ("\u{f06a}", 8));
    assert_eq!(notification_look(false), ("\u{f0f3}", 9));
}

#[test]
fn keys_go_to_the_first_dialog() {
    let log = Rc::new(RefCell::new(Vec::new()));
    let mut app: App<Logged, Logged, ()> = App::new(&config(), ());
    app.init(screen("main", &log));
    assert!(app.front_dialog().is_none());
    app.open_dialog(screen("welcome", &log));
    app.open_dialog(screen("help", &log));
    assert_eq!(app.front_dialog().unwrap().name, "welcome");
    // closing takes the last dialog away
    app.close_current_dialog();
    assert_eq!(app.front_dialog().unwrap().name, "welcome");
}
