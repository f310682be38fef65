use sphinx::lifecycle::Region;
use sphinx::{App, Application, Page, Phase, Repainter, Switch, Theme, UpdateContext, View};
use std::cell::RefCell;
use std::rc::Rc;

/// Shared record of what happened, with the number of the tick.
#[derive(Default)]
struct Journal {
    tick: usize,
    lines: Vec<String>,
}

type Log = Rc<RefCell<Journal>>;

fn note(log: &Log, what: String) {
    let mut j = log.borrow_mut();
    let tick = j.tick;
    j.lines.push(format!("{}:{}", tick, what));
}

/// What a test page does on a given tick.
#[derive(Clone)]
enum Plan {
    SwitchOnRender(usize, &'static str),
    FailOnRender(usize),
    SwitchOnTop(usize, &'static str),
    DisableBottomOnEnter,
    Quiet,
}

struct TestPage {
    name: &'static str,
    log: Log,
    plan: Plan,
    on_error: Option<Box<Switch<TestPage, String>>>,
}

fn page(name: &'static str, log: &Log, plan: Plan) -> TestPage {
    TestPage { name, log: log.clone(), plan, on_error: None }
}

impl TestPage {
    fn tick(&self) -> usize {
        self.log.borrow().tick
    }

    fn hook(&mut self, hook: &str, ctx: UpdateContext<'_, (), usize>) -> Switch<TestPage, String> {
        *ctx.state += 1;
        note(&self.log, format!("{}.{}", self.name, hook));
        let tick = self.tick();
        match self.plan.clone() {
            Plan::SwitchOnRender(t, next) if t == tick && hook == "render" => {
                Switch::SwitchTo(page(next, &self.log, Plan::Quiet))
            }
            Plan::SwitchOnTop(t, next) if t == tick && hook == "top" => {
                Switch::SwitchTo(page(next, &self.log, Plan::Quiet))
            }
            Plan::FailOnRender(t) if t == tick && hook == "render" => Switch::Failure(format!("boom {}", t)),
            _ => Switch::Continue,
        }
    }
}

impl Page for TestPage {
    type Ui = ();
    type State = usize;
    type Error = String;

    fn name(&self) -> &str {
        self.name
    }

    fn enter(&mut self, view: &mut View) {
        if let Plan::DisableBottomOnEnter = self.plan {
            view.disable_bottom();
        }
        note(&self.log, format!("{}.enter", self.name));
    }

    fn exit(&mut self, _view: &mut View) {
        note(&self.log, format!("{}.exit", self.name));
    }

    fn on_error(&mut self, err: String) -> Switch<TestPage, String> {
        note(&self.log, format!("{}.on_error({})", self.name, err));
        self.on_error.take().map(|s| *s).unwrap_or(Switch::Continue)
    }

    fn init(&mut self, ctx: UpdateContext<'_, (), usize>) {
        *ctx.state += 1;
        note(&self.log, format!("{}.init", self.name));
    }

    fn top(&mut self, ctx: UpdateContext<'_, (), usize>) -> Switch<TestPage, String> {
        self.hook("top", ctx)
    }

    fn render(&mut self, ctx: UpdateContext<'_, (), usize>) -> Switch<TestPage, String> {
        self.hook("render", ctx)
    }

    fn bottom(&mut self, ctx: UpdateContext<'_, (), usize>) -> Switch<TestPage, String> {
        self.hook("bottom", ctx)
    }
}

struct TestApp {
    first: Option<TestPage>,
    log: Log,
}

impl App<TestPage> for TestApp {
    fn initial_page(&mut self) -> TestPage {
        self.first.take().unwrap()
    }

    fn save(&mut self, state: &usize) {
        note(&self.log, format!("save {}", state));
    }

    fn on_exit(&mut self) {
        note(&self.log, "on_exit".to_string());
    }
}

fn start(first: TestPage, log: &Log, view: View) -> Application<TestApp, TestPage> {
    let app = TestApp { first: Some(first), log: log.clone() };
    Application::start(app, view, 0, Repainter::from(eframe::egui::Context::default()))
}

/// One frame as a host drives it; `ack` stands for the user pressing Ok.
fn tick(app: &mut Application<TestApp, TestPage>, log: &Log, ack: bool) -> Phase {
    log.borrow_mut().tick += 1;
    let phase = app.begin_tick();
    match phase {
        Phase::Acknowledge => {
            if ack {
                app.acknowledge();
            }
        }
        Phase::Init => app.init_page(&mut ()),
        Phase::Paint => {
            if app.paint(Region::Top, &mut ()) && app.paint(Region::Render, &mut ()) {
                app.paint(Region::Bottom, &mut ());
            }
        }
        Phase::Done => {}
    }
    phase
}

fn lines(log: &Log) -> Vec<String> {
    log.borrow().lines.clone()
}

fn new_log() -> Log {
    Rc::new(RefCell::new(Journal::default()))
}

#[test]
fn switch_on_render_tick_five() {
    let log = new_log();
    let mut app = start(page("A", &log, Plan::SwitchOnRender(5, "B")), &log, View::new(false, false, Theme::Dark));
    for _ in 0..7 {
        tick(&mut app, &log, false);
    }
    assert_eq!(
        lines(&log),
        vec![
            "0:A.enter", "1:A.init", "2:A.render", "3:A.render", "4:A.render", "5:A.render", "5:A.exit",
            "5:B.enter", "6:B.init", "7:B.render",
        ]
    );
    assert_eq!(app.page().name(), "B");
}

#[test]
fn failure_then_acknowledge_continues() {
    let log = new_log();
    let mut app = start(page("A", &log, Plan::FailOnRender(3)), &log, View::new(false, false, Theme::Dark));
    assert_eq!(tick(&mut app, &log, false), Phase::Init);
    assert_eq!(tick(&mut app, &log, false), Phase::Paint);
    assert_eq!(tick(&mut app, &log, false), Phase::Paint);
    assert_eq!(app.error().map(|e| e.as_str()), Some("boom 3"));
    // the error pre-empts rendering until acknowledged
    assert_eq!(tick(&mut app, &log, false), Phase::Acknowledge);
    assert_eq!(tick(&mut app, &log, true), Phase::Acknowledge);
    assert!(app.error().is_none());
    assert_eq!(tick(&mut app, &log, false), Phase::Paint);
    assert_eq!(
        lines(&log),
        vec!["0:A.enter", "1:A.init", "2:A.render", "3:A.render", "5:A.on_error(boom 3)", "6:A.render"]
    );
    assert_eq!(app.page().name(), "A");
}

#[test]
fn error_hook_switch_exits_and_enters() {
    let log = new_log();
    let mut first = page("A", &log, Plan::FailOnRender(2));
    first.on_error = Some(Box::new(Switch::SwitchTo(page("B", &log, Plan::Quiet))));
    let mut app = start(first, &log, View::new(false, false, Theme::Dark));
    tick(&mut app, &log, false);
    tick(&mut app, &log, false);
    tick(&mut app, &log, true);
    assert_eq!(tick(&mut app, &log, false), Phase::Init);
    assert_eq!(tick(&mut app, &log, false), Phase::Paint);
    assert_eq!(
        lines(&log),
        vec![
            "0:A.enter", "1:A.init", "2:A.render", "3:A.on_error(boom 2)", "3:A.exit", "3:B.enter", "4:B.init",
            "5:B.render",
        ]
    );
}

#[test]
fn error_hook_failure_shows_the_new_error() {
    let log = new_log();
    let mut first = page("A", &log, Plan::FailOnRender(2));
    first.on_error = Some(Box::new(Switch::Failure("again".to_string())));
    let mut app = start(first, &log, View::new(false, false, Theme::Dark));
    tick(&mut app, &log, false);
    tick(&mut app, &log, false);
    assert_eq!(tick(&mut app, &log, true), Phase::Acknowledge);
    assert_eq!(app.error().map(|e| e.as_str()), Some("again"));
    assert_eq!(tick(&mut app, &log, true), Phase::Acknowledge);
    assert!(app.error().is_none());
    assert_eq!(tick(&mut app, &log, false), Phase::Paint);
}

#[test]
fn hooks_run_top_render_bottom_and_respect_view() {
    let log = new_log();
    let mut app = start(page("A", &log, Plan::Quiet), &log, View::new(true, true, Theme::Dark));
    tick(&mut app, &log, false);
    tick(&mut app, &log, false);
    assert_eq!(lines(&log), vec!["0:A.enter", "1:A.init", "2:A.top", "2:A.render", "2:A.bottom"]);
    assert_eq!(*app.state(), 4);
}

#[test]
fn enter_may_change_the_view() {
    let log = new_log();
    let mut app = start(page("A", &log, Plan::DisableBottomOnEnter), &log, View::default());
    assert!(!app.view().bottom_enabled());
    tick(&mut app, &log, false);
    tick(&mut app, &log, false);
    assert_eq!(lines(&log), vec!["0:A.enter", "1:A.init", "2:A.top", "2:A.render"]);
}

#[test]
fn switch_in_top_skips_the_rest_of_the_tick() {
    let log = new_log();
    let mut app = start(page("A", &log, Plan::SwitchOnTop(2, "B")), &log, View::default());
    tick(&mut app, &log, false);
    tick(&mut app, &log, false);
    assert_eq!(lines(&log), vec!["0:A.enter", "1:A.init", "2:A.top", "2:A.exit", "2:B.enter"]);
    // hooks called out of turn in the same tick do nothing
    assert!(!app.paint(Region::Render, &mut ()));
    app.init_page(&mut ());
    assert_eq!(lines(&log).len(), 5);
}

#[test]
fn regions_out_of_order_are_skipped() {
    let log = new_log();
    let mut app = start(page("A", &log, Plan::Quiet), &log, View::default());
    tick(&mut app, &log, false);
    log.borrow_mut().tick += 1;
    assert_eq!(app.begin_tick(), Phase::Paint);
    assert!(app.paint(Region::Render, &mut ()));
    assert!(app.paint(Region::Top, &mut ()));
    assert!(app.paint(Region::Render, &mut ()));
    assert!(app.paint(Region::Bottom, &mut ()));
    assert_eq!(lines(&log), vec!["0:A.enter", "1:A.init", "2:A.render", "2:A.bottom"]);
}

#[test]
fn no_paint_before_the_first_tick() {
    let log = new_log();
    let mut app = start(page("A", &log, Plan::Quiet), &log, View::default());
    assert!(!app.paint(Region::Render, &mut ()));
    app.acknowledge();
    assert_eq!(lines(&log), vec!["0:A.enter"]);
}

#[test]
fn enter_and_exit_alternate_over_many_switches() {
    let log = new_log();
    let mut app = start(page("P0", &log, Plan::SwitchOnRender(2, "P1")), &log, View::new(false, false, Theme::Dark));
    for _ in 0..3 {
        tick(&mut app, &log, false);
    }
    assert_eq!(app.page().name(), "P1");
    let lifecycle: Vec<String> = lines(&log)
        .into_iter()
        .filter(|l| l.ends_with("enter") || l.ends_with("exit") || l.ends_with("init"))
        .collect();
    assert_eq!(lifecycle, vec!["0:P0.enter", "1:P0.init", "2:P0.exit", "2:P1.enter", "3:P1.init"]);
}

#[test]
fn shutdown_saves_then_exits() {
    let log = new_log();
    let mut app = start(page("A", &log, Plan::Quiet), &log, View::new(false, false, Theme::Dark));
    tick(&mut app, &log, false);
    tick(&mut app, &log, false);
    app.shutdown();
    let l = lines(&log);
    assert_eq!(&l[l.len() - 2..], &["2:save 2".to_string(), "2:on_exit".to_string()]);
}
