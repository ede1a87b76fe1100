use sysdash::dashboard::{App, Readings};
use sysdash::run_loop::Action;
use sysdash::sampler::DiskSpace;

#[test]
fn tick_records_both_percentages() {
    let mut app = App::new();
    let s = app.tick(&Readings {
        total_memory: 16,
        used_memory: 8,
        cpu_usage: 2550,
        disks: vec![DiskSpace { total: 100, available: 25 }],
    });
    assert_eq!(s.ram_percent, 5000);
    assert_eq!(s.cpu_percent, 2550);
    assert_eq!(s.disk.used, 75);
    assert_eq!(app.ram_history().indexed(), vec![(0, 5000)]);
    assert_eq!(app.cpu_history().indexed(), vec![(0, 2550)]);
}

#[test]
fn histories_are_bounded_at_sixty() {
    let mut app = App::new();
    for v in 1..=70u64 {
        app.push_cpu_value(v);
        app.push_ram_value(v, 100);
    }
    assert_eq!(app.cpu_history().len(), 60);
    assert_eq!(app.ram_history().len(), 60);
    assert_eq!(*app.cpu_history().get(0), 11);
    assert_eq!(*app.ram_history().get(0), 1100);
    let c = app.cpu_chart();
    assert_eq!((c.x_min, c.x_max), (10, 60));
    let r = app.ram_chart();
    assert_eq!(r.points[59], (59, 7000));
}

#[test]
fn app_loop_stops_on_quit_key() {
    let mut app = App::new();
    assert_eq!(app.action(), Action::Sample);
    app.complete(None);
    app.complete(None);
    assert_eq!(app.action(), Action::Poll);
    app.complete(Some('q'));
    assert!(app.exit());
    assert_eq!(app.action(), Action::Stop);
}
