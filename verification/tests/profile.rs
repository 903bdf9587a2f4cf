use krun_host::profile::KrunProfiler;
use std::path::PathBuf;

fn profiler() -> KrunProfiler {
    KrunProfiler::start(Some(PathBuf::from("/tmp/profile.tsv"))).unwrap()
}

#[test]
fn profiling_is_off_without_a_path() {
    assert!(KrunProfiler::start(None).is_none());
}

#[test]
fn profiler_keeps_its_path() {
    let p = profiler();
    assert_eq!(p.get_path(), &PathBuf::from("/tmp/profile.tsv"));
    assert_eq!(p.clone().get_path(), p.get_path());
}

#[test]
fn marker_is_a_row_of_zero_nanoseconds() {
    assert_eq!(profiler().record_marker("krun_start_enter"), "krun_start_enter\t0\n");
}

#[test]
fn rows_are_tab_separated_decimals() {
    let p = profiler();
    assert_eq!(p.record("a", 9), "a\t9\n");
    assert_eq!(p.record("a", 10), "a\t10\n");
    assert_eq!(p.record("build microvm", 1_002_003), "build microvm\t1002003\n");
    assert_eq!(p.record("", 100), "\t100\n");
    assert_eq!(
        p.record("max", u128::MAX),
        "max\t340282366920938463463374607431768211455\n"
    );
    for n in [0u128, 1, 7, 19, 90, 999, 1000, 123_456_789_012_345_678_901_234_567] {
        assert_eq!(p.record("l", n), format!("l\t{n}\n"));
    }
}

#[test]
fn measure_returns_what_the_closure_returned() {
    let p = profiler();
    let mut calls = 0;
    let (value, row) = p.measure("load kernel", || {
        calls += 1;
        String::from("loaded")
    });
    assert_eq!(value, "loaded");
    assert_eq!(calls, 1);
    let nanos = row.strip_prefix("load kernel\t").unwrap().strip_suffix('\n').unwrap();
    assert!(nanos.parse::<u128>().is_ok());
}

#[test]
fn measure_tells_how_long_the_closure_ran() {
    let p = profiler();
    let wait = std::time::Duration::from_millis(20);
    let (_, row) = p.measure("wait", || {
        let begun = std::time::Instant::now();
        while begun.elapsed() < wait {}
    });
    let nanos: u128 = row.trim_end().split('\t').nth(1).unwrap().parse().unwrap();
    assert!(nanos >= 20_000_000);
}

#[test]
fn rows_read_back_as_label_and_duration() {
    let p = profiler();
    let written = [("boot", 5u128), ("boot", 50), ("boo", 5), ("t5", 0)];
    let mut file = String::new();
    for (label, nanos) in written {
        file.push_str(&p.record(label, nanos));
    }
    let read: Vec<(&str, u128)> = file
        .lines()
        .map(|line| {
            let (label, nanos) = line.split_once('\t').unwrap();
            (label, nanos.parse().unwrap())
        })
        .collect();
    assert_eq!(read, written);
}

#[test]
fn measurements_nest() {
    let p = profiler();
    let ((value, inner), outer) = p.measure("outer", || p.measure("inner", || 42));
    assert_eq!(value, 42);
    let file = inner + &outer;
    let labels: Vec<&str> = file.lines().map(|line| line.split_once('\t').unwrap().0).collect();
    assert_eq!(labels, ["inner", "outer"]);
    for line in file.lines() {
        assert!(line.split_once('\t').unwrap().1.parse::<u128>().is_ok());
    }
}
