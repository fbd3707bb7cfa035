use typout::streamlets::console::Console as PlainConsole;
use typout::streamlets::memory::Memory;
use typout::streamlets::Streamlet;
use typout::console::Console;
use typout::Verbosity;

#[test]
fn levels_filter_messages() {
    let mut c = Console::default();
    c.set_verbosity(Verbosity::Warning);
    c.debug("d").info("i").warn("w").error("e");
    assert_eq!(c.flush(), "we");
    c.set_verbosity(Verbosity::Quiet);
    c.error("e").write("x");
    assert_eq!(c.flush(), "x");
}

#[test]
fn stripansi_removes_codes() {
    let mut c = Console::default();
    c.set_stripansi(true);
    c.info("\x1b[31mred\x1b[39m");
    assert_eq!(c.flush(), "red");
    c.write("\x1b[1mbold\x1b[22m");
    assert_eq!(c.flush(), "bold");
    c.set_stripansi(false);
    c.write("\x1b[1mb");
    assert_eq!(c.flush(), "\x1b[1mb");
}

#[test]
fn drain_discards_text() {
    let mut c = Console::default();
    c.write("a").drain();
    assert_eq!(c.flush(), "");
}

#[test]
fn settings_are_kept() {
    let mut c = Console::default();
    assert_eq!(*c.verbosity(), Verbosity::Debug);
    assert!(!*c.stripansi());
    assert_eq!(*c.speed(), 30);
    assert_eq!(c.chars().len(), 10);
    c.set_spinner_speed(80);
    c.set_spinner_chars(vec!["a".to_string(), "b".to_string()]);
    assert_eq!(*c.speed(), 80);
    assert_eq!(c.chars(), &vec!["a".to_string(), "b".to_string()]);
}

#[test]
fn progress_and_spin_run() {
    let mut c = Console::default();
    c.progress(2, 4, "x");
    assert_eq!(c.spinner().message, "200% x");
    assert!(c.spinner().started);
    c.progress(0, 4, "z");
    assert_eq!(c.spinner().message, "0% z");
    c.progress(200, 100, "w");
    assert_eq!(c.spinner().message, "0% w");
    c.spin("y");
    assert_eq!(c.spinner().message, "y");
    assert_eq!(c.flush(), "");
    assert!(!c.spinner().started);
}

#[test]
fn memory_sink_joins_chunks() {
    let mut m = Memory::new();
    m.write("a".to_string());
    m.write("bc".to_string());
    assert_eq!(m.flush(), "abc");
    assert_eq!(m.flush(), "");
    assert_eq!(m.output(), "");
    m.write("d".to_string());
    assert_eq!(m.output(), "");
}

#[test]
fn plain_console_sink_joins_chunks() {
    let mut p = PlainConsole::new();
    p.write("x".to_string());
    p.write("\n".to_string());
    assert_eq!(p.flush(), "x\n");
}
