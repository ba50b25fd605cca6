use ruspiro_console::ActiveConsole;
use ruspiro_console::BufferConsole;
use ruspiro_console::Console;
use ruspiro_console::ConsoleImpl;
use ruspiro_console::DefaultConsole;
use ruspiro_console::print;

fn recorded(console: &Console<BufferConsole>) -> Vec<char> {
    match console.get_current() {
        ActiveConsole::Installed(sink) => sink.contents().clone(),
        ActiveConsole::Fallback(_) => panic!("expected an installed sink"),
    }
}

#[test]
fn scenario_emit_without_install_is_discarded() {
    let mut console: Console<BufferConsole> = Console::new();
    print(&mut console, "hello");
    match console.get_current() {
        ActiveConsole::Fallback(_) => {}
        ActiveConsole::Installed(_) => panic!("no sink was installed"),
    }
}

#[test]
fn scenario_installed_sink_records_in_order() {
    let mut console = Console::new();
    console.replace(BufferConsole::new());
    print(&mut console, "a");
    print(&mut console, "b");
    assert_eq!(recorded(&console), vec!['a', 'b']);
}

#[test]
fn scenario_second_install_displaces_first() {
    let mut console = Console::new();
    console.replace(BufferConsole::new());
    print(&mut console, "before");
    console.replace(BufferConsole::new());
    print(&mut console, "x");
    assert_eq!(recorded(&console), vec!['x']);
}

#[test]
fn scenario_interleaved_emits_keep_strings_whole() {
    let mut console = Console::new();
    console.replace(BufferConsole::new());
    let mut expected: Vec<char> = Vec::new();
    for _ in 0..1000 {
        print(&mut console, "alpha");
        expected.extend("alpha".chars());
        print(&mut console, "bet");
        expected.extend("bet".chars());
    }
    let got = recorded(&console);
    assert_eq!(got.len(), 1000 * (5 + 3));
    assert_eq!(got, expected);
}

#[test]
fn teardown_marks_the_sink_and_keeps_its_text() {
    let mut sink = BufferConsole::new();
    sink.puts("abc");
    assert!(!sink.taken_down());
    sink.teardown();
    assert!(sink.taken_down());
    assert_eq!(sink.contents(), &vec!['a', 'b', 'c']);
}

#[test]
fn putc_appends_single_characters() {
    let mut sink = BufferConsole::new();
    sink.putc('x');
    sink.putc('y');
    assert_eq!(sink.contents(), &vec!['x', 'y']);
}

#[test]
fn puts_equals_a_putc_sequence() {
    let mut bulk = BufferConsole::new();
    bulk.puts("wxyz");
    let mut single = BufferConsole::new();
    for c in "wxyz".chars() {
        single.putc(c);
    }
    assert_eq!(bulk.contents(), single.contents());
}

#[test]
fn puts_records_multibyte_characters() {
    let mut sink = BufferConsole::new();
    sink.puts("h\u{e9}\u{3bb}");
    assert_eq!(sink.contents(), &vec!['h', '\u{e9}', '\u{3bb}']);
}

#[test]
fn fallback_sink_operations_return_normally() {
    let mut fallback = DefaultConsole::new();
    fallback.putc('h');
    fallback.puts("ello");
    let mut console: Console<BufferConsole> = Console::new();
    for _ in 0..1000 {
        print(&mut console, "ignored");
    }
    match console.get_current() {
        ActiveConsole::Fallback(_) => {}
        ActiveConsole::Installed(_) => panic!("no sink was installed"),
    }
}

#[test]
fn install_after_fallback_emits_takes_effect() {
    let mut console = Console::new();
    print(&mut console, "early");
    console.replace(BufferConsole::new());
    print(&mut console, "late");
    assert_eq!(recorded(&console), "late".chars().collect::<Vec<char>>());
}

#[test]
fn repeated_install_always_succeeds() {
    let mut console = Console::new();
    for _ in 0..10 {
        console.replace(BufferConsole::new());
    }
    print(&mut console, "z");
    assert_eq!(recorded(&console), vec!['z']);
}

#[test]
fn emitting_empty_text_changes_nothing() {
    let mut console = Console::new();
    console.replace(BufferConsole::new());
    print(&mut console, "");
    assert_eq!(recorded(&console), Vec::<char>::new());
}
