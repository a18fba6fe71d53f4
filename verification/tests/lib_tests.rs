use lldb::process::OutputStep;
use lldb::{
    DisassemblyFlavor, OutputCollector, SBCompileUnit, SBDebugger, SBError, SBEvent, SBModule,
    SBProcess, SBStringList, StateType,
};

#[test]
fn lib_it_works() {}

#[test]
fn thread_walk_visits_each_index_once_then_stops() {
    let process = SBProcess::wrap(7u64);
    let mut threads = process.threads();
    assert_eq!(threads.size_hint(3), Some((3, Some(3))));
    assert_eq!(threads.next_index(3), Some(0));
    assert_eq!(threads.next_index(3), Some(1));
    assert_eq!(threads.size_hint(3), Some((1, Some(1))));
    assert_eq!(threads.next_index(3), Some(2));
    assert_eq!(threads.size_hint(3), Some((0, Some(0))));
    assert_eq!(threads.next_index(3), None);
    assert_eq!(threads.next_index(3), None);
    assert_eq!(threads.process().raw, 7u64);
    // The process lost a thread under the walk: no count of what remains.
    assert_eq!(threads.size_hint(2), None);
}

#[test]
fn empty_collection_yields_nothing() {
    let debugger = SBDebugger::wrap(());
    let mut targets = debugger.targets();
    assert_eq!(targets.size_hint(0), Some((0, Some(0))));
    assert_eq!(targets.next_index(0), None);
}

#[test]
fn u32_indexed_walk() {
    let unit = SBCompileUnit::wrap("unit");
    let mut entries = unit.line_entries();
    assert_eq!(entries.next_index(2u32), Some(0u32));
    assert_eq!(entries.size_hint(2u32), Some((1, Some(1))));
    assert_eq!(entries.next_index(2u32), Some(1u32));
    assert_eq!(entries.next_index(2u32), None);
}

#[test]
fn string_list_walk_and_emptiness() {
    let list = SBStringList::wrap(1u8);
    assert!(list.is_empty(0));
    assert!(!list.is_empty(4));
    let mut it = list.iter();
    let mut seen = Vec::new();
    while let Some(i) = it.next_index(4) {
        seen.push(i);
    }
    assert_eq!(seen, vec![0, 1, 2, 3]);
}

#[test]
fn module_symbols_walk_restarts_after_overrun() {
    let module = SBModule::wrap(0u32);
    let mut symbols = module.symbols();
    assert_eq!(symbols.size_hint(3), Some((3, Some(3))));
    assert_eq!(symbols.next_index(3), Some(0));
    assert_eq!(symbols.nth_index(1, 3), Some(2));
    assert_eq!(symbols.size_hint(3), Some((0, Some(0))));
    assert_eq!(symbols.next_index(3), None);
    assert_eq!(symbols.next_index(3), Some(0));
}

#[test]
fn module_symbols_nth_past_end() {
    let module = SBModule::wrap(0u32);
    let mut symbols = module.symbols();
    assert_eq!(symbols.next_index(3), Some(0));
    assert_eq!(symbols.nth_index(5, 3), None);
    assert_eq!(symbols.size_hint(3), Some((1, Some(1))));
    assert_eq!(symbols.next_index(3), Some(2));
}

#[test]
fn process_state_classification() {
    let p = SBProcess::wrap(());
    let all = [
        StateType::Invalid,
        StateType::Unloaded,
        StateType::Connected,
        StateType::Attaching,
        StateType::Launching,
        StateType::Stopped,
        StateType::Running,
        StateType::Stepping,
        StateType::Crashed,
        StateType::Detached,
        StateType::Exited,
        StateType::Suspended,
    ];
    let alive: Vec<bool> = all.iter().map(|s| p.is_alive(*s)).collect();
    let running: Vec<bool> = all.iter().map(|s| p.is_running(*s)).collect();
    let stopped: Vec<bool> = all.iter().map(|s| p.is_stopped(*s)).collect();
    assert_eq!(
        alive,
        vec![false, false, false, true, true, true, true, true, true, false, false, true]
    );
    assert_eq!(
        running,
        vec![false, false, false, false, false, false, true, true, false, false, false, false]
    );
    assert_eq!(
        stopped,
        vec![false, false, false, false, false, true, false, false, true, false, false, true]
    );
    for i in 0..all.len() {
        assert!(!(running[i] && stopped[i]));
        assert!(!running[i] || alive[i]);
        assert!(!stopped[i] || alive[i]);
    }
}

#[test]
fn error_into_result() {
    let ok = SBError::wrap(3i32).into_result(true);
    assert!(ok.is_ok());
    let err = SBError::wrap(4i32).into_result(false);
    match err {
        Err(e) => assert_eq!(e.raw, 4),
        Ok(()) => panic!("a failure must give back the error"),
    }
}

#[test]
fn maybe_wrap_follows_validity() {
    assert_eq!(SBProcess::maybe_wrap(9u64, true).map(|p| p.raw), Some(9));
    assert!(SBProcess::maybe_wrap(9u64, false).is_none());
    assert!(SBError::maybe_wrap(1u8, false).is_none());
    assert_eq!(SBEvent::maybe_wrap(2u8, true).map(|e| e.raw), Some(2));
}

fn collect(chunks: &[&[u8]]) -> Option<String> {
    let mut collector = OutputCollector::new();
    for chunk in chunks {
        match collector.accept(chunk) {
            OutputStep::More(next) => collector = next,
            OutputStep::Done(result) => return result,
        }
    }
    panic!("the stream never ended");
}

#[test]
fn output_collected_until_empty_read() {
    assert_eq!(
        collect(&[b"hello ", b"world", b"", b"ignored"]),
        Some("hello world".to_string())
    );
    assert_eq!(collect(&[b""]), Some(String::new()));
}

#[test]
fn output_with_invalid_utf8_gives_nothing() {
    assert_eq!(collect(&[b"ok", &[0xff, 0xfe], b""]), None);
    // A character split between two reads is decoded whole.
    assert_eq!(collect(&[&[0xc3], &[0xa9], b""]), Some("\u{e9}".to_string()));
    assert_eq!(collect(&[b"caf", &[0xc3], &[0xa9, b'!'], b""]), Some("caf\u{e9}!".to_string()));
    // A stream that ends in the middle of a character is not UTF-8.
    assert_eq!(collect(&[b"ab", &[0xc3], b""]), None);
    assert_eq!(collect(&["é".as_bytes(), b""]), Some("é".to_string()));
}

#[test]
fn single_read_decoding() {
    let p = SBProcess::wrap(());
    assert_eq!(p.get_stdout(b"line\n"), Some("line\n".to_string()));
    assert_eq!(p.get_stderr(&[0x80]), None);
    assert_eq!(p.get_stdout(b""), Some(String::new()));
}

#[test]
fn disassembly_flavor_names() {
    assert_eq!(DisassemblyFlavor::ATT.name(), Some("att"));
    assert_eq!(DisassemblyFlavor::Default.name(), None);
    assert_eq!(DisassemblyFlavor::Intel.name(), Some("intel"));
}

#[test]
fn process_event_view() {
    let event = SBEvent::wrap(11u16);
    assert!(SBProcess::event_as_process_event(&event, false).is_none());
    let pe = SBProcess::event_as_process_event(&event, true).unwrap();
    assert_eq!(pe.event().raw, 11);
    let mut reasons = pe.restarted_reasons();
    assert_eq!(reasons.next_index(1), Some(0));
    assert_eq!(reasons.next_index(1), None);
}

#[test]
fn error_display_text() {
    let error = SBError::wrap(0u8);
    assert_eq!(error.display_text(true, ""), "SBError representing success");
    assert_eq!(error.display_text(false, "no such file"), "SBError: no such file");
    assert_eq!(error.display_text(false, ""), "SBError: ");
}
